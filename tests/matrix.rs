use solve_matrix::error::MatrixError;
use solve_matrix::matrix::{check_pairing, read_matrix};
use solve_matrix::tokens::{is_blank_char, token_spans};

fn number(token: &str) -> Result<f64, String> {
    match token.parse::<f64>() {
        Ok(v) if v.is_finite() => Ok(v),
        Ok(_) => Err(format!("not a finite number: {}", token)),
        Err(e) => Err(e.to_string()),
    }
}

fn read(text: &str) -> Result<Vec<[f64; 3]>, MatrixError> {
    read_matrix(text, number)
}

const SOURCE_SMALL: &str = "0.535 0.382 0.344
0.472 0.510 0.434
0.371 0.388 0.476
0.476 0.525 0.557
0.574 0.474 0.516
0.631 0.597 0.463
";

#[test]
fn parse_matrix() {
    let actual = read(SOURCE_SMALL).unwrap();
    let expected = vec![
        [0.535, 0.382, 0.344],
        [0.472, 0.510, 0.434],
        [0.371, 0.388, 0.476],
        [0.476, 0.525, 0.557],
        [0.574, 0.474, 0.516],
        [0.631, 0.597, 0.463],
    ];
    assert_eq!(actual, expected);
}

#[test]
fn rows_follow_token_order() {
    let actual = read("1 2 3 4 5 6 7 8 9").unwrap();
    assert_eq!(actual, vec![[1.0, 2.0, 3.0], [4.0, 5.0, 6.0], [7.0, 8.0, 9.0]]);
}

#[test]
fn triplets_may_span_lines() {
    let actual = read("1 2\n3 4\n\n5 6\n").unwrap();
    assert_eq!(actual, vec![[1.0, 2.0, 3.0], [4.0, 5.0, 6.0]]);
}

#[test]
fn blank_text_gives_no_rows() {
    assert_eq!(read("").unwrap(), Vec::<[f64; 3]>::new());
    assert_eq!(read(" \n\t \r\n").unwrap(), Vec::<[f64; 3]>::new());
}

#[test]
fn unicode_whitespace_separates() {
    let actual = read("1\u{a0}-2.5\u{3000}3e2\u{2028}").unwrap();
    assert_eq!(actual, vec![[1.0, -2.5, 300.0]]);
}

#[test]
fn incomplete_triplet_is_refused() {
    assert_eq!(read("1 2 3 4"), Err(MatrixError::NotATriplet));
    assert_eq!(read("1 2"), Err(MatrixError::NotATriplet));
    assert_eq!(read("1 2 3\n4 5"), Err(MatrixError::NotATriplet));
}

#[test]
fn non_numeric_token_is_refused() {
    let expected = "abc".parse::<f64>().unwrap_err().to_string();
    assert_eq!(read("1 abc 3"), Err(MatrixError::Parse(expected.clone())));
    assert_eq!(read("1 2 3\n4 5 abc"), Err(MatrixError::Parse(expected)));
}

#[test]
fn parse_failure_comes_before_incomplete_triplet() {
    let expected = "x".parse::<f64>().unwrap_err().to_string();
    assert_eq!(read("1 x"), Err(MatrixError::Parse(expected)));
}

#[test]
fn first_refused_token_is_reported() {
    let result = read_matrix("1 a 2 b 3 c", |t: &str| -> Result<u8, String> {
        t.parse::<u8>().map_err(|_| t.to_string())
    });
    assert_eq!(result, Err(MatrixError::Parse("a".to_string())));
}

#[test]
fn non_finite_token_is_refused() {
    assert!(matches!(read("1 2 inf"), Err(MatrixError::Parse(_))));
}

#[test]
fn spans_of_tokens() {
    assert_eq!(token_spans("  ab c\n\tdef "), vec![(2, 4), (5, 6), (8, 11)]);
    assert_eq!(token_spans(""), Vec::<(usize, usize)>::new());
    assert_eq!(token_spans("é ü"), vec![(0, 1), (2, 3)]);
}

#[test]
fn blank_characters() {
    for c in [' ', '\t', '\n', '\r', '\u{b}', '\u{c}', '\u{85}', '\u{a0}', '\u{1680}', '\u{2000}',
        '\u{200a}', '\u{2028}', '\u{2029}', '\u{202f}', '\u{205f}', '\u{3000}']
    {
        assert!(is_blank_char(c), "{:?}", c);
        assert_eq!(is_blank_char(c), c.is_whitespace());
    }
    for c in ['a', '0', '.', '-', '\u{200b}', '\u{180e}', '\u{feff}'] {
        assert!(!is_blank_char(c), "{:?}", c);
        assert_eq!(is_blank_char(c), c.is_whitespace());
    }
}

#[test]
fn pairing_needs_equal_nonzero_counts() {
    let three = vec![[0.0f64; 3]; 3];
    let two = vec![[0.0f64; 3]; 2];
    let none: Vec<[f64; 3]> = Vec::new();
    assert_eq!(check_pairing(&three, &three.clone()), Ok(3));
    assert_eq!(
        check_pairing(&three, &two),
        Err(MatrixError::SampleCountMismatch { source: 3, target: 2 })
    );
    assert_eq!(check_pairing(&none, &none.clone()), Err(MatrixError::NoSamples));
}

#[test]
fn error_messages() {
    assert_eq!(MatrixError::NotATriplet.message(), "line is not a triplet");
    assert_eq!(MatrixError::Io("gone".to_string()).message(), "gone");
    assert_eq!(MatrixError::Parse("bad".to_string()).message(), "bad");
    assert_eq!(
        MatrixError::NotATriplet.report(),
        "Error: line is not a triplet\n\nSee --help"
    );
    assert_eq!(MatrixError::NoSamples.message(), "the datasets hold no samples");
    assert_eq!(
        MatrixError::SampleCountMismatch { source: 1, target: 2 }.message(),
        "the source and target datasets hold different numbers of samples"
    );
}
