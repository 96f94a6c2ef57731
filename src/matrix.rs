use vstd::prelude::*;

use crate::error::MatrixError;
use crate::tokens::{spans_are_tokens, token_spans, tokens};

verus! {

/// `parse` can turn a token with the characters `tok` into `out`.
pub open spec fn yields<T, F: Fn(&str) -> Result<T, String>>(
    parse: F,
    tok: Seq<char>,
    out: Result<T, String>,
) -> bool {
    exists|s: &str| s@ == tok && #[trigger] call_ensures(parse, (s,), out)
}

/// `parse` reads the token `tok` as a number.
pub open spec fn accepts<T, F: Fn(&str) -> Result<T, String>>(parse: F, tok: Seq<char>) -> bool {
    exists|v: T| #[trigger] yields(parse, tok, Ok(v))
}

/// `parse` can be called on any text, and its outcome depends on the
/// characters of that text alone.
pub open spec fn is_number_parser<T, F: Fn(&str) -> Result<T, String>>(parse: F) -> bool {
    &&& forall|s: &str| #[trigger] call_requires(parse, (s,))
    &&& forall|s1: &str, s2: &str, o1: Result<T, String>, o2: Result<T, String>|
        s1@ == s2@ && #[trigger] call_ensures(parse, (s1,), o1) && #[trigger] call_ensures(
            parse,
            (s2,),
            o2,
        ) ==> o1 == o2
}

/// Runs `parse` on the characters `from..to` of `text`.
fn parse_token<T, F: Fn(&str) -> Result<T, String>>(
    text: &str,
    from: usize,
    to: usize,
    parse: &F,
) -> (r: Result<T, String>)
    requires
        from <= to <= text@.len(),
        is_number_parser(*parse),
    ensures
        yields(*parse, text@.subrange(from as int, to as int), r),
{
    let tok = text.substring_char(from, to);
    parse(tok)
}

/// A parser that refuses a token does not also read it as a number.
proof fn lemma_refused<T, F: Fn(&str) -> Result<T, String>>(parse: F, tok: Seq<char>, m: String)
    requires
        is_number_parser(parse),
        yields(parse, tok, Err(m)),
    ensures
        !accepts(parse, tok),
{
    if accepts(parse, tok) {
        let v = choose|v: T| #[trigger] yields(parse, tok, Ok(v));
        let s1 = choose|s: &str| s@ == tok && #[trigger] call_ensures(parse, (s,), Ok::<T, String>(v));
        let s2 = choose|s: &str| s@ == tok && #[trigger] call_ensures(parse, (s,), Err::<T, String>(m));
        assert(call_ensures(parse, (s1,), Ok::<T, String>(v)) && call_ensures(parse, (s2,), Err::<T, String>(m)));
    }
}

/// Reads token `k` of `text`, whose token ranges are `spans`.
fn read_token<T, F: Fn(&str) -> Result<T, String>>(
    text: &str,
    spans: &Vec<(usize, usize)>,
    k: usize,
    parse: &F,
) -> (r: Result<T, MatrixError>)
    requires
        spans_are_tokens(text@, spans@),
        k < spans.len(),
        is_number_parser(*parse),
    ensures
        match r {
            Ok(v) => yields(*parse, tokens(text@)[k as int], Ok(v)) && accepts(
                *parse,
                tokens(text@)[k as int],
            ),
            Err(MatrixError::Parse(m)) => yields(*parse, tokens(text@)[k as int], Err(m)) && !accepts(
                *parse,
                tokens(text@)[k as int],
            ),
            Err(_) => false,
        },
{
    let (from, to) = spans[k];
    match parse_token(text, from, to, parse) {
        Ok(v) => Ok(v),
        Err(m) => {
            proof {
                lemma_refused(*parse, tokens(text@)[k as int], m);
            }
            Err(MatrixError::Parse(m))
        },
    }
}

/// Every one of the first `upto` tokens of `toks` is read as a number by `parse`.
pub open spec fn accepts_all<T, F: Fn(&str) -> Result<T, String>>(
    parse: F,
    toks: Seq<Seq<char>>,
    upto: int,
) -> bool {
    forall|l: int| 0 <= l < upto ==> #[trigger] accepts(parse, toks[l])
}

/// Row `i` of `rows` holds what `parse` reads from tokens `3i`, `3i + 1` and `3i + 2`.
pub open spec fn rows_read<T, F: Fn(&str) -> Result<T, String>>(
    parse: F,
    toks: Seq<Seq<char>>,
    rows: Seq<[T; 3]>,
) -> bool {
    forall|i: int, j: int|
        0 <= i < rows.len() && 0 <= j < 3 ==> yields(parse, toks[3 * i + j], Ok(#[trigger] rows[i][j]))
}

/// Reads a point matrix from text: the text's whitespace-separated tokens,
/// each read as a number by `parse`, taken three at a time as the rows.
///
/// The tokens are read in order and the first that `parse` refuses gives a
/// `Parse` error with its message. When all are numbers but their count is
/// not a multiple of three, the last triplet is incomplete: `NotATriplet`.
/// Blank text gives a matrix with no rows.
pub fn read_matrix<T, F: Fn(&str) -> Result<T, String>>(text: &str, parse: F) -> (r: Result<
    Vec<[T; 3]>,
    MatrixError,
>)
    requires
        is_number_parser(parse),
    ensures
        match r {
            Ok(rows) => {
                &&& tokens(text@).len() % 3 == 0
                &&& rows.len() == tokens(text@).len() / 3
                &&& rows_read(parse, tokens(text@), rows@)
            },
            Err(MatrixError::Parse(m)) => exists|k: int|
                0 <= k < tokens(text@).len() && #[trigger] yields(parse, tokens(text@)[k], Err(m))
                    && accepts_all(parse, tokens(text@), k),
            Err(MatrixError::NotATriplet) => {
                &&& tokens(text@).len() % 3 != 0
                &&& accepts_all(parse, tokens(text@), tokens(text@).len() as int)
            },
            Err(_) => false,
        },
        accepts_all(parse, tokens(text@), tokens(text@).len() as int) && tokens(text@).len() % 3
            == 0 ==> r is Ok,
        accepts_all(parse, tokens(text@), tokens(text@).len() as int) && tokens(text@).len() % 3
            != 0 ==> r == Err::<Vec<[T; 3]>, MatrixError>(MatrixError::NotATriplet),
        (exists|k: int| 0 <= k < tokens(text@).len() && !accepts(parse, #[trigger] tokens(text@)[k]))
            ==> r matches Err(MatrixError::Parse(_)),
{
    let spans = token_spans(text);
    let ghost toks = tokens(text@);
    let n = spans.len();
    let mut rows: Vec<[T; 3]> = Vec::new();
    let mut k: usize = 0;
    while n - k >= 3
        invariant
            is_number_parser(parse),
            n == spans.len(),
            toks == tokens(text@),
            spans_are_tokens(text@, spans@),
            k <= n,
            k == 3 * rows.len(),
            accepts_all(parse, toks, k as int),
            rows_read(parse, toks, rows@),
        decreases n - k,
    {
        let a = match read_token(text, &spans, k, &parse) {
            Ok(v) => v,
            Err(e) => {
                proof {
                    assert(!accepts(parse, toks[k as int]));
                }
                return Err(e);
            },
        };
        let b = match read_token(text, &spans, k + 1, &parse) {
            Ok(v) => v,
            Err(e) => {
                proof {
                    assert(!accepts(parse, toks[k + 1 as int]));
                }
                return Err(e);
            },
        };
        let c = match read_token(text, &spans, k + 2, &parse) {
            Ok(v) => v,
            Err(e) => {
                proof {
                    assert(!accepts(parse, toks[k + 2 as int]));
                }
                return Err(e);
            },
        };
        rows.push([a, b, c]);
        k = k + 3;
    }
    while k < n
        invariant
            is_number_parser(parse),
            n == spans.len(),
            toks == tokens(text@),
            spans_are_tokens(text@, spans@),
            k <= n,
            accepts_all(parse, toks, k as int),
        decreases n - k,
    {
        match read_token(text, &spans, k, &parse) {
            Ok(_) => {},
            Err(e) => {
                proof {
                    assert(!accepts(parse, toks[k as int]));
                }
                return Err(e);
            },
        }
        k = k + 1;
    }
    if n % 3 != 0 {
        Err(MatrixError::NotATriplet)
    } else {
        Ok(rows)
    }
}

/// The result of pairing a source matrix of `n_source` rows with a target
/// matrix of `n_target` rows: the number of samples, or why there is no
/// regression to compute.
pub open spec fn pairing(n_source: usize, n_target: usize) -> Result<usize, MatrixError> {
    if n_source != n_target {
        Err(MatrixError::SampleCountMismatch { source: n_source, target: n_target })
    } else if n_source == 0 {
        Err(MatrixError::NoSamples)
    } else {
        Ok(n_source)
    }
}

/// Checks that a source and a target matrix can be regressed one onto the
/// other: they pair their rows one to one, and there is at least one.
pub fn check_pairing<S, T>(source: &Vec<[S; 3]>, target: &Vec<[T; 3]>) -> (r: Result<
    usize,
    MatrixError,
>)
    ensures
        r == pairing(source.len(), target.len()),
{
    if source.len() != target.len() {
        Err(MatrixError::SampleCountMismatch { source: source.len(), target: target.len() })
    } else if source.len() == 0 {
        Err(MatrixError::NoSamples)
    } else {
        Ok(source.len())
    }
}

} // verus!
