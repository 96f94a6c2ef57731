use vstd::prelude::*;

verus! {

/// Unicode `White_Space` characters: the separators between tokens.
pub open spec fn is_blank(c: char) -> bool {
    let u = c as u32;
    (0x09 <= u && u <= 0x0d) || u == 0x20 || u == 0x85 || u == 0xa0 || u == 0x1680 || (0x2000
        <= u && u <= 0x200a) || u == 0x2028 || u == 0x2029 || u == 0x202f || u == 0x205f || u
        == 0x3000
}

/// The tokens of `s`: its maximal runs of non-blank characters, in order.
/// A non-blank character extends the token of the character before it when
/// that one is non-blank too, and starts a new token otherwise.
pub open spec fn tokens(s: Seq<char>) -> Seq<Seq<char>>
    decreases s.len(),
{
    if s.len() == 0 {
        Seq::empty()
    } else {
        let p = s.drop_last();
        let c = s.last();
        let ts = tokens(p);
        if is_blank(c) {
            ts
        } else if p.len() > 0 && !is_blank(p.last()) {
            ts.update(ts.len() - 1, ts.last().push(c))
        } else {
            ts.push(seq![c])
        }
    }
}

/// `spans` are the character ranges of the tokens of `text`, in order.
pub open spec fn spans_are_tokens(text: Seq<char>, spans: Seq<(usize, usize)>) -> bool {
    &&& spans.len() == tokens(text).len()
    &&& forall|k: int|
        0 <= k < spans.len() ==> {
            &&& #[trigger] spans[k].0 < spans[k].1 <= text.len()
            &&& text.subrange(spans[k].0 as int, spans[k].1 as int) == tokens(text)[k]
        }
}

/// Whether `c` separates tokens.
pub fn is_blank_char(c: char) -> (r: bool)
    ensures
        r == is_blank(c),
{
    let u = c as u32;
    (0x09 <= u && u <= 0x0d) || u == 0x20 || u == 0x85 || u == 0xa0 || u == 0x1680 || (0x2000
        <= u && u <= 0x200a) || u == 0x2028 || u == 0x2029 || u == 0x202f || u == 0x205f || u
        == 0x3000
}

/// The tokens of `text`, as character ranges `(start, end)` into it.
pub fn token_spans(text: &str) -> (spans: Vec<(usize, usize)>)
    ensures
        spans_are_tokens(text@, spans@),
{
    let mut spans: Vec<(usize, usize)> = Vec::new();
    let mut start: Option<usize> = None;
    let n = text.unicode_len();
    let mut i: usize = 0;
    for c in it: text.chars()
        invariant
            it.seq() == text@,
            n == text@.len(),
            i == it.index(),
            i <= n,
            spans_match(text@, spans@, i as int, start),
    {
        let ghost t = text@;
        proof {
            lemma_tokens_step(t, i as int);
        }
        if is_blank_char(c) {
            if let Some(st) = start {
                spans.push((st, i));
                start = None;
            }
        } else if start.is_none() {
            proof {
                assert(t.subrange(i as int, i + 1) =~= seq![c]);
            }
            start = Some(i);
        } else {
            proof {
                let st = start->0;
                assert(t.subrange(st as int, i + 1) =~= t.subrange(st as int, i as int).push(c));
            }
        }
        i = i + 1;
    }
    if let Some(st) = start {
        spans.push((st, i));
    }
    proof {
        assert(text@.subrange(0, text@.len() as int) =~= text@);
    }
    spans
}

/// `spans` and `start` describe the tokens of the first `i` characters of
/// `text`: the finished tokens as ranges, and the start of the token that is
/// still open, if the last character read belongs to one.
pub open spec fn spans_match(
    text: Seq<char>,
    spans: Seq<(usize, usize)>,
    i: int,
    start: Option<usize>,
) -> bool {
    let ts = tokens(text.subrange(0, i));
    let done = match start {
        Some(_) => ts.len() - 1,
        None => ts.len() as int,
    };
    &&& spans.len() == done
    &&& forall|k: int|
        0 <= k < spans.len() ==> {
            &&& #[trigger] spans[k].0 < spans[k].1 <= i
            &&& text.subrange(spans[k].0 as int, spans[k].1 as int) == ts[k]
        }
    &&& match start {
        Some(st) => {
            &&& st < i
            &&& ts.len() > 0
            &&& text.subrange(st as int, i) == ts.last()
            &&& !is_blank(text[i - 1])
        },
        None => i > 0 ==> is_blank(text[i - 1]),
    }
}

/// How the tokens change when one more character is read.
proof fn lemma_tokens_step(text: Seq<char>, i: int)
    requires
        0 <= i < text.len(),
    ensures
        ({
            let p = text.subrange(0, i);
            let q = text.subrange(0, i + 1);
            let ts = tokens(p);
            let c = text[i];
            tokens(q) == if is_blank(c) {
                ts
            } else if i > 0 && !is_blank(text[i - 1]) {
                ts.update(ts.len() - 1, ts.last().push(c))
            } else {
                ts.push(seq![c])
            }
        }),
{
    let q = text.subrange(0, i + 1);
    assert(q.drop_last() =~= text.subrange(0, i));
}

} // verus!
