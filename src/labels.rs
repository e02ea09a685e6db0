//! The label table: newline-separated text in which line `n` (counted
//! from 1) names class `n`. Lines end at `\n`, a `\r` before it is dropped,
//! and text after the last `\n` is one more line only when non-empty.
use vstd::prelude::*;
use vstd::utf8::{decode_utf8, valid_utf8};
use crate::error::ClassificationError;

verus! {

pub const NEWLINE: u8 = 10;

pub const CARRIAGE_RETURN: u8 = 13;

/// The position of the first `\n` at or after `start`, or the end of the text.
pub open spec fn line_end(text: Seq<u8>, start: int) -> int
    decreases text.len() - start,
{
    if 0 <= start < text.len() && text[start] != NEWLINE {
        line_end(text, start + 1)
    } else {
        start
    }
}

/// Where line `k` (counted from 0) starts; past the end when there is none.
pub open spec fn line_start(text: Seq<u8>, k: nat) -> int
    decreases k,
{
    if k == 0 {
        0
    } else {
        line_end(text, line_start(text, (k - 1) as nat)) + 1
    }
}

/// Whether the text has a line `k` (counted from 0).
pub open spec fn has_line(text: Seq<u8>, k: nat) -> bool {
    line_start(text, k) < text.len()
}

/// The bytes of line `k` (counted from 0), without its line ending.
pub open spec fn line_text(text: Seq<u8>, k: nat) -> Seq<u8> {
    let s = line_start(text, k);
    let raw = text.subrange(s, line_end(text, s));
    if raw.len() > 0 && raw.last() == CARRIAGE_RETURN {
        raw.drop_last()
    } else {
        raw
    }
}

/// The label of class `num`, counted from 1: `None` when the table has no
/// such line, or when that line is not UTF-8 text.
pub open spec fn label_of(text: Seq<u8>, num: nat) -> Option<Seq<char>> {
    if num >= 1 && has_line(text, (num - 1) as nat) && valid_utf8(line_text(text, (num - 1) as nat)) {
        Some(decode_utf8(line_text(text, (num - 1) as nat)))
    } else {
        None
    }
}

proof fn lemma_line_end_bounds(text: Seq<u8>, start: int)
    requires
        0 <= start <= text.len(),
    ensures
        start <= line_end(text, start) <= text.len(),
        line_end(text, start) < text.len() ==> text[line_end(text, start)] == NEWLINE,
        forall|i: int| start <= i < line_end(text, start) ==> text[i] != NEWLINE,
    decreases text.len() - start,
{
    if start < text.len() && text[start] != NEWLINE {
        lemma_line_end_bounds(text, start + 1);
    }
}

/// Once a line is missing, so is every later one.
proof fn lemma_no_later_line(text: Seq<u8>, j: nat, k: nat)
    requires
        j <= k,
        line_start(text, j) >= text.len(),
    ensures
        line_start(text, k) > line_start(text, j) || j == k,
        line_start(text, k) >= text.len(),
    decreases k - j,
{
    if j < k {
        lemma_no_later_line(text, j, (k - 1) as nat);
        assert(line_start(text, k) == line_end(text, line_start(text, (k - 1) as nat)) + 1);
    }
}

/// The position of the first `\n` at or after `start`, or the text's length.
fn find_line_end(text: &[u8], start: usize) -> (e: usize)
    requires
        start <= text@.len(),
    ensures
        e == line_end(text@, start as int),
        start <= e <= text@.len(),
{
    proof { lemma_line_end_bounds(text@, start as int); }
    let mut i = start;
    while i < text.len() && text[i] != NEWLINE
        invariant
            start <= i <= text@.len(),
            line_end(text@, i as int) == line_end(text@, start as int),
        decreases text@.len() - i,
    {
        i = i + 1;
    }
    i
}

/// The bytes of line `num` (counted from 1) without its line ending, or
/// `None` when the table has fewer lines.
pub fn label_line(text: &[u8], num: usize) -> (r: Option<Vec<u8>>)
    requires
        num >= 1,
    ensures
        r is Some <==> has_line(text@, (num - 1) as nat),
        r matches Some(v) ==> v@ == line_text(text@, (num - 1) as nat),
{
    let k = num - 1;
    let n = text.len();
    let mut start: usize = 0;
    let mut j: usize = 0;
    while j < k
        invariant
            n == text@.len(),
            k == num - 1,
            0 <= j <= k,
            start as int == line_start(text@, j as nat),
            start <= n,
        decreases k - j,
    {
        if start == n {
            proof { lemma_no_later_line(text@, j as nat, k as nat); }
            return None;
        }
        let e = find_line_end(text, start);
        if e == n {
            assert(line_start(text@, (j + 1) as nat) == n + 1);
            proof { lemma_no_later_line(text@, (j + 1) as nat, k as nat); }
            return None;
        }
        start = e + 1;
        j = j + 1;
    }
    if start == n {
        return None;
    }
    let e = find_line_end(text, start);
    let stop = if e > start && text[e - 1] == CARRIAGE_RETURN { e - 1 } else { e };
    let mut line: Vec<u8> = Vec::new();
    let mut i = start;
    while i < stop
        invariant
            start <= i <= stop <= e <= n,
            n == text@.len(),
            line@ == text@.subrange(start as int, i as int),
        decreases stop - i,
    {
        line.push(text[i]);
        i = i + 1;
    }
    proof {
        let raw = text@.subrange(start as int, e as int);
        if raw.len() > 0 && raw.last() == CARRIAGE_RETURN {
            assert(raw.drop_last() =~= text@.subrange(start as int, stop as int));
        }
        assert(line@ =~= line_text(text@, k as nat));
    }
    Some(line)
}

/// Relies on std::string::String::from_utf8: it succeeds exactly on valid
/// UTF-8, and the text then holds the characters those bytes encode.
#[verifier::external_body]
fn utf8_text(bytes: Vec<u8>) -> (r: Option<String>)
    ensures
        r is Some <==> valid_utf8(bytes@),
        r matches Some(s) ==> s@ == decode_utf8(bytes@),
{
    String::from_utf8(bytes).ok()
}

/// The label of class `num` (counted from 1). A table with too few lines is
/// a mismatch between model and labels, reported as `MissingLabel`; a line
/// that is not UTF-8 text is an `IoError`.
pub fn get_label(text: &[u8], num: usize) -> (r: Result<String, ClassificationError>)
    requires
        num >= 1,
    ensures
        r matches Ok(s) ==> label_of(text@, num as nat) == Some(s@),
        r is Ok <==> label_of(text@, num as nat) is Some,
        r matches Err(e) ==> (e == ClassificationError::MissingLabel(num) <==> !has_line(text@, (num - 1) as nat)),
        r matches Err(e) ==> (e is IoError <==> has_line(text@, (num - 1) as nat)),
{
    match label_line(text, num) {
        None => Err(ClassificationError::MissingLabel(num)),
        Some(line) => match utf8_text(line) {
            Some(s) => Ok(s),
            None => Err(ClassificationError::IoError(String::from_str("label line is not valid UTF-8"))),
        },
    }
}

} // verus!
