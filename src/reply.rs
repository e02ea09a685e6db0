//! What an HTTP caller is answered: a status and a body of UTF-8 text.
use vstd::prelude::*;
use vstd::string::StringSliceAdditionalSpecFns;
use vstd::utf8::encode_utf8;

verus! {

pub const STATUS_OK: u16 = 200;

pub const STATUS_BAD_REQUEST: u16 = 400;

pub const STATUS_SERVER_ERROR: u16 = 500;

/// A status code and the bytes of the body.
pub struct Reply {
    pub status: u16,
    pub body: Vec<u8>,
}

pub open spec fn no_image_text() -> Seq<char> {
    "No image data received."@
}

pub open spec fn failure_text() -> Seq<char> {
    "Error during classification"@
}

pub open spec fn label_prefix_text() -> Seq<char> {
    "{\"Predicted label\": \""@
}

pub open spec fn probability_prefix_text() -> Seq<char> {
    "\", \"Probability\": "@
}

pub open spec fn closing_text() -> Seq<char> {
    "}"@
}

/// The lowercase hexadecimal digit of `d`, below 16.
pub open spec fn hex_digit(d: u8) -> u8 {
    if d < 10 {
        (48 + d) as u8
    } else {
        (87 + d) as u8
    }
}

/// How one byte stands inside a JSON string: quote and backslash behind a
/// backslash, control bytes as `\u00XX`, every other byte as it is.
pub open spec fn escaped_byte(b: u8) -> Seq<u8> {
    if b == 34 || b == 92 {
        seq![92u8, b]
    } else if b < 32 {
        seq![92u8, 117u8, 48u8, 48u8, hex_digit(b / 16), hex_digit(b % 16)]
    } else {
        seq![b]
    }
}

/// The bytes of `text` escaped for a JSON string.
pub open spec fn json_escaped(text: Seq<u8>) -> Seq<u8>
    decreases text.len(),
{
    if text.len() == 0 {
        Seq::empty()
    } else {
        json_escaped(text.drop_last()) + escaped_byte(text.last())
    }
}

/// Appends `tail` to `out`.
fn append_bytes(out: &mut Vec<u8>, tail: &[u8])
    ensures
        final(out)@ == old(out)@ + tail@,
{
    let mut i: usize = 0;
    while i < tail.len()
        invariant
            0 <= i <= tail@.len(),
            out@ == old(out)@ + tail@.subrange(0, i as int),
        decreases tail@.len() - i,
    {
        out.push(tail[i]);
        i = i + 1;
        assert(tail@.subrange(0, i as int) =~= tail@.subrange(0, i - 1) + seq![tail@[i - 1]]);
    }
    assert(tail@.subrange(0, tail@.len() as int) =~= tail@);
}

fn hex_digit_of(d: u8) -> (r: u8)
    requires
        d < 16,
    ensures
        r == hex_digit(d),
{
    if d < 10 {
        48 + d
    } else {
        87 + d
    }
}

/// Appends `text`, escaped for a JSON string, to `out`.
pub fn append_json_escaped(out: &mut Vec<u8>, text: &[u8])
    ensures
        final(out)@ == old(out)@ + json_escaped(text@),
{
    let mut i: usize = 0;
    while i < text.len()
        invariant
            0 <= i <= text@.len(),
            out@ == old(out)@ + json_escaped(text@.subrange(0, i as int)),
        decreases text@.len() - i,
    {
        let b = text[i];
        if b == 34 || b == 92 {
            out.push(92);
            out.push(b);
        } else if b < 32 {
            out.push(92);
            out.push(117);
            out.push(48);
            out.push(48);
            out.push(hex_digit_of(b / 16));
            out.push(hex_digit_of(b % 16));
        } else {
            out.push(b);
        }
        proof {
            let next = text@.subrange(0, i + 1);
            assert(next.drop_last() =~= text@.subrange(0, i as int));
            assert(next.last() == b);
        }
        i = i + 1;
        assert(out@ =~= old(out)@ + json_escaped(text@.subrange(0, i as int)));
    }
    assert(text@.subrange(0, text@.len() as int) =~= text@);
}

fn text_bytes(text: &str) -> (r: Vec<u8>)
    ensures
        r@ == encode_utf8(text@),
{
    let mut out: Vec<u8> = Vec::new();
    append_bytes(&mut out, text.as_bytes());
    assert(out@ =~= text.spec_bytes());
    out
}

/// The answer to a request: `Some` with a bad-request reply exactly when
/// the body is empty, so that no empty input reaches classification.
pub fn reject_empty(body: &[u8]) -> (r: Option<Reply>)
    ensures
        r is Some <==> body@.len() == 0,
        r matches Some(rep) ==> rep.status == STATUS_BAD_REQUEST && rep.body@ == encode_utf8(no_image_text()),
{
    if body.len() == 0 {
        Some(Reply { status: STATUS_BAD_REQUEST, body: text_bytes("No image data received.") })
    } else {
        None
    }
}

/// The reply to a failed classification; which failure it was is not told.
pub fn failure_reply() -> (r: Reply)
    ensures
        r.status == STATUS_SERVER_ERROR,
        r.body@ == encode_utf8(failure_text()),
{
    Reply { status: STATUS_SERVER_ERROR, body: text_bytes("Error during classification") }
}

/// The reply to a classification: the label, escaped so that the body stays
/// JSON whatever the label holds, and the probability as already written.
pub fn success_reply(label: &str, probability: &str) -> (r: Reply)
    ensures
        r.status == STATUS_OK,
        r.body@ == encode_utf8(label_prefix_text()) + json_escaped(encode_utf8(label@)) + encode_utf8(
            probability_prefix_text(),
        ) + encode_utf8(probability@) + encode_utf8(closing_text()),
{
    let mut body = text_bytes("{\"Predicted label\": \"");
    append_json_escaped(&mut body, label.as_bytes());
    append_bytes(&mut body, "\", \"Probability\": ".as_bytes());
    append_bytes(&mut body, probability.as_bytes());
    append_bytes(&mut body, "}".as_bytes());
    Reply { status: STATUS_OK, body }
}

} // verus!
