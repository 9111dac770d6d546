//! Framing one image as a multipart body part.
//!
//! Each frame becomes: a boundary delimiter line, a `Content-Type` line, a
//! `Content-Length` line, a blank line, the payload bytes, and a trailing
//! line separator — the framing `multipart/x-mixed-replace` consumers
//! expect. The boundary token is the fixed literal `foo`, shared by every
//! session; payloads are raw image bytes and are not scanned for it.

use vstd::prelude::*;

use crate::digits::{dec_of, dec_val, decimal_digits, lemma_dec_round_trip};

verus! {

/// The bytes of the fixed boundary token `foo`.
pub open spec fn boundary() -> Seq<u8> {
    seq!['f' as u8, 'o' as u8, 'o' as u8]
}

/// The bytes of a line separator, `\r\n`.
pub open spec fn crlf() -> Seq<u8> {
    seq!['\r' as u8, '\n' as u8]
}

/// The bytes of the boundary delimiter line, `--foo\r\n`.
pub open spec fn boundary_line() -> Seq<u8> {
    seq!['-' as u8, '-' as u8] + boundary() + crlf()
}

/// The bytes of `Content-Type: `.
pub open spec fn content_type_label() -> Seq<u8> {
    seq![
        'C' as u8,
        'o' as u8,
        'n' as u8,
        't' as u8,
        'e' as u8,
        'n' as u8,
        't' as u8,
        '-' as u8,
        'T' as u8,
        'y' as u8,
        'p' as u8,
        'e' as u8,
        ':' as u8,
        ' ' as u8,
    ]
}

/// The bytes of `Content-Length: `.
pub open spec fn content_length_label() -> Seq<u8> {
    seq![
        'C' as u8,
        'o' as u8,
        'n' as u8,
        't' as u8,
        'e' as u8,
        'n' as u8,
        't' as u8,
        '-' as u8,
        'L' as u8,
        'e' as u8,
        'n' as u8,
        'g' as u8,
        't' as u8,
        'h' as u8,
        ':' as u8,
        ' ' as u8,
    ]
}

/// The part's header block: the boundary line, the two header lines, and
/// the blank line that separates headers from the payload. The declared
/// length is `len`, rendered in decimal.
pub open spec fn part_header(ct: Seq<u8>, len: nat) -> Seq<u8> {
    boundary_line() + content_type_label() + ct + crlf() + content_length_label() + dec_of(len)
        + crlf() + crlf()
}

/// The full encoding of one part: header block, payload, trailing separator.
pub open spec fn encoded_part(ct: Seq<u8>, body: Seq<u8>) -> Seq<u8> {
    part_header(ct, body.len()) + body + crlf()
}

/// One frame of the feed: its content type and its payload, the raw bytes
/// of the configured file. The two part headers are a function of these.
pub struct Frame {
    /// The value of the part's `Content-Type` header.
    pub content_type: Vec<u8>,
    /// The part's payload: the image file's contents.
    pub body: Vec<u8>,
}

impl Frame {
    /// The value the part's `Content-Length` header declares.
    pub fn content_length(&self) -> (n: usize)
        ensures
            n == self.body@.len(),
    {
        self.body.len()
    }
}

/// Appends all of `s` to `out`.
fn push_all(out: &mut Vec<u8>, s: &[u8])
    ensures
        final(out)@ == old(out)@ + s@,
{
    let mut i: usize = 0;
    while i < s.len()
        invariant
            i <= s@.len(),
            out@ =~= old(out)@ + s@.subrange(0, i as int),
        decreases s@.len() - i,
    {
        out.push(s[i]);
        i = i + 1;
    }
    proof {
        assert(out@ =~= old(out)@ + s@);
    }
}

/// The bytes of the boundary token, `foo`.
pub fn boundary_bytes() -> (r: Vec<u8>)
    ensures
        r@ == boundary(),
{
    let mut v: Vec<u8> = Vec::new();
    v.push('f' as u8);
    v.push('o' as u8);
    v.push('o' as u8);
    proof {
        assert(v@ =~= boundary());
    }
    v
}

/// Appends the boundary delimiter line `--foo\r\n` to `out`.
fn push_boundary_line(out: &mut Vec<u8>)
    ensures
        final(out)@ == old(out)@ + boundary_line(),
{
    out.push('-' as u8);
    out.push('-' as u8);
    out.push('f' as u8);
    out.push('o' as u8);
    out.push('o' as u8);
    out.push('\r' as u8);
    out.push('\n' as u8);
    proof {
        assert(out@ =~= old(out)@ + boundary_line());
    }
}

/// Appends `Content-Type: ` to `out`.
fn push_content_type_label(out: &mut Vec<u8>)
    ensures
        final(out)@ == old(out)@ + content_type_label(),
{
    out.push('C' as u8);
    out.push('o' as u8);
    out.push('n' as u8);
    out.push('t' as u8);
    out.push('e' as u8);
    out.push('n' as u8);
    out.push('t' as u8);
    out.push('-' as u8);
    out.push('T' as u8);
    out.push('y' as u8);
    out.push('p' as u8);
    out.push('e' as u8);
    out.push(':' as u8);
    out.push(' ' as u8);
    proof {
        assert(out@ =~= old(out)@ + content_type_label());
    }
}

/// Appends `Content-Length: ` to `out`.
fn push_content_length_label(out: &mut Vec<u8>)
    ensures
        final(out)@ == old(out)@ + content_length_label(),
{
    out.push('C' as u8);
    out.push('o' as u8);
    out.push('n' as u8);
    out.push('t' as u8);
    out.push('e' as u8);
    out.push('n' as u8);
    out.push('t' as u8);
    out.push('-' as u8);
    out.push('L' as u8);
    out.push('e' as u8);
    out.push('n' as u8);
    out.push('g' as u8);
    out.push('t' as u8);
    out.push('h' as u8);
    out.push(':' as u8);
    out.push(' ' as u8);
    proof {
        assert(out@ =~= old(out)@ + content_length_label());
    }
}

/// Appends `\r\n` to `out`.
fn push_crlf(out: &mut Vec<u8>)
    ensures
        final(out)@ == old(out)@ + crlf(),
{
    out.push('\r' as u8);
    out.push('\n' as u8);
    proof {
        assert(out@ =~= old(out)@ + crlf());
    }
}

/// Serializes one frame as a multipart body part, exactly as
/// [`encoded_part`] describes: boundary line, `Content-Type` line,
/// `Content-Length` line carrying the payload's exact byte count, blank
/// line, payload, trailing separator.
pub fn encode_part(frame: &Frame) -> (r: Vec<u8>)
    ensures
        r@ == encoded_part(frame.content_type@, frame.body@),
{
    let mut out: Vec<u8> = Vec::new();
    push_boundary_line(&mut out);
    push_content_type_label(&mut out);
    push_all(&mut out, frame.content_type.as_slice());
    push_crlf(&mut out);
    push_content_length_label(&mut out);
    let digits = decimal_digits(frame.body.len());
    push_all(&mut out, digits.as_slice());
    push_crlf(&mut out);
    push_crlf(&mut out);
    push_all(&mut out, frame.body.as_slice());
    push_crlf(&mut out);
    proof {
        assert(out@ =~= encoded_part(frame.content_type@, frame.body@));
    }
    out
}

/// The declared length round-trips, and the payload sits unchanged between
/// the header block and the trailing separator: taking exactly the declared
/// number of bytes after the blank line gives back the file contents.
pub proof fn lemma_payload_recovered(ct: Seq<u8>, body: Seq<u8>)
    ensures
        dec_val(dec_of(body.len())) == body.len(),
        encoded_part(ct, body).len() == part_header(ct, body.len()).len() + body.len() + 2,
        encoded_part(ct, body).subrange(
            part_header(ct, body.len()).len() as int,
            part_header(ct, body.len()).len() + body.len() as int,
        ) == body,
{
    lemma_dec_round_trip(body.len());
    let h = part_header(ct, body.len());
    let e = encoded_part(ct, body);
    assert(e.subrange(h.len() as int, h.len() + body.len() as int) =~= body);
}

/// The bytes of the response's top-level content type,
/// `multipart/x-mixed-replace; boundary=foo`.
pub open spec fn stream_content_type_spec() -> Seq<u8> {
    seq![
        'm' as u8,
        'u' as u8,
        'l' as u8,
        't' as u8,
        'i' as u8,
        'p' as u8,
        'a' as u8,
        'r' as u8,
        't' as u8,
        '/' as u8,
        'x' as u8,
        '-' as u8,
        'm' as u8,
        'i' as u8,
        'x' as u8,
        'e' as u8,
        'd' as u8,
        '-' as u8,
        'r' as u8,
        'e' as u8,
        'p' as u8,
        'l' as u8,
        'a' as u8,
        'c' as u8,
        'e' as u8,
        ';' as u8,
        ' ' as u8,
        'b' as u8,
        'o' as u8,
        'u' as u8,
        'n' as u8,
        'd' as u8,
        'a' as u8,
        'r' as u8,
        'y' as u8,
        '=' as u8,
    ] + boundary()
}

/// The response's top-level content type, naming the shared boundary token.
pub fn stream_content_type() -> (r: Vec<u8>)
    ensures
        r@ == stream_content_type_spec(),
{
    let mut v: Vec<u8> = Vec::new();
    v.push('m' as u8);
    v.push('u' as u8);
    v.push('l' as u8);
    v.push('t' as u8);
    v.push('i' as u8);
    v.push('p' as u8);
    v.push('a' as u8);
    v.push('r' as u8);
    v.push('t' as u8);
    v.push('/' as u8);
    v.push('x' as u8);
    v.push('-' as u8);
    v.push('m' as u8);
    v.push('i' as u8);
    v.push('x' as u8);
    v.push('e' as u8);
    v.push('d' as u8);
    v.push('-' as u8);
    v.push('r' as u8);
    v.push('e' as u8);
    v.push('p' as u8);
    v.push('l' as u8);
    v.push('a' as u8);
    v.push('c' as u8);
    v.push('e' as u8);
    v.push(';' as u8);
    v.push(' ' as u8);
    v.push('b' as u8);
    v.push('o' as u8);
    v.push('u' as u8);
    v.push('n' as u8);
    v.push('d' as u8);
    v.push('a' as u8);
    v.push('r' as u8);
    v.push('y' as u8);
    v.push('=' as u8);
    v.push('f' as u8);
    v.push('o' as u8);
    v.push('o' as u8);
    proof {
        assert(v@ =~= stream_content_type_spec());
    }
    v
}

} // verus!
