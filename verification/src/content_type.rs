//! Resolving a part's content type from the configured file path.
//!
//! The mapping is a pure, total function of the path's extension, taken as
//! given (no case normalization, no probing of file contents): `jpeg`, `png`
//! and `webp` map to their image types, everything else — a missing extension
//! included — to the generic `image/*`.

use vstd::prelude::*;

verus! {

/// ASCII `/`, the path separator.
pub open spec fn slash() -> u8 {
    '/' as u8
}

/// ASCII `.`, the extension separator.
pub open spec fn dot() -> u8 {
    '.' as u8
}

/// The bytes of `jpeg`.
pub open spec fn ext_jpeg() -> Seq<u8> {
    seq!['j' as u8, 'p' as u8, 'e' as u8, 'g' as u8]
}

/// The bytes of `png`.
pub open spec fn ext_png() -> Seq<u8> {
    seq!['p' as u8, 'n' as u8, 'g' as u8]
}

/// The bytes of `webp`.
pub open spec fn ext_webp() -> Seq<u8> {
    seq!['w' as u8, 'e' as u8, 'b' as u8, 'p' as u8]
}

/// The bytes of `image/jpeg`.
pub open spec fn ct_jpeg() -> Seq<u8> {
    seq![
        'i' as u8,
        'm' as u8,
        'a' as u8,
        'g' as u8,
        'e' as u8,
        '/' as u8,
        'j' as u8,
        'p' as u8,
        'e' as u8,
        'g' as u8,
    ]
}

/// The bytes of `image/png`.
pub open spec fn ct_png() -> Seq<u8> {
    seq![
        'i' as u8,
        'm' as u8,
        'a' as u8,
        'g' as u8,
        'e' as u8,
        '/' as u8,
        'p' as u8,
        'n' as u8,
        'g' as u8,
    ]
}

/// The bytes of `image/webp`.
pub open spec fn ct_webp() -> Seq<u8> {
    seq![
        'i' as u8,
        'm' as u8,
        'a' as u8,
        'g' as u8,
        'e' as u8,
        '/' as u8,
        'w' as u8,
        'e' as u8,
        'b' as u8,
        'p' as u8,
    ]
}

/// The bytes of `image/*`, the generic fallback type.
pub open spec fn ct_generic() -> Seq<u8> {
    seq![
        'i' as u8,
        'm' as u8,
        'a' as u8,
        'g' as u8,
        'e' as u8,
        '/' as u8,
        '*' as u8,
    ]
}

/// The largest index `i < end` with `s[i] == b`, if any.
pub open spec fn last_byte_before(s: Seq<u8>, b: u8, end: int) -> Option<int>
    decreases end,
{
    if end <= 0 || end > s.len() {
        None
    } else if s[end - 1] == b {
        Some(end - 1)
    } else {
        last_byte_before(s, b, end - 1)
    }
}

/// Where the path's file name begins: just after the last `/`, or at the
/// start of the path if it has none.
pub open spec fn name_start(path: Seq<u8>) -> int {
    match last_byte_before(path, slash(), path.len() as int) {
        Some(i) => i + 1,
        None => 0,
    }
}

/// The extension of `path`, if it has one: the bytes after the last `.`,
/// provided that dot lies strictly inside the file name (so a name that is
/// all of `.config` has no extension, and neither has a dotless name).
pub open spec fn spec_extension(path: Seq<u8>) -> Option<Seq<u8>> {
    match last_byte_before(path, dot(), path.len() as int) {
        Some(d) => if d > name_start(path) {
            Some(path.subrange(d + 1, path.len() as int))
        } else {
            None
        },
        None => None,
    }
}

/// The content type served for a file at `path`: the fixed mapping of the
/// extensions `jpeg`, `png` and `webp`, and `image/*` for everything else.
pub open spec fn spec_content_type(path: Seq<u8>) -> Seq<u8> {
    match spec_extension(path) {
        Some(e) => if e == ext_jpeg() {
            ct_jpeg()
        } else if e == ext_png() {
            ct_png()
        } else if e == ext_webp() {
            ct_webp()
        } else {
            ct_generic()
        },
        None => ct_generic(),
    }
}

/// Scans `s` backwards from `end` for the byte `b`.
fn find_last_byte_before(s: &[u8], b: u8, end: usize) -> (r: Option<usize>)
    requires
        end <= s@.len(),
    ensures
        match r {
            Some(i) => i < end && last_byte_before(s@, b, end as int) == Some(i as int),
            None => last_byte_before(s@, b, end as int) is None,
        },
{
    let mut e = end;
    loop
        invariant
            e <= end <= s@.len(),
            last_byte_before(s@, b, end as int) == last_byte_before(s@, b, e as int),
        decreases e,
    {
        if e == 0 {
            return None;
        }
        if s[e - 1] == b {
            return Some(e - 1);
        }
        e = e - 1;
    }
}

/// Copies `s[from..]` into a fresh vector.
fn copy_tail(s: &[u8], from: usize) -> (r: Vec<u8>)
    requires
        from <= s@.len(),
    ensures
        r@ == s@.subrange(from as int, s@.len() as int),
{
    let mut v: Vec<u8> = Vec::new();
    let mut i = from;
    while i < s.len()
        invariant
            from <= i <= s@.len(),
            v@ =~= s@.subrange(from as int, i as int),
        decreases s@.len() - i,
    {
        v.push(s[i]);
        i = i + 1;
    }
    proof {
        assert(v@ =~= s@.subrange(from as int, s@.len() as int));
    }
    v
}

/// The extension of `path`, per [`spec_extension`].
pub fn extension_of(path: &[u8]) -> (r: Option<Vec<u8>>)
    ensures
        match r {
            Some(e) => spec_extension(path@) == Some(e@),
            None => spec_extension(path@) is None,
        },
{
    let ns: usize = match find_last_byte_before(path, '/' as u8, path.len()) {
        Some(i) => i + 1,
        None => 0,
    };
    match find_last_byte_before(path, '.' as u8, path.len()) {
        Some(d) => if d > ns {
            Some(copy_tail(path, d + 1))
        } else {
            None
        },
        None => None,
    }
}

/// Compares two byte strings for equality.
fn bytes_eq(a: &[u8], b: &[u8]) -> (r: bool)
    ensures
        r == (a@ == b@),
{
    if a.len() != b.len() {
        proof {
            assert(a@.len() != b@.len());
        }
        return false;
    }
    let mut i: usize = 0;
    while i < a.len()
        invariant
            i <= a@.len(),
            a@.len() == b@.len(),
            a@.subrange(0, i as int) =~= b@.subrange(0, i as int),
        decreases a@.len() - i,
    {
        if a[i] != b[i] {
            proof {
                assert(a@[i as int] != b@[i as int]);
            }
            return false;
        }
        proof {
            assert(a@.subrange(0, i + 1) =~= b@.subrange(0, i + 1));
        }
        i = i + 1;
    }
    proof {
        assert(a@ =~= a@.subrange(0, a@.len() as int));
        assert(b@ =~= b@.subrange(0, b@.len() as int));
    }
    true
}

/// Relies on `mime::IMAGE_JPEG`: the constant `image/jpeg` media type, whose
/// `AsRef<str>` form is that literal source string.
#[verifier::external_body]
fn mime_jpeg_bytes() -> (r: Vec<u8>)
    ensures
        r@ == ct_jpeg(),
{
    mime::IMAGE_JPEG.as_ref().as_bytes().to_vec()
}

/// Relies on `mime::IMAGE_PNG`: the constant `image/png` media type, whose
/// `AsRef<str>` form is that literal source string.
#[verifier::external_body]
fn mime_png_bytes() -> (r: Vec<u8>)
    ensures
        r@ == ct_png(),
{
    mime::IMAGE_PNG.as_ref().as_bytes().to_vec()
}

/// The bytes of `image/webp`.
fn ct_webp_bytes() -> (r: Vec<u8>)
    ensures
        r@ == ct_webp(),
{
    let mut v: Vec<u8> = Vec::new();
    v.push('i' as u8);
    v.push('m' as u8);
    v.push('a' as u8);
    v.push('g' as u8);
    v.push('e' as u8);
    v.push('/' as u8);
    v.push('w' as u8);
    v.push('e' as u8);
    v.push('b' as u8);
    v.push('p' as u8);
    proof {
        assert(v@ =~= ct_webp());
    }
    v
}

/// The bytes of `image/*`.
fn ct_generic_bytes() -> (r: Vec<u8>)
    ensures
        r@ == ct_generic(),
{
    let mut v: Vec<u8> = Vec::new();
    v.push('i' as u8);
    v.push('m' as u8);
    v.push('a' as u8);
    v.push('g' as u8);
    v.push('e' as u8);
    v.push('/' as u8);
    v.push('*' as u8);
    proof {
        assert(v@ =~= ct_generic());
    }
    v
}

/// The bytes of `jpeg`.
fn ext_jpeg_bytes() -> (r: Vec<u8>)
    ensures
        r@ == ext_jpeg(),
{
    let mut v: Vec<u8> = Vec::new();
    v.push('j' as u8);
    v.push('p' as u8);
    v.push('e' as u8);
    v.push('g' as u8);
    proof {
        assert(v@ =~= ext_jpeg());
    }
    v
}

/// The bytes of `png`.
fn ext_png_bytes() -> (r: Vec<u8>)
    ensures
        r@ == ext_png(),
{
    let mut v: Vec<u8> = Vec::new();
    v.push('p' as u8);
    v.push('n' as u8);
    v.push('g' as u8);
    proof {
        assert(v@ =~= ext_png());
    }
    v
}

/// The bytes of `webp`.
fn ext_webp_bytes() -> (r: Vec<u8>)
    ensures
        r@ == ext_webp(),
{
    let mut v: Vec<u8> = Vec::new();
    v.push('w' as u8);
    v.push('e' as u8);
    v.push('b' as u8);
    v.push('p' as u8);
    proof {
        assert(v@ =~= ext_webp());
    }
    v
}

/// The content type served for a file at `path`, per [`spec_content_type`]:
/// `image/jpeg`, `image/png` and `image/webp` for the extensions `jpeg`,
/// `png` and `webp`, and the generic `image/*` for any other or missing
/// extension.
pub fn content_type_for(path: &[u8]) -> (r: Vec<u8>)
    ensures
        r@ == spec_content_type(path@),
{
    match extension_of(path) {
        Some(e) => {
            if bytes_eq(e.as_slice(), ext_jpeg_bytes().as_slice()) {
                mime_jpeg_bytes()
            } else if bytes_eq(e.as_slice(), ext_png_bytes().as_slice()) {
                mime_png_bytes()
            } else if bytes_eq(e.as_slice(), ext_webp_bytes().as_slice()) {
                ct_webp_bytes()
            } else {
                ct_generic_bytes()
            }
        },
        None => ct_generic_bytes(),
    }
}

} // verus!
