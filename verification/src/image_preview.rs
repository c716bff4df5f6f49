//! Screenshot helpers: which files can be previewed, the Kitty format code of
//! an image, and the base64 text in which image bytes are sent to the terminal.

use vstd::prelude::*;
use crate::text::{push_char, same_text};
use crate::textops::{file_extension, lowercase, path_exists, path_extension, to_lower};

verus! {

/// The base64 digit of value `v` (0..64) in the standard alphabet.
pub open spec fn b64_digit(v: int) -> char {
    if v < 26 {
        (65 + v) as char
    } else if v < 52 {
        (97 + (v - 26)) as char
    } else if v < 62 {
        (48 + (v - 52)) as char
    } else if v == 62 {
        '+'
    } else {
        '/'
    }
}

/// Standard base64 (RFC 4648, with `=` padding) of `data`.
pub open spec fn base64_spec(data: Seq<u8>) -> Seq<char>
    decreases data.len(),
{
    if data.len() == 0 {
        Seq::empty()
    } else {
        let b0 = data[0] as int;
        if data.len() == 1 {
            seq![b64_digit(b0 / 4), b64_digit((b0 % 4) * 16), '=', '=']
        } else {
            let b1 = data[1] as int;
            if data.len() == 2 {
                seq![
                    b64_digit(b0 / 4),
                    b64_digit((b0 % 4) * 16 + b1 / 16),
                    b64_digit((b1 % 16) * 4),
                    '=',
                ]
            } else {
                let b2 = data[2] as int;
                seq![
                    b64_digit(b0 / 4),
                    b64_digit((b0 % 4) * 16 + b1 / 16),
                    b64_digit((b1 % 16) * 4 + b2 / 64),
                    b64_digit(b2 % 64),
                ] + base64_spec(data.skip(3))
            }
        }
    }
}

/// The base64 digit of value `v`.
pub fn b64_digit_exec(v: u8) -> (c: char)
    requires
        v < 64,
    ensures
        c == b64_digit(v as int),
{
    if v < 26 {
        ((65 + v) as u8) as char
    } else if v < 52 {
        ((97 + (v - 26)) as u8) as char
    } else if v < 62 {
        ((48 + (v - 52)) as u8) as char
    } else if v == 62 {
        '+'
    } else {
        '/'
    }
}

/// Encodes `data` in standard base64 with `=` padding.
pub fn base64_encode(data: &[u8]) -> (r: String)
    ensures
        r@ == base64_spec(data@),
{
    let mut out = String::new();
    let n = data.len();
    let mut i: usize = 0;
    assert(data@.skip(0) =~= data@);
    while i < n
        invariant
            n == data@.len(),
            i <= n,
            out@ + base64_spec(data@.skip(i as int)) == base64_spec(data@),
        decreases n - i,
    {
        let ghost rest = data@.skip(i as int);
        let b0 = data[i];
        if n - i == 1 {
            push_char(&mut out, b64_digit_exec(b0 / 4));
            push_char(&mut out, b64_digit_exec((b0 % 4) * 16));
            push_char(&mut out, '=');
            push_char(&mut out, '=');
            assert(data@.skip(n as int).len() == 0);
            i = n;
        } else if n - i == 2 {
            let b1 = data[i + 1];
            push_char(&mut out, b64_digit_exec(b0 / 4));
            push_char(&mut out, b64_digit_exec((b0 % 4) * 16 + b1 / 16));
            push_char(&mut out, b64_digit_exec((b1 % 16) * 4));
            push_char(&mut out, '=');
            assert(data@.skip(n as int).len() == 0);
            i = n;
        } else {
            let b1 = data[i + 1];
            let b2 = data[i + 2];
            push_char(&mut out, b64_digit_exec(b0 / 4));
            push_char(&mut out, b64_digit_exec((b0 % 4) * 16 + b1 / 16));
            push_char(&mut out, b64_digit_exec((b1 % 16) * 4 + b2 / 64));
            push_char(&mut out, b64_digit_exec(b2 % 64));
            assert(rest.skip(3) =~= data@.skip(i + 3));
            i = i + 3;
        }
        assert(base64_spec(data@.skip(i as int)) == Seq::<char>::empty() || i < n);
    }
    assert(data@.skip(n as int) =~= Seq::<u8>::empty());
    assert(out@ + Seq::<char>::empty() =~= out@);
    out
}

/// The length of the base64 text: four characters per started group of three bytes.
pub proof fn lemma_base64_len(data: Seq<u8>)
    ensures
        base64_spec(data).len() == (data.len() + 2) / 3 * 4,
    decreases data.len(),
{
    if data.len() > 2 {
        lemma_base64_len(data.skip(3));
    }
}

/// Encoding bytes whose first part is a whole number of three-byte groups
/// gives the encoding of that part followed by the encoding of the rest.
pub proof fn lemma_base64_concat(a: Seq<u8>, b: Seq<u8>)
    requires
        a.len() % 3 == 0,
    ensures
        base64_spec(a + b) == base64_spec(a) + base64_spec(b),
    decreases a.len(),
{
    if a.len() == 0 {
        assert(a + b =~= b);
        assert(base64_spec(a) + base64_spec(b) =~= base64_spec(b));
    } else {
        assert((a + b).skip(3) =~= a.skip(3) + b);
        assert((a + b)[0] == a[0] && (a + b)[1] == a[1] && (a + b)[2] == a[2]);
        lemma_base64_concat(a.skip(3), b);
        let head = seq![
            b64_digit(a[0] as int / 4),
            b64_digit((a[0] as int % 4) * 16 + a[1] as int / 16),
            b64_digit((a[1] as int % 16) * 4 + a[2] as int / 64),
            b64_digit(a[2] as int % 64),
        ];
        assert(base64_spec(a + b) == head + base64_spec(a.skip(3) + b));
        assert(base64_spec(a) == head + base64_spec(a.skip(3)));
        assert(head + (base64_spec(a.skip(3)) + base64_spec(b)) =~= (head + base64_spec(a.skip(3)))
            + base64_spec(b));
    }
}

/// The Kitty graphics protocol format code for image bytes. Every image is
/// sent as a file the terminal decodes itself, code 100, whatever its header.
pub fn detect_format(data: &[u8]) -> (r: u8)
    ensures
        r == 100,
{
    100
}

} // verus!

verus! {

/// The extensions, in lower case, of the image files that can be previewed.
pub open spec fn is_image_extension(ext: Seq<char>) -> bool {
    ext == "png"@ || ext == "jpg"@ || ext == "jpeg"@ || ext == "gif"@ || ext == "webp"@
}

/// Whether the extension of `path`, in lower case, is one of an image.
pub open spec fn has_image_extension_spec(path: Seq<char>) -> bool {
    match path_extension(path) {
        Some(e) => is_image_extension(lowercase(e)),
        None => false,
    }
}

/// Whether `path` ends in an image extension (png, jpg, jpeg, gif, webp), in any case.
pub fn has_image_extension(path: &str) -> (r: bool)
    ensures
        r == has_image_extension_spec(path@),
{
    match file_extension(path) {
        Some(e) => {
            let low = to_lower(e.as_str());
            same_text(low.as_str(), "png") || same_text(low.as_str(), "jpg") || same_text(
                low.as_str(),
                "jpeg",
            ) || same_text(low.as_str(), "gif") || same_text(low.as_str(), "webp")
        },
        None => false,
    }
}

/// Whether a file exists at `path` and is an image that can be previewed. A
/// path without an image extension is never valid; for one with it, the answer
/// is whether the file is there.
pub fn is_valid_image(path: &str) -> (r: bool)
    ensures
        r ==> has_image_extension_spec(path@),
{
    let exists = path_exists(path);
    image_ready(path, exists)
}

/// Whether `path` can be previewed, given whether a file `exists` there: it
/// must, and it must have an image extension.
pub fn image_ready(path: &str, exists: bool) -> (r: bool)
    ensures
        r == (exists && has_image_extension_spec(path@)),
{
    if !exists {
        return false;
    }
    has_image_extension(path)
}

} // verus!
