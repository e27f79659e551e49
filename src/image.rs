use vstd::prelude::*;
use vstd::string::StringExecFns;
use crate::text::str_equals;
use crate::text::push_char;

verus! {

/// The base64 digit of a six-bit value.
pub open spec fn digit(v: int) -> char {
    if v < 26 {
        (65 + v) as char
    } else if v < 52 {
        (97 + v - 26) as char
    } else if v < 62 {
        (48 + v - 52) as char
    } else if v == 62 {
        '+'
    } else {
        '/'
    }
}

/// Standard padded base64 of `d`, three bytes to four digits.
pub open spec fn base64(d: Seq<u8>) -> Seq<char>
    decreases d.len(),
{
    if d.len() == 0 {
        Seq::empty()
    } else if d.len() == 1 {
        seq![digit((d[0] / 4) as int), digit((d[0] % 4) * 16), '=', '=']
    } else if d.len() == 2 {
        seq![digit((d[0] / 4) as int), digit((d[0] % 4) * 16 + d[1] / 16), digit((d[1] % 16) * 4), '=']
    } else {
        seq![
            digit((d[0] / 4) as int),
            digit((d[0] % 4) * 16 + d[1] / 16),
            digit((d[1] % 16) * 4 + d[2] / 64),
            digit((d[2] % 64) as int),
        ] + base64(d.subrange(3, d.len() as int))
    }
}

fn digit_char(v: u8) -> (r: char)
    requires
        v < 64,
    ensures
        r == digit(v as int),
{
    if v < 26 {
        (65 + v) as char
    } else if v < 52 {
        (97 + v - 26) as char
    } else if v < 62 {
        (48 + v - 52) as char
    } else if v == 62 {
        '+'
    } else {
        '/'
    }
}

/// Encodes `data` as standard padded base64.
pub fn base64_encode(data: &[u8]) -> (r: String)
    ensures
        r@ == base64(data@),
{
    let n = data.len();
    let mut out = String::new();
    let mut i: usize = 0;
    assert(data@.subrange(0, n as int) =~= data@);
    assert(out@ + base64(data@) =~= base64(data@));
    while i < n
        invariant
            n == data@.len(),
            i <= n,
            out@ + base64(data@.subrange(i as int, n as int)) == base64(data@),
        decreases n - i,
    {
        let ghost rest = data@.subrange(i as int, n as int);
        let ghost before = out@;
        let b0 = data[i];
        push_char(&mut out, digit_char(b0 / 4));
        if n - i == 1 {
            push_char(&mut out, digit_char((b0 % 4) * 16));
            push_char(&mut out, '=');
            push_char(&mut out, '=');
            proof {
                assert(rest =~= seq![b0]);
                assert(out@ =~= before + base64(rest));
                assert(data@.subrange(n as int, n as int) =~= Seq::<u8>::empty());
            }
            i = n;
        } else if n - i == 2 {
            let b1 = data[i + 1];
            push_char(&mut out, digit_char((b0 % 4) * 16 + b1 / 16));
            push_char(&mut out, digit_char((b1 % 16) * 4));
            push_char(&mut out, '=');
            proof {
                assert(rest =~= seq![b0, b1]);
                assert(out@ =~= before + base64(rest));
                assert(data@.subrange(n as int, n as int) =~= Seq::<u8>::empty());
            }
            i = n;
        } else {
            let b1 = data[i + 1];
            let b2 = data[i + 2];
            push_char(&mut out, digit_char((b0 % 4) * 16 + b1 / 16));
            push_char(&mut out, digit_char((b1 % 16) * 4 + b2 / 64));
            push_char(&mut out, digit_char(b2 % 64));
            proof {
                assert(rest[0] == b0 && rest[1] == b1 && rest[2] == b2);
                assert(rest.subrange(3, rest.len() as int) =~= data@.subrange(i + 3, n as int));
                assert(base64(rest) == seq![
                    digit((b0 / 4) as int),
                    digit((b0 % 4) * 16 + b1 / 16),
                    digit((b1 % 16) * 4 + b2 / 64),
                    digit((b2 % 64) as int),
                ] + base64(data@.subrange(i + 3, n as int)));
                assert(out@ + base64(data@.subrange(i + 3, n as int)) =~= before + base64(rest));
            }
            i = i + 3;
        }
        proof {
            if i == n {
                assert(out@ + base64(data@.subrange(i as int, n as int)) =~= out@);
            }
        }
    }
    assert(out@ + base64(data@.subrange(n as int, n as int)) =~= out@);
    out
}

/// The MIME type announced for an image whose file extension is `ext`
/// (compared exactly); anything unknown is announced as PNG.
pub open spec fn mime_of(ext: Option<Seq<char>>) -> Seq<char> {
    match ext {
        Some(e) => if e == "jpg"@ || e == "jpeg"@ {
            "image/jpeg"@
        } else if e == "gif"@ {
            "image/gif"@
        } else if e == "webp"@ {
            "image/webp"@
        } else if e == "svg"@ {
            "image/svg+xml"@
        } else {
            "image/png"@
        },
        None => "image/png"@,
    }
}

/// The MIME type of an image by its file extension.
pub fn mime_type(ext: Option<&str>) -> (r: &'static str)
    ensures
        r@ == mime_of(
            match ext {
                Some(e) => Some(e@),
                None => None,
            },
        ),
{
    match ext {
        Some(e) => {
            if str_equals(e, "jpg") || str_equals(e, "jpeg") {
                "image/jpeg"
            } else if str_equals(e, "gif") {
                "image/gif"
            } else if str_equals(e, "webp") {
                "image/webp"
            } else if str_equals(e, "svg") {
                "image/svg+xml"
            } else {
                "image/png"
            }
        },
        None => "image/png",
    }
}

/// The data URL of an image with extension `ext` and content `data`.
pub fn image_data_url(ext: Option<&str>, data: &[u8]) -> (r: String)
    ensures
        r@ == "data:"@ + mime_of(
            match ext {
                Some(e) => Some(e@),
                None => None,
            },
        ) + ";base64,"@ + base64(data@),
{
    let mut url = String::from_str("data:");
    url.append(mime_type(ext));
    url.append(";base64,");
    let encoded = base64_encode(data);
    url.append(encoded.as_str());
    url
}

} // verus!
