use vstd::prelude::*;
use vstd::string::StrSliceExecFns;
use vstd::string::StringExecFns;
use crate::text::push_char;

verus! {

/// What `char::is_alphanumeric` says of `c`.
pub uninterp spec fn alphanumeric(c: char) -> bool;

/// The characters that `char::to_lowercase` yields for `c`.
pub uninterp spec fn lower_char(c: char) -> Seq<char>;

/// Relies on `char::is_alphanumeric`: whether `c` is a Unicode letter or number.
#[verifier::external_body]
fn is_alphanumeric(c: char) -> (r: bool)
    ensures
        r == alphanumeric(c),
{
    c.is_alphanumeric()
}

/// Relies on `char::to_lowercase`: the lowercase mapping of one character.
#[verifier::external_body]
fn lowercase_char(c: char) -> (r: String)
    ensures
        r@ == lower_char(c),
{
    c.to_lowercase().collect()
}

/// What one character of a theme name becomes in its directory name: a space a
/// hyphen, a letter, number, `-` or `_` its lowercase form, anything else nothing.
pub open spec fn sanitized_char(c: char) -> Seq<char> {
    if c == ' ' {
        seq!['-']
    } else if alphanumeric(c) || c == '-' || c == '_' {
        lower_char(c)
    } else {
        Seq::empty()
    }
}

/// The directory name of the theme named `s`.
pub open spec fn sanitized(s: Seq<char>) -> Seq<char>
    decreases s.len(),
{
    if s.len() == 0 {
        Seq::empty()
    } else {
        sanitized(s.drop_last()) + sanitized_char(s.last())
    }
}

/// Naming rules of custom themes.
pub struct CustomThemeService;

impl CustomThemeService {
    /// Turns a theme name into the name of its directory.
    pub fn sanitize_name(name: &str) -> (r: String)
        ensures
            r@ == sanitized(name@),
    {
        let n = name.unicode_len();
        let mut out = String::new();
        let mut i: usize = 0;
        while i < n
            invariant
                n == name@.len(),
                i <= n,
                out@ == sanitized(name@.take(i as int)),
            decreases n - i,
        {
            let c = name.get_char(i);
            let ghost before = out@;
            if c == ' ' {
                push_char(&mut out, '-');
            } else if is_alphanumeric(c) || c == '-' || c == '_' {
                let l = lowercase_char(c);
                out.append(l.as_str());
            }
            proof {
                let next = name@.take(i + 1);
                assert(next.drop_last() =~= name@.take(i as int));
                assert(next.last() == c);
                assert(out@ =~= before + sanitized_char(c));
            }
            i = i + 1;
        }
        assert(name@.take(n as int) =~= name@);
        out
    }
}

} // verus!
