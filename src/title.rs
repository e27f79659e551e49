use vstd::prelude::*;
use vstd::string::StrSliceExecFns;
use vstd::string::StringExecFns;
use crate::text::push_char;

verus! {

/// The characters that `char::to_uppercase` yields for `c`.
pub uninterp spec fn upper_of(c: char) -> Seq<char>;

/// Relies on `char::to_uppercase`: the uppercase mapping of one character,
/// which depends on that character alone.
#[verifier::external_body]
fn uppercase(c: char) -> (r: String)
    ensures
        r@ == upper_of(c),
{
    c.to_uppercase().collect()
}

/// Whether `c` separates the words of a theme directory name.
pub open spec fn is_separator(c: char) -> bool {
    c == '-' || c == '_'
}

/// The title of the rest `s` of a directory name, where `cap` says that the next
/// word character starts a word and `in_run` that a separator run is open.
pub open spec fn title_from(s: Seq<char>, cap: bool, in_run: bool) -> Seq<char>
    decreases s.len(),
{
    if s.len() == 0 {
        Seq::empty()
    } else {
        let c = s[0];
        let rest = s.drop_first();
        if is_separator(c) {
            if in_run {
                title_from(rest, true, true)
            } else {
                seq![' '] + title_from(rest, true, true)
            }
        } else if cap {
            upper_of(c) + title_from(rest, false, false)
        } else {
            seq![c] + title_from(rest, false, false)
        }
    }
}

/// The display title of a theme directory name: each run of `-` / `_` becomes one
/// space, and the first character of the name and after each run is uppercased.
pub open spec fn title(d: Seq<char>) -> Seq<char> {
    title_from(d, true, false)
}

/// Within a word, a name without separators is copied as it is.
proof fn lemma_title_inside_word(s: Seq<char>)
    requires
        forall|i: int| 0 <= i < s.len() ==> !is_separator(#[trigger] s[i]),
    ensures
        title_from(s, false, false) == s,
    decreases s.len(),
{
    if s.len() > 0 {
        let rest = s.drop_first();
        assert forall|i: int| 0 <= i < rest.len() implies !is_separator(#[trigger] rest[i]) by {
            assert(rest[i] == s[i + 1]);
        }
        lemma_title_inside_word(rest);
        assert(seq![s[0]] + rest =~= s);
    }
}

/// A name without `-` or `_` whose first character is already uppercase is its own
/// title, so taking the title of a title-cased, hyphen-free name changes nothing.
pub proof fn lemma_title_idempotent(d: Seq<char>)
    requires
        forall|i: int| 0 <= i < d.len() ==> !is_separator(#[trigger] d[i]),
        d.len() > 0 ==> upper_of(d[0]) == seq![d[0]],
    ensures
        title(d) == d,
        title(title(d)) == title(d),
{
    if d.len() > 0 {
        let rest = d.drop_first();
        assert forall|i: int| 0 <= i < rest.len() implies !is_separator(#[trigger] rest[i]) by {
            assert(rest[i] == d[i + 1]);
        }
        lemma_title_inside_word(rest);
        assert(seq![d[0]] + rest =~= d);
    }
}

/// Converts a theme directory name to its display title.
pub fn dir_name_to_title(dir_name: &str) -> (r: String)
    ensures
        r@ == title(dir_name@),
{
    let n = dir_name.unicode_len();
    let mut out = String::new();
    let mut cap = true;
    let mut in_run = false;
    let mut i: usize = 0;
    assert(dir_name@.subrange(0, n as int) =~= dir_name@);
    assert(out@ + title(dir_name@) =~= title(dir_name@));
    while i < n
        invariant
            n == dir_name@.len(),
            i <= n,
            out@ + title_from(dir_name@.subrange(i as int, n as int), cap, in_run)
                == title(dir_name@),
        decreases n - i,
    {
        let c = dir_name.get_char(i);
        let ghost rest = dir_name@.subrange(i as int, n as int);
        assert(rest.drop_first() =~= dir_name@.subrange(i + 1, n as int));
        assert(rest[0] == c);
        if c == '-' || c == '_' {
            if !in_run {
                push_char(&mut out, ' ');
            }
            cap = true;
            in_run = true;
        } else if cap {
            let up = uppercase(c);
            out.append(up.as_str());
            cap = false;
            in_run = false;
        } else {
            push_char(&mut out, c);
            cap = false;
            in_run = false;
        }
        proof {
            assert(out@ + title_from(dir_name@.subrange(i + 1, n as int), cap, in_run)
                =~= title(dir_name@));
        }
        i = i + 1;
    }
    assert(dir_name@.subrange(n as int, n as int) =~= Seq::<char>::empty());
    assert(out@ + Seq::<char>::empty() =~= out@);
    out
}

} // verus!
