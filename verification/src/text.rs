//! String helpers: the trusted string-equality and case-mapping primitives,
//! and the kebab-case to title-case conversion the form labels use.

use vstd::prelude::*;

verus! {

/// Relies on str's PartialEq: two string slices compare equal exactly when
/// their character sequences are equal.
#[verifier::external_body]
pub fn str_eq(a: &str, b: &str) -> (r: bool)
    ensures
        r == (a@ == b@),
{
    a == b
}

/// The uppercase mapping of a character, as char::to_uppercase yields it;
/// a function of the character alone.
pub uninterp spec fn upper_of(c: char) -> Seq<char>;

/// Relies on char::to_uppercase: yields the character's uppercase mapping
/// as one or more characters, depending on the character alone.
#[verifier::external_body]
pub(crate) fn char_upper(c: char) -> (r: Vec<char>)
    ensures
        r@ == upper_of(c),
        r@.len() >= 1,
{
    c.to_uppercase().collect()
}

/// Relies on String's FromIterator: collecting characters yields the string
/// of exactly those characters.
#[verifier::external_body]
pub(crate) fn chars_to_string(v: Vec<char>) -> (r: String)
    ensures
        r@ == v@,
{
    v.into_iter().collect()
}

/// The title form of `s`: every `'-'` becomes a space, and the character that
/// opens each `'-'`-separated part is replaced by its uppercase mapping.
/// `at_start` says whether the next character opens a part.
pub open spec fn title_chars(s: Seq<char>, at_start: bool) -> Seq<char>
    decreases s.len(),
{
    if s.len() == 0 {
        Seq::empty()
    } else if s[0] == '-' {
        seq![' '] + title_chars(s.drop_first(), true)
    } else if at_start {
        upper_of(s[0]) + title_chars(s.drop_first(), false)
    } else {
        seq![s[0]] + title_chars(s.drop_first(), false)
    }
}

/// What `kebab_to_title` produces for `s`.
pub open spec fn title_of(s: Seq<char>) -> Seq<char> {
    title_chars(s, true)
}

/// Turns a kebab-case field identifier into a title-case label:
/// each `'-'`-separated part has its first character uppercased, and the
/// parts are joined with single spaces.
pub(crate) fn title_case(s: &str) -> (r: String)
    ensures
        r@ == title_of(s@),
{
    let n: usize = s.unicode_len();
    let mut out: Vec<char> = Vec::new();
    let mut at_start: bool = true;
    let mut i: usize = 0;
    proof {
        assert(s@.subrange(0, n as int) =~= s@);
        assert(out@ + title_chars(s@, true) =~= title_chars(s@, true));
    }
    while i < n
        invariant
            n == s@.len(),
            i <= n,
            title_of(s@) == out@ + title_chars(s@.subrange(i as int, n as int), at_start),
        decreases n - i,
    {
        let c = s.get_char(i);
        proof {
            assert(s@.subrange(i as int, n as int).drop_first() =~= s@.subrange(
                i as int + 1,
                n as int,
            ));
            assert(s@.subrange(i as int, n as int)[0] == c);
        }
        if c == '-' {
            out.push(' ');
            at_start = true;
        } else if at_start {
            let mut up = char_upper(c);
            out.append(&mut up);
            at_start = false;
        } else {
            out.push(c);
            at_start = false;
        }
        i = i + 1;
    }
    proof {
        assert(s@.subrange(n as int, n as int) =~= Seq::<char>::empty());
        assert(out@ + Seq::<char>::empty() =~= out@);
    }
    chars_to_string(out)
}

} // verus!
