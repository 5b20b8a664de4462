//! Text operations on identifiers and flag names.

use vstd::prelude::*;
use vstd::utf8::is_ascii_chars;

verus! {

broadcast use vstd::string::group_string_axioms;

/// `String::push` appends one character.
pub assume_specification[ String::push ](string: &mut String, ch: char)
    ensures
        final(string)@ == old(string)@.push(ch),
;

/// What `char::is_uppercase` reports for `c`: whether `c` has Unicode's
/// `Uppercase` property.
pub uninterp spec fn has_uppercase_property(c: char) -> bool;

/// The first character of the lowercase mapping of `c`, as the iterator of
/// `char::to_lowercase` yields it.
pub uninterp spec fn lowercase_head(c: char) -> char;

/// Whether `c` is an ASCII character.
pub open spec fn is_ascii_char(c: char) -> bool {
    '\0' <= c <= '\u{7f}'
}

/// Whether `c` is one of the ASCII uppercase letters `A` to `Z`.
pub open spec fn is_ascii_uppercase(c: char) -> bool {
    'A' <= c <= 'Z'
}

/// The ASCII lowercase of `c`: `A` to `Z` become `a` to `z`, every other
/// character stays.
pub open spec fn ascii_lowercase(c: char) -> char {
    if is_ascii_uppercase(c) {
        ((c as u32) + 32) as char
    } else {
        c
    }
}

/// Calls `char::is_uppercase`; its result is named `has_uppercase_property`.
/// Among ASCII characters exactly `A` to `Z` have the property.
#[verifier::external_body]
fn char_is_uppercase(c: char) -> (r: bool)
    ensures
        r == has_uppercase_property(c),
        is_ascii_char(c) ==> r == is_ascii_uppercase(c),
{
    c.is_uppercase()
}

/// Calls `char::to_lowercase` and takes the first character it yields; std
/// documents that the mapping yields one or more characters, so there is one.
/// For an ASCII character the mapping is its ASCII lowercase.
#[verifier::external_body]
fn char_lowercase_head(c: char) -> (r: Option<char>)
    ensures
        r == Some(lowercase_head(c)),
        is_ascii_char(c) ==> r == Some(ascii_lowercase(c)),
{
    c.to_lowercase().next()
}

/// How a character takes part in kebab-case: whether it is uppercase, and
/// the character it is written as.
pub type CharCase = (bool, char);

/// The case of every character of `s`, as std classifies it.
pub open spec fn char_cases(s: Seq<char>) -> Seq<CharCase> {
    s.map_values(|c: char| (has_uppercase_property(c), lowercase_head(c)))
}

/// The case of every character of `s` by the ASCII rules.
pub open spec fn ascii_cases(s: Seq<char>) -> Seq<CharCase> {
    s.map_values(|c: char| (is_ascii_uppercase(c), ascii_lowercase(c)))
}

/// What the character at position `index` becomes in kebab-case: its
/// lowercase form, preceded by `-` when it is uppercase and not the first.
pub open spec fn kebab_piece(case: CharCase, index: int) -> Seq<char> {
    if case.0 && index > 0 {
        seq!['-', case.1]
    } else {
        seq![case.1]
    }
}

/// Kebab-case of characters with the given cases: their pieces, in order.
pub open spec fn kebab_of_cases(cases: Seq<CharCase>) -> Seq<char>
    decreases cases.len(),
{
    if cases.len() == 0 {
        Seq::empty()
    } else {
        kebab_of_cases(cases.drop_last()) + kebab_piece(cases.last(), cases.len() - 1)
    }
}

/// Kebab-case of `s`.
pub open spec fn kebab_case(s: Seq<char>) -> Seq<char> {
    kebab_of_cases(char_cases(s))
}

/// Kebab-case of `s` by the ASCII rules; it is `kebab_case(s)` when `s` is
/// ASCII (see `to_kebab_case`).
pub open spec fn ascii_kebab_case(s: Seq<char>) -> Seq<char> {
    kebab_of_cases(ascii_cases(s))
}

/// Writes characters of the given cases in kebab-case: each one's lowercase
/// form, with a `-` before every uppercase character but the first.
pub fn kebab_from_cases(cases: &Vec<CharCase>) -> (result: String)
    ensures
        result@ == kebab_of_cases(cases@),
{
    let mut result = String::new();
    let mut i: usize = 0;
    while i < cases.len()
        invariant
            i <= cases@.len(),
            result@ == kebab_of_cases(cases@.take(i as int)),
        decreases cases.len() - i,
    {
        assert(cases@.take(i + 1).drop_last() == cases@.take(i as int));
        let (upper, lower) = cases[i];
        if upper && i > 0 {
            result.push('-');
        }
        result.push(lower);
        i = i + 1;
    }
    assert(cases@.take(i as int) == cases@);
    result
}

/// Converts a CamelCase name to kebab-case: every uppercase character after
/// the first gets a `-` before it, and every character is lowercased
/// (e.g. `DryRun` becomes `dry-run`).
pub fn to_kebab_case(s: &str) -> (result: String)
    ensures
        result@ == kebab_case(s@),
        is_ascii_chars(s@) ==> result@ == ascii_kebab_case(s@),
{
    let mut cases: Vec<CharCase> = Vec::new();
    for ch in it: s.chars()
        invariant
            it.seq() == s@,
            cases@ == char_cases(s@.take(it.index())),
            is_ascii_chars(s@) ==> cases@ == ascii_cases(s@.take(it.index())),
    {
        let upper = char_is_uppercase(ch);
        let lower = char_lowercase_head(ch).unwrap();
        assert(char_cases(s@.take(it.index() + 1)) =~= char_cases(s@.take(it.index())).push(
            (upper, lower),
        ));
        proof {
            if is_ascii_chars(s@) {
                assert(is_ascii_char(s@[it.index()]));
                assert(ascii_cases(s@.take(it.index() + 1)) =~= ascii_cases(
                    s@.take(it.index()),
                ).push((upper, lower)));
            }
        }
        cases.push((upper, lower));
    }
    assert(s@.take(s@.len() as int) == s@);
    kebab_from_cases(&cases)
}

/// No `-` is put in front of the first character: kebab-case of a non-empty
/// sequence starts with the lowercase form of its first character.
pub proof fn kebab_starts_with_first_char(cases: Seq<CharCase>)
    requires
        cases.len() > 0,
    ensures
        kebab_of_cases(cases).len() > 0,
        kebab_of_cases(cases)[0] == cases[0].1,
    decreases cases.len(),
{
    if cases.len() > 1 {
        kebab_starts_with_first_char(cases.drop_last());
        assert(cases.drop_last()[0] == cases[0]);
    } else {
        assert(kebab_of_cases(cases.drop_last()) =~= Seq::<char>::empty());
    }
}

/// Every character of the ASCII kebab-case of an ASCII name is ASCII and
/// not an uppercase letter.
pub proof fn ascii_kebab_case_is_lowercase_ascii(s: Seq<char>)
    requires
        is_ascii_chars(s),
    ensures
        forall|i: int|
            0 <= i < ascii_kebab_case(s).len() ==> is_ascii_char(#[trigger] ascii_kebab_case(s)[i])
                && !is_ascii_uppercase(ascii_kebab_case(s)[i]),
    decreases s.len(),
{
    if s.len() > 0 {
        let prefix = s.drop_last();
        assert(ascii_cases(s).drop_last() =~= ascii_cases(prefix));
        assert(is_ascii_char(s[s.len() - 1]));
        ascii_kebab_case_is_lowercase_ascii(prefix);
        let c = s.last();
        assert(is_ascii_char(ascii_lowercase(c)) && !is_ascii_uppercase(ascii_lowercase(c)));
        let out = ascii_kebab_case(s);
        let head = ascii_kebab_case(prefix);
        assert forall|i: int| 0 <= i < out.len() implies is_ascii_char(#[trigger] out[i])
            && !is_ascii_uppercase(out[i]) by {
            if i < head.len() {
                assert(out[i] == head[i]);
            }
        }
    }
}

/// A name with no ASCII uppercase letter, all ASCII, is its own ASCII
/// kebab-case.
proof fn ascii_kebab_case_fixes_lowercase(u: Seq<char>)
    requires
        forall|i: int| 0 <= i < u.len() ==> is_ascii_char(#[trigger] u[i]) && !is_ascii_uppercase(
            u[i],
        ),
    ensures
        ascii_kebab_case(u) == u,
    decreases u.len(),
{
    if u.len() > 0 {
        let prefix = u.drop_last();
        assert(ascii_cases(u).drop_last() =~= ascii_cases(prefix));
        assert forall|i: int| 0 <= i < prefix.len() implies is_ascii_char(#[trigger] prefix[i])
            && !is_ascii_uppercase(prefix[i]) by {
            assert(prefix[i] == u[i]);
        }
        ascii_kebab_case_fixes_lowercase(prefix);
        assert(!is_ascii_uppercase(u[u.len() - 1]));
        assert(ascii_kebab_case(u) =~= u);
    } else {
        assert(ascii_kebab_case(u) =~= u);
    }
}

/// Kebab-case is idempotent on ASCII names: converting its result again
/// changes nothing. With `to_kebab_case`'s contract this gives
/// `to_kebab_case(to_kebab_case(s)) == to_kebab_case(s)` for ASCII `s`.
pub proof fn ascii_kebab_case_is_idempotent(s: Seq<char>)
    requires
        is_ascii_chars(s),
    ensures
        is_ascii_chars(ascii_kebab_case(s)),
        ascii_kebab_case(ascii_kebab_case(s)) == ascii_kebab_case(s),
{
    ascii_kebab_case_is_lowercase_ascii(s);
    let t = ascii_kebab_case(s);
    assert forall|i: int| 0 <= i < t.len() implies '\0' <= #[trigger] t[i] <= '\u{7f}' by {
        assert(is_ascii_char(t[i]));
    }
    ascii_kebab_case_fixes_lowercase(t);
}

/// Every `-` of `s` replaced by `_`.
pub open spec fn underscored(s: Seq<char>) -> Seq<char> {
    s.map_values(|c: char| if c == '-' { '_' } else { c })
}

/// Replaces every `-` of `s` by `_` (a flag name made into a field name).
pub fn dashes_to_underscores(s: &str) -> (result: String)
    ensures
        result@ == underscored(s@),
        result@.len() == s@.len(),
        forall|i: int|
            0 <= i < s@.len() ==> #[trigger] result@[i] == (if s@[i] == '-' {
                '_'
            } else {
                s@[i]
            }),
{
    let mut result = String::new();
    for ch in it: s.chars()
        invariant
            it.seq() == s@,
            result@ == underscored(s@.take(it.index())),
    {
        assert(underscored(s@.take(it.index() + 1)) =~= underscored(s@.take(it.index())).push(
            if ch == '-' { '_' } else { ch },
        ));
        if ch == '-' {
            result.push('_');
        } else {
            result.push(ch);
        }
    }
    assert(s@.take(s@.len() as int) == s@);
    result
}

/// `a` followed by `b`.
pub fn concat_str(a: &str, b: &str) -> (result: String)
    ensures
        result@ == a@ + b@,
{
    let mut result = String::from_str(a);
    result.append(b);
    result
}

} // verus!
