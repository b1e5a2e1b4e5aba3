//! Identifiers derived from a declared server name, and the rule that such a
//! name must satisfy before anything is generated from it.

use vstd::prelude::*;
use crate::error::GeneratorError;
use crate::text::{chars_of, join2, owned, string_of};

verus! {

/// Whether `char::is_uppercase` holds of `c`.
pub uninterp spec fn upper(c: char) -> bool;

/// The first character of `char::to_lowercase` of `c`.
pub uninterp spec fn lower_first(c: char) -> char;

/// The first character of `char::to_uppercase` of `c`.
pub uninterp spec fn upper_first(c: char) -> char;

/// Whether `char::is_alphanumeric` holds of `c`.
pub uninterp spec fn alphanumeric(c: char) -> bool;

/// Whether `char::is_alphabetic` holds of `c`.
pub uninterp spec fn alphabetic(c: char) -> bool;

/// An ASCII lower-case letter or digit.
pub open spec fn ascii_lower_or_digit(c: char) -> bool {
    ('a' <= c && c <= 'z') || ('0' <= c && c <= '9')
}

/// An ASCII upper-case letter.
pub open spec fn ascii_upper(c: char) -> bool {
    'A' <= c && c <= 'Z'
}

/// Relies on `char::is_uppercase`: ASCII `A`..`Z` are upper-case; ASCII
/// lower-case letters and digits are not.
#[verifier::external_body]
fn is_upper(c: char) -> (r: bool)
    ensures
        r == upper(c),
        ascii_upper(c) ==> r,
        ascii_lower_or_digit(c) ==> !r,
{
    c.is_uppercase()
}

/// Relies on `char::to_lowercase`, of which the first character is kept; the
/// iterator always yields at least one. An ASCII upper-case letter maps to
/// its lower-case letter.
#[verifier::external_body]
fn to_lower(c: char) -> (r: char)
    ensures
        r == lower_first(c),
        ascii_upper(c) ==> r as u32 == c as u32 + 32,
{
    c.to_lowercase().next().unwrap_or(c)
}

/// Relies on `char::to_uppercase`, of which the first character is kept; the
/// iterator always yields at least one. An ASCII lower-case letter maps to
/// its upper-case letter; an ASCII upper-case letter or digit to itself.
#[verifier::external_body]
fn to_upper(c: char) -> (r: char)
    ensures
        r == upper_first(c),
        'a' <= c && c <= 'z' ==> r as u32 + 32 == c as u32,
        ascii_upper(c) || ('0' <= c && c <= '9') ==> r == c,
{
    c.to_uppercase().next().unwrap_or(c)
}

/// Relies on `char::is_alphanumeric`: ASCII letters and digits are; ASCII
/// punctuation and space are not.
#[verifier::external_body]
fn is_alnum(c: char) -> (r: bool)
    ensures
        r == alphanumeric(c),
        ascii_upper(c) || ascii_lower_or_digit(c) ==> r,
        c == ' ' || c == '.' || c == '-' || c == '_' || c == '/' || c == '@' ==> !r,
{
    c.is_alphanumeric()
}

/// Relies on `char::is_alphabetic`: ASCII letters are; ASCII digits and
/// punctuation are not.
#[verifier::external_body]
fn is_alpha(c: char) -> (r: bool)
    ensures
        r == alphabetic(c),
        ascii_upper(c) || ('a' <= c && c <= 'z') ==> r,
        ('0' <= c && c <= '9') || c == '-' || c == '_' ==> !r,
{
    c.is_alphabetic()
}

/// A word separator in a declared name.
pub open spec fn is_separator(c: char) -> bool {
    c == '-' || c == '_' || c == ' '
}

/// Reading `s` left to right for the lower-case form: the text produced so
/// far, and whether the last character read was upper-case.
pub open spec fn snake_scan(s: Seq<char>) -> (Seq<char>, bool)
    decreases s.len(),
{
    if s.len() == 0 {
        (Seq::empty(), false)
    } else {
        let (out, prev_upper) = snake_scan(s.drop_last());
        let c = s.last();
        if is_separator(c) {
            (out.push('_'), false)
        } else if upper(c) {
            let boundary = s.len() > 1 && !prev_upper && !(out.len() > 0 && out.last() == '_');
            let out2 = if boundary { out.push('_') } else { out };
            (out2.push(lower_first(c)), true)
        } else {
            (out.push(c), false)
        }
    }
}

/// Lower case with `_` between words: every separator becomes `_`, and an
/// upper-case letter that starts a new word (not the first character, not
/// right after another upper-case letter or a `_`) gets a `_` before it.
pub open spec fn snake_case(s: Seq<char>) -> Seq<char> {
    snake_scan(s).0
}

/// Reading `s` left to right for the upper-camel form: the text produced so
/// far, and whether the next letter starts a word.
pub open spec fn pascal_scan(s: Seq<char>) -> (Seq<char>, bool)
    decreases s.len(),
{
    if s.len() == 0 {
        (Seq::empty(), true)
    } else {
        let (out, cap) = pascal_scan(s.drop_last());
        let c = s.last();
        if is_separator(c) {
            (out, true)
        } else if cap {
            (out.push(upper_first(c)), false)
        } else {
            (out.push(c), false)
        }
    }
}

/// Upper camel case: separators are dropped and the first character of each
/// word is made upper-case; the other characters are kept as they are.
pub open spec fn pascal_case(s: Seq<char>) -> Seq<char> {
    pascal_scan(s).0
}

/// `s` with every `-` replaced by `_`.
pub open spec fn hyphens_to_underscores(s: Seq<char>) -> Seq<char> {
    Seq::new(s.len(), |i: int| if s[i] == '-' { '_' } else { s[i] })
}

/// The package identifier of a generated server.
pub open spec fn crate_name_of(name: Seq<char>) -> Seq<char> {
    hyphens_to_underscores(snake_case(name)) + "_mcp"@
}

/// The type identifier of a generated server.
pub open spec fn struct_name_of(name: Seq<char>) -> Seq<char> {
    pascal_case(name) + "Mcp"@
}

/// Converts a name to lower case with `_` between words.
pub fn to_snake_case(s: &str) -> (r: String)
    ensures
        r@ == snake_case(s@),
        (forall|i: int| 0 <= i < s@.len() ==> #[trigger] s@[i] == '_' || ascii_lower_or_digit(s@[i]))
            ==> r@ == s@,
        (forall|i: int| 0 <= i < s@.len() ==> is_separator(#[trigger] s@[i]) || ascii_lower_or_digit(s@[i]))
            ==> r@ == separators_to_underscores(s@),
{
    let cs = chars_of(s);
    let mut out: Vec<char> = Vec::new();
    let mut prev_upper = false;
    let mut i: usize = 0;
    while i < cs.len()
        invariant
            cs@ == s@,
            0 <= i <= cs.len(),
            (out@, prev_upper) == snake_scan(s@.take(i as int)),
            forall|j: int|
                0 <= j < i && ascii_lower_or_digit(#[trigger] s@[j]) ==> !upper(s@[j]),
        decreases cs.len() - i,
    {
        let c = cs[i];
        assert(s@.take(i + 1).drop_last() =~= s@.take(i as int));
        if c == '-' || c == '_' || c == ' ' {
            out.push('_');
            prev_upper = false;
        } else if is_upper(c) {
            let ends_with_sep = out.len() > 0 && out[out.len() - 1] == '_';
            if i > 0 && !prev_upper && !ends_with_sep {
                out.push('_');
            }
            out.push(to_lower(c));
            prev_upper = true;
        } else {
            out.push(c);
            prev_upper = false;
        }
        i = i + 1;
    }
    assert(s@.take(cs.len() as int) =~= s@);
    proof {
        if forall|i: int| 0 <= i < s@.len() ==> is_separator(#[trigger] s@[i]) || ascii_lower_or_digit(s@[i]) {
            assert forall|i: int| 0 <= i < s@.len() implies is_separator(#[trigger] s@[i]) || !upper(s@[i]) by {
                if !is_separator(s@[i]) {
                    assert(ascii_lower_or_digit(s@[i]));
                }
            }
            lemma_snake_case_of_lowercase(s@);
        }
        if forall|i: int| 0 <= i < s@.len() ==> #[trigger] s@[i] == '_' || ascii_lower_or_digit(s@[i]) {
            assert forall|i: int| 0 <= i < s@.len() implies #[trigger] s@[i] == '_' || (!upper(s@[i])
                && s@[i] != '-' && s@[i] != ' ') by {
                if s@[i] != '_' {
                    assert(ascii_lower_or_digit(s@[i]));
                }
            }
            lemma_snake_case_fixes_lowercase(s@);
        }
    }
    string_of(&out)
}

/// Converts a name to upper camel case.
pub fn to_pascal_case(s: &str) -> (r: String)
    ensures
        r@ == pascal_case(s@),
{
    let cs = chars_of(s);
    let mut out: Vec<char> = Vec::new();
    let mut cap = true;
    let mut i: usize = 0;
    while i < cs.len()
        invariant
            cs@ == s@,
            0 <= i <= cs.len(),
            (out@, cap) == pascal_scan(s@.take(i as int)),
        decreases cs.len() - i,
    {
        let c = cs[i];
        assert(s@.take(i + 1).drop_last() =~= s@.take(i as int));
        if c == '-' || c == '_' || c == ' ' {
            cap = true;
        } else if cap {
            out.push(to_upper(c));
            cap = false;
        } else {
            out.push(c);
        }
        i = i + 1;
    }
    assert(s@.take(cs.len() as int) =~= s@);
    string_of(&out)
}

/// Replaces every `-` by `_`.
pub fn replace_hyphens(s: &str) -> (r: String)
    ensures
        r@ == hyphens_to_underscores(s@),
{
    let cs = chars_of(s);
    let mut out: Vec<char> = Vec::new();
    let mut i: usize = 0;
    while i < cs.len()
        invariant
            cs@ == s@,
            0 <= i <= cs.len(),
            out@ == hyphens_to_underscores(s@).take(i as int),
        decreases cs.len() - i,
    {
        let c = cs[i];
        out.push(if c == '-' { '_' } else { c });
        i = i + 1;
        assert(out@ =~= hyphens_to_underscores(s@).take(i as int));
    }
    assert(out@ =~= hyphens_to_underscores(s@));
    string_of(&out)
}

/// The package identifier of the server generated under `name`
/// (`my-toolkit` gives `my_toolkit_mcp`).
pub fn crate_name(name: &str) -> (r: String)
    ensures
        r@ == crate_name_of(name@),
{
    let snake = to_snake_case(name);
    let base = replace_hyphens(snake.as_str());
    join2(base.as_str(), "_mcp")
}

/// The type identifier of the server generated under `name`
/// (`my-toolkit` gives `MyToolkitMcp`).
pub fn struct_name(name: &str) -> (r: String)
    ensures
        r@ == struct_name_of(name@),
{
    let pascal = to_pascal_case(name);
    join2(pascal.as_str(), "Mcp")
}

/// A character allowed in a declared name.
pub open spec fn name_char(c: char) -> bool {
    alphanumeric(c) || c == '-' || c == '_'
}

/// Why a declared name is refused, or `None` when it is accepted: it must be
/// non-empty, hold only letters, digits, `-` and `_`, and start with a letter.
pub open spec fn name_problem(s: Seq<char>) -> Option<Seq<char>> {
    if s.len() == 0 {
        Some("name cannot be empty"@)
    } else if exists|i: int| 0 <= i < s.len() && !name_char(#[trigger] s[i]) {
        Some("name can only contain alphanumeric characters, hyphens, and underscores"@)
    } else if !alphabetic(s[0]) {
        Some("name must start with a letter"@)
    } else {
        None
    }
}


/// A non-empty name of ASCII letters, digits, `-` and `_` that starts with
/// an ASCII letter.
pub open spec fn plain_ascii_name(s: Seq<char>) -> bool {
    &&& s.len() > 0
    &&& (ascii_upper(s[0]) || ('a' <= s[0] && s[0] <= 'z'))
    &&& forall|i: int|
        0 <= i < s.len() ==> ascii_upper(#[trigger] s[i]) || ascii_lower_or_digit(s[i]) || s[i] == '-'
            || s[i] == '_'
}

/// ASCII characters that no declared name may hold.
pub open spec fn forbidden_ascii(c: char) -> bool {
    c == ' ' || c == '.' || c == '/' || c == '@'
}

/// Checks that a declared name can seed the generated identifiers.
pub fn validate_orb_name(name: &str) -> (r: Result<(), GeneratorError>)
    ensures
        r is Ok <==> name_problem(name@) is None,
        plain_ascii_name(name@) ==> r is Ok,
        (exists|i: int| 0 <= i < name@.len() && forbidden_ascii(#[trigger] name@[i])) ==> r is Err,
        name@.len() > 0 && '0' <= name@[0] && name@[0] <= '9' ==> r is Err,
        r matches Err(GeneratorError::InvalidOrbName { name: n, reason }) ==> n@ == name@
            && Some(reason@) == name_problem(name@),
        r is Err ==> r matches Err(GeneratorError::InvalidOrbName { .. }),
{
    let cs = chars_of(name);
    if cs.len() == 0 {
        return Err(GeneratorError::InvalidOrbName {
            name: owned(name),
            reason: owned("name cannot be empty"),
        });
    }
    let mut i: usize = 0;
    while i < cs.len()
        invariant
            cs@ == name@,
            0 <= i <= cs.len(),
            forall|j: int| 0 <= j < i ==> name_char(#[trigger] name@[j]),
            forall|j: int| 0 <= j < i ==> !forbidden_ascii(#[trigger] name@[j]),
        decreases cs.len() - i,
    {
        let c = cs[i];
        if !(is_alnum(c) || c == '-' || c == '_') {
            assert(!name_char(name@[i as int]));
            return Err(GeneratorError::InvalidOrbName {
                name: owned(name),
                reason: owned(
                    "name can only contain alphanumeric characters, hyphens, and underscores",
                ),
            });
        }
        i = i + 1;
    }
    if !is_alpha(cs[0]) {
        return Err(GeneratorError::InvalidOrbName {
            name: owned(name),
            reason: owned("name must start with a letter"),
        });
    }
    Ok(())
}

/// `s` with every separator replaced by `_`.
pub open spec fn separators_to_underscores(s: Seq<char>) -> Seq<char> {
    Seq::new(s.len(), |i: int| if is_separator(s[i]) { '_' } else { s[i] })
}

/// Lemma: on a text whose characters are separators or not upper-case,
/// deriving the lower-case identifier only turns each separator into `_`.
pub proof fn lemma_snake_case_of_lowercase(s: Seq<char>)
    requires
        forall|i: int| 0 <= i < s.len() ==> is_separator(#[trigger] s[i]) || !upper(s[i]),
    ensures
        snake_case(s) == separators_to_underscores(s),
    decreases s.len(),
{
    if s.len() > 0 {
        let t = s.drop_last();
        assert forall|i: int| 0 <= i < t.len() implies is_separator(#[trigger] t[i]) || !upper(t[i]) by {
            assert(t[i] == s[i]);
        }
        lemma_snake_case_of_lowercase(t);
        assert(separators_to_underscores(s) =~= separators_to_underscores(t).push(
            if is_separator(s.last()) { '_' } else { s.last() },
        ));
    } else {
        assert(separators_to_underscores(s) =~= Seq::<char>::empty());
    }
}

/// Lemma: deriving the lower-case identifier from a text that has no
/// upper-case letter and no separator other than `_` gives the text back.
pub proof fn lemma_snake_case_fixes_lowercase(s: Seq<char>)
    requires
        forall|i: int|
            0 <= i < s.len() ==> #[trigger] s[i] == '_' || (!upper(s[i]) && s[i] != '-' && s[i] != ' '),
    ensures
        snake_case(s) == s,
{
    assert forall|i: int| 0 <= i < s.len() implies is_separator(#[trigger] s[i]) || !upper(s[i]) by {}
    lemma_snake_case_of_lowercase(s);
    assert(separators_to_underscores(s) =~= s);
}

/// Lemma: the derived identifiers depend on the declared name alone, so two
/// derivations from the same name agree.
pub proof fn lemma_derivation_deterministic(a: Seq<char>, b: Seq<char>)
    requires
        a == b,
    ensures
        snake_case(a) == snake_case(b),
        pascal_case(a) == pascal_case(b),
        crate_name_of(a) == crate_name_of(b),
        struct_name_of(a) == struct_name_of(b),
{
}

} // verus!
