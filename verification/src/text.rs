//! Names: suffix tests and the case conversions that derive one name from
//! another.

use vstd::prelude::*;
use vstd::string::*;

verus! {

/// Whether `c` has the Unicode property `Uppercase`.
pub uninterp spec fn char_is_uppercase(c: char) -> bool;

/// The lowercase mapping of `c`, one or more characters.
pub uninterp spec fn char_lowercase(c: char) -> Seq<char>;

/// The uppercase mapping of `c`, one or more characters.
pub uninterp spec fn char_uppercase(c: char) -> Seq<char>;

/// `c` with an ASCII lowercase letter replaced by its uppercase form.
pub open spec fn ascii_uppercase(c: char) -> char {
    if 'a' <= c && c <= 'z' {
        ((c as u32) - 32) as char
    } else {
        c
    }
}

/// `char::is_uppercase`: the result is the Unicode property, which has a name
/// here and no definition.
#[verifier::external_body]
fn is_uppercase(c: char) -> (b: bool)
    ensures
        b == char_is_uppercase(c),
{
    c.is_uppercase()
}

/// `char::to_lowercase`, collected: the lowercase mapping of `c`, which std
/// documents as one or more characters.
#[verifier::external_body]
fn lowercase_of(c: char) -> (s: String)
    ensures
        s@ == char_lowercase(c),
        s@.len() >= 1,
{
    c.to_lowercase().collect()
}

/// `char::to_uppercase`, collected: the uppercase mapping of `c`, which std
/// documents as one or more characters.
#[verifier::external_body]
fn uppercase_of(c: char) -> (s: String)
    ensures
        s@ == char_uppercase(c),
        s@.len() >= 1,
{
    c.to_uppercase().collect()
}

/// `char::to_ascii_uppercase`: the letters `a` to `z` map to `A` to `Z`, every
/// other character to itself.
#[verifier::external_body]
fn to_ascii_uppercase(c: char) -> (r: char)
    ensures
        r == ascii_uppercase(c),
{
    c.to_ascii_uppercase()
}

/// `String::push`: appends one character.
#[verifier::external_body]
pub(crate) fn push_char(s: &mut String, c: char)
    ensures
        final(s)@ == old(s)@.push(c),
{
    s.push(c)
}

/// Whether `s` ends with `suffix`.
pub open spec fn has_suffix(s: Seq<char>, suffix: Seq<char>) -> bool {
    s.len() >= suffix.len() && s.subrange(s.len() - suffix.len(), s.len() as int) == suffix
}

/// Whether `s` starts with `prefix`.
pub open spec fn has_prefix(s: Seq<char>, prefix: Seq<char>) -> bool {
    s.len() >= prefix.len() && s.subrange(0, prefix.len() as int) == prefix
}

/// `s` without its last `n` characters.
pub open spec fn drop_last(s: Seq<char>, n: nat) -> Seq<char>
    recommends
        n <= s.len(),
{
    s.subrange(0, s.len() - n)
}

/// Compares two strings character by character.
pub fn str_eq(a: &str, b: &str) -> (r: bool)
    ensures
        r == (a@ == b@),
{
    let n: usize = a.unicode_len();
    if n != b.unicode_len() {
        return false;
    }
    let mut i: usize = 0;
    while i < n
        invariant
            i <= n,
            n == a@.len(),
            n == b@.len(),
            forall|j: int| 0 <= j < i ==> a@[j] == b@[j],
        decreases n - i,
    {
        if a.get_char(i) != b.get_char(i) {
            return false;
        }
        i += 1;
    }
    assert(a@ =~= b@);
    true
}

/// Whether `s` ends with `suffix`.
pub fn ends_with(s: &str, suffix: &str) -> (r: bool)
    ensures
        r == has_suffix(s@, suffix@),
{
    let n: usize = s.unicode_len();
    let m: usize = suffix.unicode_len();
    if n < m {
        return false;
    }
    let tail = s.substring_char(n - m, n);
    str_eq(tail, suffix)
}

/// Whether `s` starts with `prefix`.
pub fn starts_with(s: &str, prefix: &str) -> (r: bool)
    ensures
        r == has_prefix(s@, prefix@),
{
    let n: usize = s.unicode_len();
    let m: usize = prefix.unicode_len();
    if n < m {
        return false;
    }
    let head = s.substring_char(0, m);
    str_eq(head, prefix)
}

/// The text `acc` after one more character `c` of a name in Pascal case:
/// where `upper` says that `c` is uppercase, `lower` is written in its
/// place, after an underscore unless `acc` is empty or ends in one, or
/// `next_upper` says that an uppercase character follows.
pub open spec fn snake_pushed(acc: Seq<char>, c: char, upper: bool, next_upper: bool, lower: char)
    -> Seq<char> {
    if upper {
        let separated = acc.len() > 0 && acc.last() != '_' && !next_upper;
        let head = if separated {
            acc.push('_')
        } else {
            acc
        };
        head.push(lower)
    } else {
        acc.push(c)
    }
}

/// The result of one step of the snake-case conversion: `acc` is the text
/// written for the characters before position `i`.
pub open spec fn snake_step(s: Seq<char>, i: int, acc: Seq<char>) -> Seq<char> {
    snake_pushed(
        acc,
        s[i],
        char_is_uppercase(s[i]),
        i + 1 < s.len() && char_is_uppercase(s[i + 1]),
        char_lowercase(s[i])[0],
    )
}

/// The snake-case text of the first `n` characters of `s`.
pub open spec fn snake_prefix(s: Seq<char>, n: nat) -> Seq<char>
    decreases n,
{
    if n == 0 {
        Seq::empty()
    } else {
        snake_step(s, n - 1, snake_prefix(s, (n - 1) as nat))
    }
}

/// The snake-case form of a name: each uppercase character is replaced by the
/// first character of its lowercase mapping, after an underscore unless the
/// text so far is empty or ends in one, or an uppercase character follows.
pub open spec fn snake_case(s: Seq<char>) -> Seq<char> {
    snake_prefix(s, s.len())
}

/// Writes one more character of a name in Pascal case: `upper` says whether
/// it is uppercase, `next_upper` whether an uppercase character follows,
/// and `lower` is what is written for an uppercase one.
pub fn push_snake_case(result: &mut String, c: char, upper: bool, next_upper: bool, lower: char)
    ensures
        final(result)@ == snake_pushed(old(result)@, c, upper, next_upper, lower),
{
    if upper {
        let n: usize = result.as_str().unicode_len();
        let separated = n > 0 && result.as_str().get_char(n - 1) != '_' && !next_upper;
        if separated {
            push_char(result, '_');
        }
        push_char(result, lower);
    } else {
        push_char(result, c);
    }
}

/// The snake-case form of a name in Pascal case.
pub fn to_snake_case(pascal_case: &str) -> (result: String)
    ensures
        result@ == snake_case(pascal_case@),
{
    let n: usize = pascal_case.unicode_len();
    let mut result = String::new();
    let mut i: usize = 0;
    while i < n
        invariant
            i <= n,
            n == pascal_case@.len(),
            result@ == snake_prefix(pascal_case@, i as nat),
        decreases n - i,
    {
        let current = pascal_case.get_char(i);
        let upper = is_uppercase(current);
        let next_upper = i + 1 < n && is_uppercase(pascal_case.get_char(i + 1));
        let lower = if upper {
            lowercase_of(current).as_str().get_char(0)
        } else {
            current
        };
        push_snake_case(&mut result, current, upper, next_upper, lower);
        i += 1;
    }
    result
}

/// `"_role"` as a sequence.
pub open spec fn snake_role_suffix() -> Seq<char> {
    seq!['_', 'r', 'o', 'l', 'e']
}

/// The prefix that a role's name gives to its lifted functions: the name in
/// snake case, without a final `_role`.
pub open spec fn role_name(trait_name: Seq<char>) -> Seq<char> {
    let s = snake_case(trait_name);
    if has_suffix(s, snake_role_suffix()) {
        drop_last(s, 5)
    } else {
        s
    }
}

/// The prefix that the name of a role gives to its lifted functions.
pub fn to_role_name(trait_name: &str) -> (result: String)
    ensures
        result@ == role_name(trait_name@),
{
    let s = to_snake_case(trait_name);
    proof {
        reveal_strlit("_role");
        assert("_role"@ =~= snake_role_suffix());
    }
    if ends_with(s.as_str(), "_role") {
        let n: usize = s.as_str().unicode_len();
        s.as_str().substring_char(0, n - 5).to_owned()
    } else {
        s
    }
}

/// Whether a word starts at position `i` of `s`: at the beginning and after
/// each underscore.
pub open spec fn starts_word(s: Seq<char>, i: int) -> bool {
    i == 0 || s[i - 1] == '_'
}

/// The Pascal-case text of the first `n` characters of `s`.
pub open spec fn pascal_prefix(s: Seq<char>, n: nat) -> Seq<char>
    decreases n,
{
    if n == 0 {
        Seq::empty()
    } else {
        let i = n - 1;
        let acc = pascal_prefix(s, i as nat);
        if s[i] == '_' {
            acc
        } else if starts_word(s, i) {
            acc.push(ascii_uppercase(s[i]))
        } else {
            acc.push(s[i])
        }
    }
}

/// The Pascal-case form of a snake-case name: the underscores go, and the
/// first character of each word is replaced by its ASCII uppercase form.
pub open spec fn pascal_case(s: Seq<char>) -> Seq<char> {
    pascal_prefix(s, s.len())
}

/// The Pascal-case form of a snake-case name, by ASCII letters.
pub fn to_pascal_case(input: &str) -> (result: String)
    ensures
        result@ == pascal_case(input@),
{
    let n: usize = input.unicode_len();
    let mut result = String::new();
    let mut at_start = true;
    let mut i: usize = 0;
    while i < n
        invariant
            i <= n,
            n == input@.len(),
            result@ == pascal_prefix(input@, i as nat),
            at_start == starts_word(input@, i as int),
        decreases n - i,
    {
        let c = input.get_char(i);
        if c == '_' {
            at_start = true;
        } else {
            if at_start {
                push_char(&mut result, to_ascii_uppercase(c));
            } else {
                push_char(&mut result, c);
            }
            at_start = false;
        }
        i += 1;
    }
    result
}

/// The text `acc` after one more character `c` of a snake-case name: an
/// underscore is left out; at the start of a word `upper` is written in
/// place of `c`.
pub open spec fn camel_pushed(acc: Seq<char>, c: char, at_start: bool, upper: Seq<char>) -> Seq<
    char,
> {
    if c == '_' {
        acc
    } else if at_start {
        acc + upper
    } else {
        acc.push(c)
    }
}

/// The upper-camel-case text of the first `n` characters of `s`.
pub open spec fn upper_camel_prefix(s: Seq<char>, n: nat) -> Seq<char>
    decreases n,
{
    if n == 0 {
        Seq::empty()
    } else {
        let i = n - 1;
        camel_pushed(
            upper_camel_prefix(s, i as nat),
            s[i],
            starts_word(s, i),
            char_uppercase(s[i]),
        )
    }
}

/// The upper-camel-case form of a snake-case name: the underscores go, and
/// the first character of each word is replaced by its uppercase mapping.
pub open spec fn upper_camel_case(s: Seq<char>) -> Seq<char> {
    upper_camel_prefix(s, s.len())
}

/// Writes one more character of a snake-case name: `at_start` says whether
/// a word starts with it, and `upper` is what is written for it there.
pub fn push_camel_case(result: &mut String, c: char, at_start: bool, upper: &str)
    ensures
        final(result)@ == camel_pushed(old(result)@, c, at_start, upper@),
{
    if c == '_' {
    } else if at_start {
        result.append(upper);
    } else {
        push_char(result, c);
    }
}

/// The upper-camel-case form of a snake-case name.
pub fn to_upper_camel_case(input: &str) -> (result: String)
    ensures
        result@ == upper_camel_case(input@),
{
    let n: usize = input.unicode_len();
    let mut result = String::new();
    let mut at_start = true;
    let mut i: usize = 0;
    while i < n
        invariant
            i <= n,
            n == input@.len(),
            result@ == upper_camel_prefix(input@, i as nat),
            at_start == starts_word(input@, i as int),
        decreases n - i,
    {
        let c = input.get_char(i);
        let upper = if at_start && c != '_' {
            uppercase_of(c)
        } else {
            String::new()
        };
        push_camel_case(&mut result, c, at_start, upper.as_str());
        at_start = c == '_';
        i += 1;
    }
    result
}

/// The names of the types that an aggregate may hold by value.
pub open spec fn is_primitive_name(name: Seq<char>) -> bool {
    ||| name == "i32"@
    ||| name == "i64"@
    ||| name == "f32"@
    ||| name == "f64"@
    ||| name == "bool"@
    ||| name == "char"@
    ||| name == "u8"@
    ||| name == "u16"@
    ||| name == "u32"@
    ||| name == "u64"@
    ||| name == "usize"@
}

/// Whether `name` names a primitive type.
pub fn is_primitive_type(name: &str) -> (r: bool)
    ensures
        r == is_primitive_name(name@),
{
    str_eq(name, "i32") || str_eq(name, "i64") || str_eq(name, "f32") || str_eq(
        name,
        "f64",
    ) || str_eq(name, "bool") || str_eq(name, "char") || str_eq(name, "u8")
        || str_eq(name, "u16") || str_eq(name, "u32") || str_eq(name, "u64")
        || str_eq(name, "usize")
}

} // verus!
