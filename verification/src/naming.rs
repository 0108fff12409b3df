//! Names in camel case and in Pascal case from names with underscores.

use vstd::prelude::*;
use vstd::string::*;
use crate::text::{chars_of, split, split_fields, split_has_a_field, strings_view};

verus! {

/// The uppercase mapping of a character, which may be more than one character.
pub uninterp spec fn uppercase_of(c: char) -> Seq<char>;

/// `char::to_uppercase` of std, collected into a string: the uppercase
/// mapping of the character. The mapping is fixed by Unicode and does not
/// depend on a locale; nothing more is claimed of it here.
#[verifier::external_body]
fn to_uppercase(c: char) -> (out: String)
    ensures
        out@ == uppercase_of(c),
{
    c.to_uppercase().collect()
}

/// A word with its first character in uppercase.
pub open spec fn capitalized(s: Seq<char>) -> Seq<char> {
    if s.len() == 0 {
        s
    } else {
        uppercase_of(s[0]) + s.skip(1)
    }
}

/// The first `count` words put together, each capitalized; with `keep_first`
/// the first word stays as it is.
pub open spec fn cased(words: Seq<Seq<char>>, count: int, keep_first: bool) -> Seq<char>
    decreases count,
{
    if count <= 0 {
        Seq::empty()
    } else if count == 1 && keep_first {
        words[0]
    } else {
        cased(words, count - 1, keep_first) + capitalized(words[count - 1])
    }
}

/// The name in camel case: the words between underscores put together, each
/// but the first capitalized.
pub open spec fn camel_case_of(s: Seq<char>) -> Seq<char> {
    let words = split_fields(s, "_"@);
    cased(words, words.len() as int, true)
}

/// The name in Pascal case: the words between underscores put together, each
/// capitalized.
pub open spec fn pascal_case_of(s: Seq<char>) -> Seq<char> {
    let words = split_fields(s, "_"@);
    cased(words, words.len() as int, false)
}

/// Puts the first character of a word in uppercase.
pub fn uppercase_first(s: &str) -> (out: String)
    ensures
        out@ == capitalized(s@),
{
    let n: usize = s.unicode_len();
    if n == 0 {
        return String::from_str(s);
    }
    let mut out = to_uppercase(s.get_char(0));
    out.append(s.substring_char(1, n));
    assert(s@.subrange(1, n as int) =~= s@.skip(1));
    out
}

/// Puts words together, each capitalized, the first one only without `keep_first`.
fn join_cased(words: &Vec<String>, keep_first: bool) -> (out: String)
    ensures
        out@ == cased(strings_view(words@), words@.len() as int, keep_first),
{
    let mut out = String::new();
    let mut i: usize = 0;
    while i < words.len()
        invariant
            i <= words.len(),
            out@ == cased(strings_view(words@), i as int, keep_first),
        decreases words.len() - i,
    {
        if i == 0 && keep_first {
            out.append(words[i].as_str());
            assert(out@ =~= strings_view(words@)[0]);
        } else {
            let word = uppercase_first(words[i].as_str());
            out.append(word.as_str());
        }
        i += 1;
    }
    out
}

/// Turns a name with underscores into camel case.
pub fn to_camel_case(s: &str) -> (out: String)
    ensures
        out@ == camel_case_of(s@),
{
    let words = split(s, "_");
    join_cased(&words, true)
}

/// Turns a name with underscores into Pascal case.
pub fn to_pascal_case(s: &str) -> (out: String)
    ensures
        out@ == pascal_case_of(s@),
{
    let words = split(s, "_");
    join_cased(&words, false)
}

/// Of words put together, the first one not empty, the Pascal case is the
/// camel case with its first character in uppercase.
pub proof fn cased_capitalized(words: Seq<Seq<char>>, count: int)
    requires
        1 <= count <= words.len(),
        words[0].len() > 0,
    ensures
        cased(words, count, true).len() > 0,
        cased(words, count, false) == capitalized(cased(words, count, true)),
    decreases count,
{
    if count == 1 {
        assert(cased(words, 0, false) + capitalized(words[0]) =~= capitalized(words[0]));
    } else {
        cased_capitalized(words, count - 1);
        let head = cased(words, count - 1, true);
        let tail = capitalized(words[count - 1]);
        assert((head + tail).skip(1) =~= head.skip(1) + tail);
        assert(capitalized(head + tail) =~= capitalized(head) + tail);
    }
}

/// The Pascal case of a name is its camel case with the first character in
/// uppercase, for every name whose first word is not empty.
pub proof fn pascal_is_capitalized_camel(s: Seq<char>)
    requires
        split_fields(s, "_"@)[0].len() > 0,
    ensures
        pascal_case_of(s) == capitalized(camel_case_of(s)),
{
    split_has_a_field(s, "_"@, 0, 0);
    let words = split_fields(s, "_"@);
    cased_capitalized(words, words.len() as int);
}

/// Of words put together, the first one empty, the Pascal case is the camel
/// case.
pub proof fn cased_alike(words: Seq<Seq<char>>, count: int)
    requires
        1 <= count <= words.len(),
        words[0].len() == 0,
    ensures
        cased(words, count, false) == cased(words, count, true),
    decreases count,
{
    if count == 1 {
        assert(cased(words, 0, false) + capitalized(words[0]) =~= words[0]);
    } else {
        cased_alike(words, count - 1);
    }
}

/// The Pascal case of a name that begins with an underscore, or is empty, is
/// its camel case. It is the camel case with the first character in
/// uppercase wherever that character is its own uppercase mapping.
pub proof fn pascal_is_camel_behind_underscore(s: Seq<char>)
    requires
        split_fields(s, "_"@)[0].len() == 0,
    ensures
        pascal_case_of(s) == camel_case_of(s),
        camel_case_of(s).len() == 0 || uppercase_of(camel_case_of(s)[0]) == seq![
            camel_case_of(s)[0],
        ] ==> pascal_case_of(s) == capitalized(camel_case_of(s)),
{
    split_has_a_field(s, "_"@, 0, 0);
    let words = split_fields(s, "_"@);
    cased_alike(words, words.len() as int);
    let camel = camel_case_of(s);
    if camel.len() > 0 && uppercase_of(camel[0]) == seq![camel[0]] {
        assert(capitalized(camel) =~= camel);
    }
}

/// A package name with an underscore in place of each hyphen.
pub open spec fn underscored(s: Seq<char>) -> Seq<char> {
    s.map_values(|c: char| if c == '-' { '_' } else { c })
}

/// The name of the header that is generated for a package.
pub open spec fn header_file_name_of(package: Seq<char>) -> Seq<char> {
    underscored(package) + "-finch_bindgen.h"@
}

/// The namespace of a package in its header: the package's name with an
/// underscore in place of each hyphen.
pub fn package_namespace(package: &str) -> (out: String)
    ensures
        out@ == underscored(package@),
{
    let chars = chars_of(package);
    let mut out = String::new();
    let mut i: usize = 0;
    while i < chars.len()
        invariant
            i <= chars.len(),
            chars@ == package@,
            out@ == underscored(package@.subrange(0, i as int)),
        decreases chars.len() - i,
    {
        if chars[i] == '-' {
            proof {
                reveal_strlit("_");
            }
            out.append("_");
        } else {
            out.append(package.substring_char(i, i + 1));
        }
        i += 1;
        assert(out@ =~= underscored(package@.subrange(0, i as int)));
    }
    assert(package@.subrange(0, i as int) =~= package@);
    out
}

/// The name of the header that is generated for a package.
pub fn header_file_name(package: &str) -> (out: String)
    ensures
        out@ == header_file_name_of(package@),
{
    let mut out = package_namespace(package);
    out.append("-finch_bindgen.h");
    out
}

} // verus!
