//! Character-level string helpers: pattern tests and field splitting.

use vstd::prelude::*;
use vstd::string::*;

verus! {

/// The views of a sequence of strings.
pub open spec fn strings_view(v: Seq<String>) -> Seq<Seq<char>> {
    v.map_values(|s: String| s@)
}

/// The view of an optional string.
pub open spec fn opt_view(o: Option<String>) -> Option<Seq<char>> {
    match o {
        Some(s) => Some(s@),
        None => None,
    }
}

/// `pat` stands in `s` at position `at`.
pub open spec fn occurs_at(s: Seq<char>, pat: Seq<char>, at: int) -> bool {
    0 <= at && at + pat.len() <= s.len() && s.subrange(at, at + pat.len()) == pat
}

/// `s` begins with `pat`.
pub open spec fn has_prefix(s: Seq<char>, pat: Seq<char>) -> bool {
    occurs_at(s, pat, 0)
}

/// The fields of `s` from `start` on, where no delimiter begins in `start..pos`:
/// the leftmost occurrence of `delim` at or after `pos` ends the current field,
/// and the scan goes on behind it.
pub open spec fn fields_from(s: Seq<char>, delim: Seq<char>, start: int, pos: int) -> Seq<
    Seq<char>,
>
    decreases s.len() - pos,
{
    if delim.len() == 0 || pos + delim.len() > s.len() {
        seq![s.subrange(start, s.len() as int)]
    } else if occurs_at(s, delim, pos) {
        seq![s.subrange(start, pos)] + fields_from(
            s,
            delim,
            pos + delim.len(),
            pos + delim.len(),
        )
    } else {
        fields_from(s, delim, start, pos + 1)
    }
}

/// The fields of `s` between the leftmost, non-overlapping occurrences of
/// `delim`. An empty delimiter divides nothing.
pub open spec fn split_fields(s: Seq<char>, delim: Seq<char>) -> Seq<Seq<char>> {
    fields_from(s, delim, 0, 0)
}

/// A split has at least one field.
pub proof fn split_has_a_field(s: Seq<char>, delim: Seq<char>, start: int, pos: int)
    ensures
        fields_from(s, delim, start, pos).len() >= 1,
    decreases s.len() - pos,
{
    if delim.len() == 0 || pos + delim.len() > s.len() {
    } else if occurs_at(s, delim, pos) {
    } else {
        split_has_a_field(s, delim, start, pos + 1);
    }
}

/// No occurrence of `delim` begins inside `part` where `delim` follows it:
/// `part` can stand as a field before a delimiter.
pub open spec fn free_of(part: Seq<char>, delim: Seq<char>) -> bool {
    forall|i: int| 0 <= i < part.len() ==> !occurs_at(part + delim, delim, i)
}

/// The fields joined with `delim` between them.
pub open spec fn joined(fields: Seq<Seq<char>>, delim: Seq<char>) -> Seq<char>
    decreases fields.len(),
{
    if fields.len() == 0 {
        Seq::empty()
    } else if fields.len() == 1 {
        fields[0]
    } else {
        fields[0] + delim + joined(fields.skip(1), delim)
    }
}

/// The fields of a text behind a prefix are those of the text alone, where
/// the scan begins behind the prefix.
pub proof fn fields_behind_prefix(
    pre: Seq<char>,
    rest: Seq<char>,
    delim: Seq<char>,
    start: int,
    pos: int,
)
    requires
        0 <= start <= pos <= rest.len(),
    ensures
        fields_from(pre + rest, delim, pre.len() + start, pre.len() + pos) == fields_from(
            rest,
            delim,
            start,
            pos,
        ),
    decreases rest.len() - pos,
{
    let s = pre + rest;
    let p = pre.len() + pos;
    assert(s.subrange(pre.len() + start, s.len() as int) =~= rest.subrange(
        start,
        rest.len() as int,
    ));
    if delim.len() == 0 || pos + delim.len() > rest.len() {
    } else {
        assert(s.subrange(p, p + delim.len()) =~= rest.subrange(pos, pos + delim.len()));
        assert(s.subrange(pre.len() + start, p) =~= rest.subrange(start, pos));
        if occurs_at(rest, delim, pos) {
            fields_behind_prefix(pre, rest, delim, pos + delim.len(), pos + delim.len());
        } else {
            fields_behind_prefix(pre, rest, delim, start, pos + 1);
        }
    }
}

/// The scan of a field that is free of the delimiter, with the delimiter
/// behind it, finds the field first and goes on behind the delimiter.
pub proof fn first_field_found(a: Seq<char>, delim: Seq<char>, rest: Seq<char>, pos: int)
    requires
        delim.len() > 0,
        free_of(a, delim),
        0 <= pos <= a.len(),
    ensures
        fields_from(a + delim + rest, delim, 0, pos) == seq![a] + fields_from(
            a + delim + rest,
            delim,
            (a.len() + delim.len()) as int,
            (a.len() + delim.len()) as int,
        ),
    decreases a.len() - pos,
{
    let s = a + delim + rest;
    assert(s.subrange(pos, pos + delim.len()) =~= (a + delim).subrange(pos, pos + delim.len()));
    if pos == a.len() {
        assert((a + delim).subrange(pos, pos + delim.len()) =~= delim);
        assert(s.subrange(0, pos) =~= a);
    } else {
        assert(!occurs_at(a + delim, delim, pos));
        first_field_found(a, delim, rest, pos + 1);
    }
}

/// Splitting a field that is free of the delimiter, the delimiter and a
/// rest gives the field and then the fields of the rest.
pub proof fn split_of_joined(a: Seq<char>, delim: Seq<char>, rest: Seq<char>)
    requires
        delim.len() > 0,
        free_of(a, delim),
    ensures
        split_fields(a + delim + rest, delim) == seq![a] + split_fields(rest, delim),
{
    first_field_found(a, delim, rest, 0);
    fields_behind_prefix(a + delim, rest, delim, 0, 0);
}

/// Splitting a field that is free of the delimiter gives that field alone.
pub proof fn split_of_one(a: Seq<char>, delim: Seq<char>, pos: int)
    requires
        delim.len() > 0,
        free_of(a, delim),
        0 <= pos <= a.len(),
    ensures
        fields_from(a, delim, 0, pos) == seq![a],
    decreases a.len() - pos,
{
    assert(a.subrange(0, a.len() as int) =~= a);
    if pos + delim.len() <= a.len() {
        assert(a.subrange(pos, pos + delim.len()) =~= (a + delim).subrange(
            pos,
            pos + delim.len(),
        ));
        assert(!occurs_at(a + delim, delim, pos));
        split_of_one(a, delim, pos + 1);
    }
}

/// Splitting what was joined gives the fields back, where each field is free
/// of the delimiter.
pub proof fn split_of_all_joined(fields: Seq<Seq<char>>, delim: Seq<char>)
    requires
        delim.len() > 0,
        fields.len() >= 1,
        forall|i: int| 0 <= i < fields.len() ==> free_of(#[trigger] fields[i], delim),
    ensures
        split_fields(joined(fields, delim), delim) == fields,
    decreases fields.len(),
{
    if fields.len() == 1 {
        split_of_one(fields[0], delim, 0);
        assert(seq![fields[0]] =~= fields);
    } else {
        let rest = fields.skip(1);
        assert forall|i: int| 0 <= i < rest.len() implies free_of(#[trigger] rest[i], delim) by {
            assert(rest[i] == fields[i + 1]);
        }
        split_of_all_joined(rest, delim);
        split_of_joined(fields[0], delim, joined(rest, delim));
        assert(seq![fields[0]] + rest =~= fields);
    }
}

/// The characters of a string slice.
pub fn chars_of(s: &str) -> (out: Vec<char>)
    ensures
        out@ == s@,
{
    let mut out: Vec<char> = Vec::new();
    for c in it: s.chars()
        invariant
            it.seq() == s@,
            out@ == s@.subrange(0, it.index() as int),
    {
        out.push(c);
        assert(out@ =~= s@.subrange(0, it.index() + 1));
    }
    assert(out@ =~= s@);
    out
}

/// Tests whether `pat` stands in `s` at position `at`.
pub fn matches_at(s: &Vec<char>, pat: &Vec<char>, at: usize) -> (r: bool)
    ensures
        r == occurs_at(s@, pat@, at as int),
{
    if pat.len() > s.len() || at > s.len() - pat.len() {
        return false;
    }
    let mut k: usize = 0;
    while k < pat.len()
        invariant
            k <= pat.len(),
            at + pat.len() <= s.len(),
            forall|j: int| 0 <= j < k ==> s@[at + j] == pat@[j],
        decreases pat.len() - k,
    {
        if s[at + k] != pat[k] {
            assert(s@.subrange(at as int, at + pat.len())[k as int] == s@[at + k]);
            return false;
        }
        k += 1;
    }
    assert(s@.subrange(at as int, at + pat.len()) =~= pat@);
    true
}

/// Tests whether `s` begins with `pat`.
pub fn starts_with(s: &str, pat: &str) -> (r: bool)
    ensures
        r == has_prefix(s@, pat@),
{
    let sc = chars_of(s);
    let pc = chars_of(pat);
    matches_at(&sc, &pc, 0)
}

/// Tests whether two string slices hold the same characters.
pub fn str_eq(a: &str, b: &str) -> (r: bool)
    ensures
        r == (a@ == b@),
{
    let ac = chars_of(a);
    let bc = chars_of(b);
    if ac.len() != bc.len() {
        return false;
    }
    let r = matches_at(&ac, &bc, 0);
    assert(ac@.subrange(0, ac@.len() as int) =~= ac@);
    r
}

/// Splits `s` at each occurrence of `delim`, leftmost first.
pub fn split(s: &str, delim: &str) -> (fields: Vec<String>)
    ensures
        strings_view(fields@) == split_fields(s@, delim@),
{
    let sc = chars_of(s);
    let dc = chars_of(delim);
    let n: usize = sc.len();
    let m: usize = dc.len();
    let mut fields: Vec<String> = Vec::new();
    let mut start: usize = 0;
    let mut pos: usize = 0;
    assert(strings_view(fields@) + fields_from(s@, delim@, 0, 0) =~= split_fields(s@, delim@));
    while 0 < m && m <= n && pos <= n - m
        invariant
            start <= pos <= n,
            n == s@.len(),
            m == delim@.len(),
            sc@ == s@,
            dc@ == delim@,
            strings_view(fields@) + fields_from(s@, delim@, start as int, pos as int)
                == split_fields(s@, delim@),
        decreases n - pos,
    {
        if matches_at(&sc, &dc, pos) {
            let piece = String::from_str(s.substring_char(start, pos));
            let ghost before = fields@;
            fields.push(piece);
            assert(strings_view(fields@) =~= strings_view(before).push(piece@));
            assert(strings_view(fields@) + fields_from(
                s@,
                delim@,
                pos + m as int,
                pos + m as int,
            ) =~= strings_view(before) + fields_from(s@, delim@, start as int, pos as int));
            pos = pos + m;
            start = pos;
        } else {
            pos = pos + 1;
        }
    }
    let piece = String::from_str(s.substring_char(start, n));
    let ghost before = fields@;
    fields.push(piece);
    assert(strings_view(fields@) =~= strings_view(before).push(piece@));
    assert(strings_view(fields@) =~= strings_view(before) + fields_from(
        s@,
        delim@,
        start as int,
        pos as int,
    ));
    fields
}

} // verus!
