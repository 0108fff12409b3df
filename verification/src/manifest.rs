//! How deep a manifest nests, measured over its characters as a TOML reader
//! divides them: comments and quoted strings are passed over, brackets and
//! braces open and close levels, and dots divide the parts of keys.

use vstd::prelude::*;
use crate::text::chars_of;

verus! {

/// Where a reader of TOML stands between two characters.
#[derive(Clone, Copy, Debug, PartialEq, Eq, Structural)]
pub enum Lex {
    /// Outside comments and strings.
    Plain,
    /// In a comment, which ends with its line.
    Comment,
    /// Behind one quote that opens a string.
    Opened { basic: bool },
    /// Behind two quotes: an empty string, or two thirds of the opening of a
    /// string of several lines.
    OpenedTwice { basic: bool },
    /// In a string of one line.
    Single { basic: bool },
    /// Behind a backslash in a basic string of one line.
    SingleEscape,
    /// In a string of several lines, behind `quotes` quotes in a row.
    Multi { basic: bool, quotes: u8 },
    /// Behind a backslash in a basic string of several lines.
    MultiEscape,
    /// Behind the three quotes that close a string of several lines and
    /// `extra` more, of which up to two still belong to the string.
    Closed { basic: bool, extra: u8 },
}

/// The quote of a basic string, or that of a literal one.
pub open spec fn quote_of(basic: bool) -> char {
    if basic {
        '"'
    } else {
        '\''
    }
}

/// The character is read outside comments and strings.
pub open spec fn read_plain(lex: Lex, c: char) -> bool {
    match lex {
        Lex::Plain => true,
        Lex::OpenedTwice { basic } => c != quote_of(basic),
        Lex::Closed { basic, extra } => extra >= 2 || c != quote_of(basic),
        _ => false,
    }
}

/// Where the reader stands behind a character in a string of one line: a
/// quote ends the string, a backslash in a basic string takes the next
/// character with it, and no string of one line goes beyond its line.
pub open spec fn in_single(basic: bool, c: char) -> Lex {
    if c == quote_of(basic) || c == '\n' {
        Lex::Plain
    } else if basic && c == '\\' {
        Lex::SingleEscape
    } else {
        Lex::Single { basic }
    }
}

/// Where the reader stands behind the character `c`.
pub open spec fn lex_after(lex: Lex, c: char) -> Lex {
    if read_plain(lex, c) {
        if c == '#' {
            Lex::Comment
        } else if c == '"' {
            Lex::Opened { basic: true }
        } else if c == '\'' {
            Lex::Opened { basic: false }
        } else {
            Lex::Plain
        }
    } else {
        match lex {
            Lex::Comment => if c == '\n' {
                Lex::Plain
            } else {
                Lex::Comment
            },
            Lex::Opened { basic } => if c == quote_of(basic) {
                Lex::OpenedTwice { basic }
            } else {
                in_single(basic, c)
            },
            Lex::OpenedTwice { basic } => Lex::Multi { basic, quotes: 0 },
            Lex::Single { basic } => in_single(basic, c),
            Lex::SingleEscape => Lex::Single { basic: true },
            Lex::Multi { basic, quotes } => if c == quote_of(basic) {
                if quotes == 0 {
                    Lex::Multi { basic, quotes: 1 }
                } else if quotes == 1 {
                    Lex::Multi { basic, quotes: 2 }
                } else {
                    Lex::Closed { basic, extra: 0 }
                }
            } else if basic && c == '\\' {
                Lex::MultiEscape
            } else {
                Lex::Multi { basic, quotes: 0 }
            },
            Lex::MultiEscape => Lex::Multi { basic: true, quotes: 0 },
            Lex::Closed { basic, extra } => if extra == 0 {
                Lex::Closed { basic, extra: 1 }
            } else {
                Lex::Closed { basic, extra: 2 }
            },
            Lex::Plain => Lex::Plain,
        }
    }
}

/// One open bracket or brace.
pub struct Level {
    /// A brace, which holds keys and values; else a bracket.
    pub table: bool,
    /// The dots on the way down to it: those of the keys whose values
    /// enclose it.
    pub outer: nat,
}

/// What a reader has counted up to some character.
pub struct Scan {
    pub lex: Lex,
    /// The brackets and braces that are open, the outermost first.
    pub levels: Seq<Level>,
    /// The dots on the way down to this place: those of the keys whose
    /// values enclose it, and those of the key or header that is being read.
    pub path: nat,
    /// A key or a header is being read, not a value.
    pub in_key: bool,
    /// The largest sum so far of the open levels and the dots on the way.
    pub peak: nat,
}

/// The count before the first character.
pub open spec fn scan_start() -> Scan {
    Scan { lex: Lex::Plain, levels: Seq::empty(), path: 0, in_key: true, peak: 0 }
}

/// The larger of two numbers.
pub open spec fn larger(a: nat, b: nat) -> nat {
    if a >= b {
        a
    } else {
        b
    }
}

/// The character is read as a part of the document's structure: outside
/// comments and strings, or as the end of the line that ends a comment.
pub open spec fn read_structure(lex: Lex, c: char) -> bool {
    read_plain(lex, c) || (lex == Lex::Comment && c == '\n')
}

/// The count behind the character `c`. Only a character of the structure
/// counts. A bracket or a brace opens a level and a closing one ends it; a
/// dot counts in a key or a header, not in a value; an equals sign begins a
/// value; a comma begins the next key of an inline table or the next value
/// of an array; the end of a line outside every level ends the statement.
pub open spec fn scan_step(s: Scan, c: char) -> Scan {
    let lex = lex_after(s.lex, c);
    if !read_structure(s.lex, c) {
        Scan { lex, ..s }
    } else if c == '[' || c == '{' {
        Scan {
            lex,
            levels: s.levels.push(Level { table: c == '{', outer: s.path }),
            path: s.path,
            in_key: s.in_key || c == '{',
            peak: larger(s.peak, s.levels.len() + 1 + s.path),
        }
    } else if c == ']' || c == '}' {
        if s.levels.len() == 0 {
            Scan { lex, in_key: false, ..s }
        } else {
            Scan {
                lex,
                levels: s.levels.drop_last(),
                path: s.levels.last().outer,
                in_key: false,
                peak: s.peak,
            }
        }
    } else if c == '.' {
        if s.in_key {
            Scan { lex, path: s.path + 1, peak: larger(s.peak, s.levels.len() + s.path + 1), ..s }
        } else {
            Scan { lex, ..s }
        }
    } else if c == '=' {
        Scan { lex, in_key: false, ..s }
    } else if c == ',' {
        if s.levels.len() == 0 {
            Scan { lex, ..s }
        } else {
            Scan { lex, path: s.levels.last().outer, in_key: s.levels.last().table, ..s }
        }
    } else if c == '\n' && s.levels.len() == 0 {
        Scan { lex, path: 0, in_key: true, ..s }
    } else {
        Scan { lex, ..s }
    }
}

/// The count behind the last character of a text.
pub open spec fn scan(text: Seq<char>) -> Scan
    decreases text.len(),
{
    if text.len() == 0 {
        scan_start()
    } else {
        scan_step(scan(text.drop_last()), text.last())
    }
}

/// How deep a text nests: the largest number, at any place of the text, of
/// open brackets and braces together with the dots of the keys on the way
/// down to that place.
pub open spec fn nesting_of(text: Seq<char>) -> nat {
    scan(text).peak
}

/// The most that a text handed to the TOML parser may nest.
pub const MAX_NESTING: usize = 200;

/// Tells whether the character is read outside comments and strings.
pub fn reads_plain(lex: Lex, c: char) -> (out: bool)
    ensures
        out == read_plain(lex, c),
{
    match lex {
        Lex::Plain => true,
        Lex::OpenedTwice { basic } => if basic {
            c != '"'
        } else {
            c != '\''
        },
        Lex::Closed { basic, extra } => extra >= 2 || if basic {
            c != '"'
        } else {
            c != '\''
        },
        _ => false,
    }
}

/// Tells where the reader stands behind a character in a string of one line.
fn single_after(basic: bool, c: char) -> (out: Lex)
    ensures
        out == in_single(basic, c),
{
    let quote = if basic {
        '"'
    } else {
        '\''
    };
    if c == quote || c == '\n' {
        Lex::Plain
    } else if basic && c == '\\' {
        Lex::SingleEscape
    } else {
        Lex::Single { basic }
    }
}

/// Tells where the reader stands behind the character `c`.
pub fn advance(lex: Lex, c: char) -> (out: Lex)
    ensures
        out == lex_after(lex, c),
{
    if reads_plain(lex, c) {
        if c == '#' {
            Lex::Comment
        } else if c == '"' {
            Lex::Opened { basic: true }
        } else if c == '\'' {
            Lex::Opened { basic: false }
        } else {
            Lex::Plain
        }
    } else {
        match lex {
            Lex::Comment => if c == '\n' {
                Lex::Plain
            } else {
                Lex::Comment
            },
            Lex::Opened { basic } => {
                let quote = if basic {
                    '"'
                } else {
                    '\''
                };
                if c == quote {
                    Lex::OpenedTwice { basic }
                } else {
                    single_after(basic, c)
                }
            },
            Lex::OpenedTwice { basic } => Lex::Multi { basic, quotes: 0 },
            Lex::Single { basic } => single_after(basic, c),
            Lex::SingleEscape => Lex::Single { basic: true },
            Lex::Multi { basic, quotes } => {
                let quote = if basic {
                    '"'
                } else {
                    '\''
                };
                if c == quote {
                    if quotes == 0 {
                        Lex::Multi { basic, quotes: 1 }
                    } else if quotes == 1 {
                        Lex::Multi { basic, quotes: 2 }
                    } else {
                        Lex::Closed { basic, extra: 0 }
                    }
                } else if basic && c == '\\' {
                    Lex::MultiEscape
                } else {
                    Lex::Multi { basic, quotes: 0 }
                }
            },
            Lex::MultiEscape => Lex::Multi { basic: true, quotes: 0 },
            Lex::Closed { basic, extra } => if extra == 0 {
                Lex::Closed { basic, extra: 1 }
            } else {
                Lex::Closed { basic, extra: 2 }
            },
            Lex::Plain => Lex::Plain,
        }
    }
}

/// One open bracket or brace, as the measuring keeps it.
pub struct OpenLevel {
    pub table: bool,
    pub outer: usize,
}

/// The levels as the count has them.
pub open spec fn levels_view(v: Seq<OpenLevel>) -> Seq<Level> {
    v.map_values(|l: OpenLevel| Level { table: l.table, outer: l.outer as nat })
}

/// Measures how deep a text nests.
pub fn measure_nesting(text: &str) -> (out: usize)
    ensures
        out == nesting_of(text@),
{
    let chars = chars_of(text);
    let mut lex = Lex::Plain;
    let mut levels: Vec<OpenLevel> = Vec::new();
    let mut path: usize = 0;
    let mut in_key = true;
    let mut peak: usize = 0;
    let mut i: usize = 0;
    assert(levels_view(levels@) =~= Seq::empty());
    while i < chars.len()
        invariant
            i <= chars.len(),
            chars@ == text@,
            levels@.len() + path <= i,
            forall|j: int| 0 <= j < levels@.len() ==> j + (#[trigger] levels@[j]).outer + 1 <= i,
            peak <= i,
            scan(text@.subrange(0, i as int)) == (Scan {
                lex,
                levels: levels_view(levels@),
                path: path as nat,
                in_key,
                peak: peak as nat,
            }),
        decreases chars.len() - i,
    {
        let c = chars[i];
        let ghost before = levels@;
        assert(text@.subrange(0, i + 1).drop_last() =~= text@.subrange(0, i as int));
        let structure = reads_plain(lex, c) || (lex == Lex::Comment && c == '\n');
        if structure {
            if c == '[' || c == '{' {
                levels.push(OpenLevel { table: c == '{', outer: path });
                assert(levels_view(levels@) =~= levels_view(before).push(
                    Level { table: c == '{', outer: path as nat },
                ));
                in_key = in_key || c == '{';
                if levels.len() + path > peak {
                    peak = levels.len() + path;
                }
            } else if c == ']' || c == '}' {
                in_key = false;
                match levels.pop() {
                    Some(level) => {
                        assert(levels_view(levels@) =~= levels_view(before).drop_last());
                        assert(levels_view(before).last().outer == level.outer);
                        path = level.outer;
                    },
                    None => {},
                }
            } else if c == '.' {
                if in_key {
                    path += 1;
                    if levels.len() + path > peak {
                        peak = levels.len() + path;
                    }
                }
            } else if c == '=' {
                in_key = false;
            } else if c == ',' {
                if levels.len() > 0 {
                    let last = &levels[levels.len() - 1];
                    assert(levels_view(before).last().outer == last.outer);
                    path = last.outer;
                    in_key = last.table;
                }
            } else if c == '\n' && levels.len() == 0 {
                path = 0;
                in_key = true;
            }
        }
        lex = advance(lex, c);
        i += 1;
    }
    assert(text@.subrange(0, i as int) =~= text@);
    peak
}

} // verus!
