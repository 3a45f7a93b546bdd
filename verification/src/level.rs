//! Log levels: parsing from user text and the upper-case display names.

use vstd::prelude::*;

verus! {

/// Log level for stored entries.
#[derive(Debug, Clone, Copy, PartialEq, Eq, Structural)]
pub enum Level {
    Trace,
    Debug,
    Info,
    Warn,
    Error,
}

/// The character code of `c` after ASCII lower-casing: `A`..=`Z` map to
/// `a`..=`z`, every other character is kept.
pub open spec fn ascii_lower(c: char) -> int {
    if 'A' <= c && c <= 'Z' {
        c as int + 32
    } else {
        c as int
    }
}

/// `s` and `t` are equal once ASCII letters are lower-cased.
pub open spec fn eq_ignore_ascii_case(s: Seq<char>, t: Seq<char>) -> bool {
    &&& s.len() == t.len()
    &&& forall|i: int| 0 <= i < s.len() ==> #[trigger] ascii_lower(s[i]) == ascii_lower(t[i])
}

/// The level that a piece of text names, compared without regard to case;
/// text that names no level gives `Info`.
pub open spec fn spec_level_from(s: Seq<char>) -> Level {
    if eq_ignore_ascii_case(s, "trace"@) {
        Level::Trace
    } else if eq_ignore_ascii_case(s, "debug"@) {
        Level::Debug
    } else if eq_ignore_ascii_case(s, "info"@) {
        Level::Info
    } else if eq_ignore_ascii_case(s, "warn"@) {
        Level::Warn
    } else if eq_ignore_ascii_case(s, "error"@) {
        Level::Error
    } else {
        Level::Info
    }
}

/// The upper-case name under which a level is displayed.
pub open spec fn display_name(l: Level) -> Seq<char> {
    match l {
        Level::Trace => "TRACE"@,
        Level::Debug => "DEBUG"@,
        Level::Info => "INFO"@,
        Level::Warn => "WARN"@,
        Level::Error => "ERROR"@,
    }
}

fn lower_code(c: char) -> (r: u32)
    ensures
        r as int == ascii_lower(c),
{
    let n: u32 = c as u32;
    if 'A' <= c && c <= 'Z' {
        n + 32
    } else {
        n
    }
}

/// Whether `s` and `word` are equal once ASCII letters are lower-cased.
fn matches_ignore_ascii_case(s: &str, word: &str) -> (r: bool)
    ensures
        r == eq_ignore_ascii_case(s@, word@),
{
    let n: usize = s.unicode_len();
    if n != word.unicode_len() {
        return false;
    }
    let mut i: usize = 0;
    while i < n
        invariant
            n == s@.len(),
            n == word@.len(),
            i <= n,
            forall|j: int| 0 <= j < i ==> #[trigger] ascii_lower(s@[j]) == ascii_lower(word@[j]),
        decreases n - i,
    {
        if lower_code(s.get_char(i)) != lower_code(word.get_char(i)) {
            return false;
        }
        i = i + 1;
    }
    true
}

impl<'a> From<&'a str> for Level {
    /// Parses a level name without regard to ASCII case; any other text
    /// gives `Info`.
    ///
    /// (Lower-casing by Unicode rules, then comparing, decides the same for
    /// these five words: the only characters outside ASCII whose lower-case
    /// form holds an ASCII letter are the Kelvin sign, which becomes `k`, and
    /// dotted capital I, which becomes `i` followed by a combining dot; no
    /// level name holds a `k`, and the combining dot matches nothing.)
    fn from(s: &'a str) -> (l: Level) {
        if matches_ignore_ascii_case(s, "trace") {
            Level::Trace
        } else if matches_ignore_ascii_case(s, "debug") {
            Level::Debug
        } else if matches_ignore_ascii_case(s, "info") {
            Level::Info
        } else if matches_ignore_ascii_case(s, "warn") {
            Level::Warn
        } else if matches_ignore_ascii_case(s, "error") {
            Level::Error
        } else {
            Level::Info
        }
    }
}

impl<'a> vstd::std_specs::convert::FromSpecImpl<&'a str> for Level {
    open spec fn obeys_from_spec() -> bool {
        true
    }

    open spec fn from_spec(s: &'a str) -> Level {
        spec_level_from(s@)
    }
}

impl Level {
    /// The upper-case display name: `TRACE`, `DEBUG`, `INFO`, `WARN` or
    /// `ERROR`.
    pub fn to_string(&self) -> (s: String)
        ensures
            s@ == display_name(*self),
    {
        match self {
            Level::Trace => String::from_str("TRACE"),
            Level::Debug => String::from_str("DEBUG"),
            Level::Info => String::from_str("INFO"),
            Level::Warn => String::from_str("WARN"),
            Level::Error => String::from_str("ERROR"),
        }
    }
}

/// Displaying a level and parsing the displayed name gives the level back.
pub proof fn lemma_parse_display_roundtrip(l: Level)
    ensures
        spec_level_from(display_name(l)) == l,
{
    reveal_strlit("trace");
    reveal_strlit("debug");
    reveal_strlit("info");
    reveal_strlit("warn");
    reveal_strlit("error");
    reveal_strlit("TRACE");
    reveal_strlit("DEBUG");
    reveal_strlit("INFO");
    reveal_strlit("WARN");
    reveal_strlit("ERROR");
    let d = display_name(l);
    match l {
        Level::Trace => {
            assert(eq_ignore_ascii_case(d, "trace"@));
        },
        Level::Debug => {
            assert(ascii_lower(d[0]) != ascii_lower("trace"@[0]));
            assert(eq_ignore_ascii_case(d, "debug"@));
        },
        Level::Info => {
            assert(ascii_lower(d[0]) != ascii_lower("warn"@[0]));
            assert(eq_ignore_ascii_case(d, "info"@));
        },
        Level::Warn => {
            assert(ascii_lower(d[0]) != ascii_lower("info"@[0]));
            assert(eq_ignore_ascii_case(d, "warn"@));
        },
        Level::Error => {
            assert(ascii_lower(d[0]) != ascii_lower("trace"@[0]));
            assert(ascii_lower(d[0]) != ascii_lower("debug"@[0]));
            assert(eq_ignore_ascii_case(d, "error"@));
        },
    }
}

/// The lower-case name of a level, as settings and serialized entries
/// write it.
pub open spec fn level_name(l: Level) -> Seq<char> {
    match l {
        Level::Trace => "trace"@,
        Level::Debug => "debug"@,
        Level::Info => "info"@,
        Level::Warn => "warn"@,
        Level::Error => "error"@,
    }
}

/// Parsing a level's lower-case name gives the level back.
pub proof fn lemma_parse_name_roundtrip(l: Level)
    ensures
        spec_level_from(level_name(l)) == l,
{
    reveal_strlit("trace");
    reveal_strlit("debug");
    reveal_strlit("info");
    reveal_strlit("warn");
    reveal_strlit("error");
    let d = level_name(l);
    match l {
        Level::Trace => {
            assert(eq_ignore_ascii_case(d, "trace"@));
        },
        Level::Debug => {
            assert(ascii_lower(d[0]) != ascii_lower("trace"@[0]));
            assert(eq_ignore_ascii_case(d, "debug"@));
        },
        Level::Info => {
            assert(ascii_lower(d[0]) != ascii_lower("warn"@[0]));
            assert(eq_ignore_ascii_case(d, "info"@));
        },
        Level::Warn => {
            assert(ascii_lower(d[0]) != ascii_lower("info"@[0]));
            assert(eq_ignore_ascii_case(d, "warn"@));
        },
        Level::Error => {
            assert(ascii_lower(d[0]) != ascii_lower("trace"@[0]));
            assert(ascii_lower(d[0]) != ascii_lower("debug"@[0]));
            assert(eq_ignore_ascii_case(d, "error"@));
        },
    }
}

/// Parsing does not depend on the case of ASCII letters: two texts that
/// differ only there name the same level.
pub proof fn lemma_parse_ignores_ascii_case(s: Seq<char>, t: Seq<char>)
    requires
        eq_ignore_ascii_case(s, t),
    ensures
        spec_level_from(s) == spec_level_from(t),
{
    assert forall|w: Seq<char>| eq_ignore_ascii_case(s, w) <==> eq_ignore_ascii_case(t, w) by {
        if eq_ignore_ascii_case(s, w) {
            assert forall|i: int| 0 <= i < t.len() implies #[trigger] ascii_lower(t[i]) == ascii_lower(w[i]) by {
                assert(ascii_lower(s[i]) == ascii_lower(t[i]));
            }
        }
        if eq_ignore_ascii_case(t, w) {
            assert forall|i: int| 0 <= i < s.len() implies #[trigger] ascii_lower(s[i]) == ascii_lower(w[i]) by {
                assert(ascii_lower(s[i]) == ascii_lower(t[i]));
            }
        }
    }
}

} // verus!
