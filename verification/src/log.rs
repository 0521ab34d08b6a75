//! How much the application logs, from the text of its setting.

use crate::text::push_char;
use vstd::prelude::*;

verus! {

/// ASCII letters in lower case, every other character unchanged.
pub open spec fn ascii_lower(c: char) -> char {
    if 'A' <= c && c <= 'Z' {
        ((c as u32) + 32) as char
    } else {
        c
    }
}

pub open spec fn ascii_lowercase(s: Seq<char>) -> Seq<char> {
    s.map_values(|c: char| ascii_lower(c))
}

/// The level a setting selects, compared without regard to ASCII case:
/// `error` 1, `warn` 2, `info` 3, `debug` 4, anything else (or no setting)
/// 0, which logs nothing.
pub open spec fn level_of(setting: Option<Seq<char>>) -> u8 {
    match setting {
        None => 0,
        Some(s) => {
            let l = ascii_lowercase(s);
            if l == "error"@ {
                1
            } else if l == "warn"@ {
                2
            } else if l == "info"@ {
                3
            } else if l == "debug"@ {
                4
            } else {
                0
            }
        },
    }
}

fn lower_char(c: char) -> (r: char)
    ensures
        r == ascii_lower(c),
{
    if 'A' <= c && c <= 'Z' {
        let b: u8 = c as u8;
        assert(b as int == c as u32 as int);
        ((b + 32) as char)
    } else {
        c
    }
}

/// `s` with its ASCII letters in lower case (`to_ascii_lowercase`).
pub fn to_ascii_lowercase(s: &str) -> (r: String)
    ensures
        r@ == ascii_lowercase(s@),
{
    let n = s.unicode_len();
    let mut r = String::new();
    let mut i: usize = 0;
    while i < n
        invariant
            n == s@.len(),
            i <= n,
            r@ == ascii_lowercase(s@.take(i as int)),
        decreases n - i,
    {
        let c = s.get_char(i);
        push_char(&mut r, lower_char(c));
        assert(s@.take(i + 1) =~= s@.take(i as int).push(c));
        i += 1;
        assert(r@ =~= ascii_lowercase(s@.take(i as int)));
    }
    assert(s@.take(n as int) =~= s@);
    r
}

/// The log level that `setting` (the value of the log setting, if it is
/// set and is text) selects.
pub fn parse_log_level(setting: Option<String>) -> (level: u8)
    ensures
        level == level_of(match setting { Some(s) => Some(s@), None => None }),
{
    match setting {
        None => 0,
        Some(s) => {
            let l = to_ascii_lowercase(s.as_str());
            if l == crate::text::owned("error") {
                1
            } else if l == crate::text::owned("warn") {
                2
            } else if l == crate::text::owned("info") {
                3
            } else if l == crate::text::owned("debug") {
                4
            } else {
                0
            }
        },
    }
}

/// Each level is selected by exactly one word, in any ASCII case; every
/// other setting, and no setting, selects level 0.
pub proof fn lemma_level_words(s: Seq<char>)
    ensures
        level_of(Some(s)) == 1 <==> ascii_lowercase(s) == "error"@,
        level_of(Some(s)) == 2 <==> ascii_lowercase(s) == "warn"@,
        level_of(Some(s)) == 3 <==> ascii_lowercase(s) == "info"@,
        level_of(Some(s)) == 4 <==> ascii_lowercase(s) == "debug"@,
        level_of(Some(s)) <= 4,
        level_of(None) == 0,
{
    reveal_strlit("error");
    reveal_strlit("warn");
    reveal_strlit("info");
    reveal_strlit("debug");
    assert("error"@.len() == 5 && "warn"@.len() == 4 && "info"@.len() == 4 && "debug"@.len() == 5);
    assert("warn"@[0] == 'w' && "info"@[0] == 'i');
    assert("error"@[0] == 'e' && "debug"@[0] == 'd');
}

/// Case does not matter: a setting and its lower-case form select the same
/// level.
pub proof fn lemma_level_ignores_case(s: Seq<char>)
    ensures
        level_of(Some(ascii_lowercase(s))) == level_of(Some(s)),
{
    assert(ascii_lowercase(ascii_lowercase(s)) =~= ascii_lowercase(s)) by {
        assert forall|i: int| 0 <= i < s.len() implies ascii_lower(ascii_lower(s[i])) == ascii_lower(s[i]) by {
            let c = s[i];
            if 'A' <= c && c <= 'Z' {
                assert((((c as u32) + 32) as char) as u32 == (c as u32) + 32);
            }
        }
    }
}

} // verus!
