//! Whether the registered autostart command launches the running executable.
use vstd::prelude::*;

use crate::counting::{first_where, lemma_count_prefix_step, lemma_first_where, lemma_first_where_is};
use crate::ddc::DdcError;
use crate::text::{chars_of, is_unicode_whitespace, is_whitespace, lower_chars, lower_seq,
    leading_ws, string_from_chars, trailing_ws, trim_char, trim_char_seq, trim_chars, trim_seq};

verus! {

/// The state of the autostart entry relative to the running executable.
#[derive(Debug, Clone, Copy, PartialEq, Eq, Structural)]
pub enum AutostartEntryState {
    /// The entry launches this executable.
    Enabled,
    /// There is no entry.
    Disabled,
    /// The entry launches something else, or cannot be read.
    Stale,
}

/// A character is the given one.
pub open spec fn char_is(c: char) -> spec_fn(char) -> bool {
    |x: char| x == c
}

/// A character is whitespace.
pub open spec fn whitespace() -> spec_fn(char) -> bool {
    |x: char| is_unicode_whitespace(x)
}

/// The executable of a command line: a quoted path up to its closing quote,
/// or else the first whitespace-separated word; none for a blank command or
/// an unclosed quote.
pub open spec fn command_path(command: Seq<char>) -> Option<Seq<char>> {
    let t = trim_seq(command);
    if t.len() == 0 {
        None
    } else if t[0] == '"' {
        let rest = t.subrange(1, t.len() as int);
        match first_where(rest, char_is('"')) {
            Some(end) => Some(rest.subrange(0, end)),
            None => None,
        }
    } else {
        match first_where(t, whitespace()) {
            Some(end) => Some(t.subrange(0, end)),
            None => Some(t),
        }
    }
}

/// Forward slashes written as backslashes.
pub open spec fn backslashed(s: Seq<char>) -> Seq<char> {
    s.map_values(|c: char|
        if c == '/' {
            '\\'
        } else {
            c
        })
}

/// A path as compared: backslashes for slashes, surrounding double quotes
/// removed, ASCII letters in lower case.
pub open spec fn normalized_path(p: Seq<char>) -> Seq<char> {
    lower_seq(trim_char_seq(backslashed(p), '"'))
}

/// The autostart state for a registered command (or none) and the running
/// executable.
pub open spec fn autostart_state(run_value: Option<Seq<char>>, exe: Seq<char>) -> AutostartEntryState {
    match run_value {
        None => AutostartEntryState::Disabled,
        Some(v) => match command_path(v) {
            None => AutostartEntryState::Stale,
            Some(p) => if normalized_path(p) == normalized_path(exe) {
                AutostartEntryState::Enabled
            } else {
                AutostartEntryState::Stale
            },
        },
    }
}

fn first_index(s: &Vec<char>, from: usize, c: char) -> (r: Option<usize>)
    requires
        from <= s.len(),
    ensures
        match first_where(s@.subrange(from as int, s@.len() as int), char_is(c)) {
            Some(k) => r == Some((from + k) as usize),
            None => r is None,
        },
{
    let ghost t = s@.subrange(from as int, s@.len() as int);
    let mut i: usize = from;
    while i < s.len()
        invariant
            from <= i <= s.len(),
            t == s@.subrange(from as int, s@.len() as int),
            first_where(t.subrange(0, i - from), char_is(c)) is None,
        decreases s.len() - i,
    {
        proof {
            lemma_count_prefix_step(t, char_is(c), (i - from) as int);
            lemma_first_where(t.subrange(0, i - from), char_is(c));
        }
        if s[i] == c {
            proof {
                assert forall|j: int| 0 <= j < i - from implies !char_is(c)(#[trigger] t[j]) by {
                    assert(t[j] == t.subrange(0, i - from)[j]);
                }
                lemma_first_where_is(t, char_is(c), (i - from) as int);
            }
            return Some(i);
        }
        i = i + 1;
    }
    assert(t.subrange(0, i - from) =~= t);
    None
}

fn first_whitespace(s: &Vec<char>) -> (r: Option<usize>)
    ensures
        match first_where(s@, whitespace()) {
            Some(k) => r == Some(k as usize),
            None => r is None,
        },
{
    let mut i: usize = 0;
    while i < s.len()
        invariant
            i <= s.len(),
            first_where(s@.subrange(0, i as int), whitespace()) is None,
        decreases s.len() - i,
    {
        proof {
            lemma_count_prefix_step(s@, whitespace(), i as int);
            lemma_first_where(s@.subrange(0, i as int), whitespace());
        }
        if is_whitespace(s[i]) {
            proof {
                assert forall|j: int| 0 <= j < i implies !whitespace()(#[trigger] s@[j]) by {
                    assert(s@[j] == s@.subrange(0, i as int)[j]);
                }
                lemma_first_where_is(s@, whitespace(), i as int);
            }
            return Some(i);
        }
        i = i + 1;
    }
    assert(s@.subrange(0, i as int) =~= s@);
    None
}

fn slice_chars(s: &Vec<char>, from: usize, to: usize) -> (r: Vec<char>)
    requires
        from <= to <= s.len(),
    ensures
        r@ == s@.subrange(from as int, to as int),
{
    let mut r: Vec<char> = Vec::new();
    let mut i: usize = from;
    while i < to
        invariant
            from <= i <= to <= s.len(),
            r@ == s@.subrange(from as int, i as int),
        decreases to - i,
    {
        r.push(s[i]);
        i = i + 1;
        assert(r@ =~= s@.subrange(from as int, i as int));
    }
    r
}

/// The executable that a command line starts.
pub fn command_executable_path(command: &str) -> (r: Option<String>)
    ensures
        match command_path(command@) {
            Some(p) => r matches Some(s) && s@ == p,
            None => r is None,
        },
{
    let chars = chars_of(command);
    let t = trim_chars(&chars);
    if t.len() == 0 {
        return None;
    }
    if t[0] == '"' {
        let ghost rest = t@.subrange(1, t@.len() as int);
        proof {
            lemma_first_where(rest, char_is('"'));
        }
        match first_index(&t, 1, '"') {
            Some(end) => {
                let path = slice_chars(&t, 1, end);
                assert(path@ =~= rest.subrange(0, end - 1));
                Some(string_from_chars(path.as_slice()))
            },
            None => None,
        }
    } else {
        proof {
            lemma_first_where(t@, whitespace());
        }
        match first_whitespace(&t) {
            Some(end) => {
                let path = slice_chars(&t, 0, end);
                Some(string_from_chars(path.as_slice()))
            },
            None => Some(string_from_chars(t.as_slice())),
        }
    }
}

/// A path in the form in which paths are compared.
pub fn normalized_path_text(path: &str) -> (r: String)
    ensures
        r@ == normalized_path(path@),
{
    let chars = chars_of(path);
    let mut slashed: Vec<char> = Vec::new();
    let mut i: usize = 0;
    while i < chars.len()
        invariant
            i <= chars.len(),
            slashed@ == backslashed(chars@.subrange(0, i as int)),
        decreases chars.len() - i,
    {
        if chars[i] == '/' {
            slashed.push('\\');
        } else {
            slashed.push(chars[i]);
        }
        i = i + 1;
        assert(slashed@ =~= backslashed(chars@.subrange(0, i as int)));
    }
    assert(chars@.subrange(0, chars@.len() as int) =~= chars@);
    let middle = trim_char(&slashed, '"');
    let lowered = lower_chars(&middle);
    string_from_chars(lowered.as_slice())
}

/// Whether a registered autostart command launches the running executable.
pub fn autostart_entry_enabled(run_value: Option<&str>, current_exe: &str) -> (r:
    AutostartEntryState)
    ensures
        r == autostart_state(
            match run_value {
                Some(v) => Some(v@),
                None => None,
            },
            current_exe@,
        ),
{
    let run_value = match run_value {
        Some(v) => v,
        None => {
            return AutostartEntryState::Disabled;
        },
    };
    let run_path = match command_executable_path(run_value) {
        Some(p) => p,
        None => {
            return AutostartEntryState::Stale;
        },
    };
    let left = normalized_path_text(run_path.as_str());
    let right = normalized_path_text(current_exe);
    if left == right {
        AutostartEntryState::Enabled
    } else {
        AutostartEntryState::Stale
    }
}

/// Whether autostart is enabled. The autostart entry lives in the Windows
/// registry; elsewhere there is none.
pub fn is_autostart_enabled() -> (r: Result<bool, DdcError>)
    ensures
        r == Ok::<bool, DdcError>(false),
{
    Ok(false)
}

/// Turns autostart on or off. The autostart entry lives in the Windows
/// registry; elsewhere the request fails.
pub fn set_autostart_enabled(enabled: bool) -> (r: Result<(), DdcError>)
    ensures
        r matches Err(DdcError::Permanent(m)) && m@ == "autostart is only available on Windows"@,
{
    Err(DdcError::Permanent(String::from_str("autostart is only available on Windows")))
}

/// Trailing whitespace stops at a character that is not whitespace.
proof fn lemma_trailing_ws_stops(s: Seq<char>, k: int)
    requires
        0 <= k < s.len(),
        !is_unicode_whitespace(s[k]),
    ensures
        trailing_ws(s) <= s.len() - 1 - k,
    decreases s.len(),
{
    if is_unicode_whitespace(s.last()) {
        assert(s.drop_last()[k] == s[k]);
        lemma_trailing_ws_stops(s.drop_last(), k);
    }
}

/// An unquoted command line runs its first whitespace-separated word: for
/// a path without whitespace that does not start with a quote, followed by
/// a space and any arguments, the executable is that path; and the entry
/// is enabled exactly when that path is the running executable (as paths
/// are compared).
pub proof fn law_unquoted_command_runs_its_first_word(p: Seq<char>, args: Seq<char>, exe: Seq<char>)
    requires
        p.len() > 0,
        p[0] != '"',
        forall|k: int| 0 <= k < p.len() ==> !is_unicode_whitespace(#[trigger] p[k]),
    ensures
        command_path(p + seq![' '] + args) == Some(p),
        (autostart_state(Some(p + seq![' '] + args), exe) == AutostartEntryState::Enabled)
            == (normalized_path(p) == normalized_path(exe)),
{
    let s = p + seq![' '] + args;
    assert(s[0] == p[0]);
    assert(leading_ws(s) == 0);
    assert(s[p.len() - 1] == p[p.len() - 1]);
    lemma_trailing_ws_stops(s, p.len() - 1);
    let e = s.len() - trailing_ws(s);
    let t = trim_seq(s);
    assert(t == s.subrange(0, e));
    assert(t[0] == p[0]);
    assert forall|j: int| 0 <= j < p.len() implies !whitespace()(#[trigger] t[j]) by {
        assert(t[j] == s[j]);
        assert(s[j] == p[j]);
    }
    if e == p.len() {
        assert(t =~= p);
        lemma_first_where(t, whitespace());
    } else {
        assert(t[p.len() as int] == ' ');
        assert(is_unicode_whitespace(' '));
        lemma_first_where_is(t, whitespace(), p.len() as int);
        assert(t.subrange(0, p.len() as int) =~= p);
    }
}

} // verus!
