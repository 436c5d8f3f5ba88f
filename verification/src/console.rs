//! The decisions of the console setup dialogue. The dialogue reads a line
//! from the user into a buffer; these functions decide, from the buffer's
//! contents with surrounding whitespace removed, what happens next.

use vstd::prelude::*;
use vstd::string::*;
use crate::config::{Devicecfg, StatusType};

verus! {

/// The characters that count as whitespace: those with the Unicode
/// White_Space property.
pub open spec fn is_whitespace_spec(c: char) -> bool {
    let v = c as u32;
    ||| 0x09 <= v <= 0x0D
    ||| v == 0x20
    ||| v == 0x85
    ||| v == 0xA0
    ||| v == 0x1680
    ||| 0x2000 <= v <= 0x200A
    ||| v == 0x2028
    ||| v == 0x2029
    ||| v == 0x202F
    ||| v == 0x205F
    ||| v == 0x3000
}

/// The text with its leading whitespace removed.
pub open spec fn trim_start(s: Seq<char>) -> Seq<char>
    decreases s.len(),
{
    if s.len() > 0 && is_whitespace_spec(s[0]) {
        trim_start(s.drop_first())
    } else {
        s
    }
}

/// The text with its trailing whitespace removed.
pub open spec fn trim_end(s: Seq<char>) -> Seq<char>
    decreases s.len(),
{
    if s.len() > 0 && is_whitespace_spec(s.last()) {
        trim_end(s.drop_last())
    } else {
        s
    }
}

/// The text with leading and trailing whitespace removed.
pub open spec fn trimmed(s: Seq<char>) -> Seq<char> {
    trim_end(trim_start(s))
}

/// Whether `c` is whitespace.
pub fn is_whitespace(c: char) -> (b: bool)
    ensures
        b == is_whitespace_spec(c),
{
    let v = c as u32;
    (0x09 <= v && v <= 0x0D) || v == 0x20 || v == 0x85 || v == 0xA0 || v == 0x1680 || (0x2000
        <= v && v <= 0x200A) || v == 0x2028 || v == 0x2029 || v == 0x202F || v == 0x205F || v
        == 0x3000
}

/// The character positions `(start, end)` of `s` between which the text
/// without its leading and trailing whitespace lies.
pub fn trimmed_bounds(s: &str) -> (r: (usize, usize))
    ensures
        r.0 <= r.1 <= s@.len(),
        trim_start(s@) == s@.subrange(r.0 as int, s@.len() as int),
        s@.subrange(r.0 as int, r.1 as int) == trimmed(s@),
{
    let n = s.unicode_len();
    let mut i: usize = 0;
    assert(s@.subrange(0, n as int) =~= s@);
    while i < n
        invariant
            n == s@.len(),
            i <= n,
            trim_start(s@) == trim_start(s@.subrange(i as int, n as int)),
        ensures
            i <= n,
            trim_start(s@) == trim_start(s@.subrange(i as int, n as int)),
            i == n || !is_whitespace_spec(s@[i as int]),
        decreases n - i,
    {
        if !is_whitespace(s.get_char(i)) {
            break ;
        }
        assert(s@.subrange(i as int, n as int).drop_first() =~= s@.subrange(i + 1, n as int));
        i = i + 1;
    }
    assert(trim_start(s@) == s@.subrange(i as int, n as int));
    let mut j: usize = n;
    while j > i
        invariant
            n == s@.len(),
            i <= j <= n,
            trimmed(s@) == trim_end(s@.subrange(i as int, j as int)),
        ensures
            i <= j <= n,
            trimmed(s@) == trim_end(s@.subrange(i as int, j as int)),
            j == i || !is_whitespace_spec(s@[j - 1]),
        decreases j - i,
    {
        if !is_whitespace(s.get_char(j - 1)) {
            break ;
        }
        assert(s@.subrange(i as int, j as int).drop_last() =~= s@.subrange(i as int, j - 1));
        j = j - 1;
    }
    assert(trim_end(s@.subrange(i as int, j as int)) == s@.subrange(i as int, j as int));
    (i, j)
}

/// Whether `s` without its leading and trailing whitespace is exactly the
/// one character `c`.
pub fn trimmed_is(s: &str, c: char) -> (b: bool)
    ensures
        b == (trimmed(s@) == seq![c]),
{
    let (lo, hi) = trimmed_bounds(s);
    if hi - lo == 1 {
        let first = s.get_char(lo);
        if first == c {
            assert(s@.subrange(lo as int, hi as int) =~= seq![c]);
            true
        } else {
            assert(s@.subrange(lo as int, hi as int)[0] == first);
            false
        }
    } else {
        assert(s@.subrange(lo as int, hi as int).len() == hi - lo);
        false
    }
}

/// What the device setup dialogue does after an attempt to read a line.
#[derive(Debug, PartialEq, Eq, Structural, Clone, Copy)]
pub enum SetupOutcome {
    /// The settings are complete; the dialogue ends with this status.
    Complete(StatusType),
    /// A custom configuration was asked for ("s"); it is not implemented.
    CustomUnimplemented,
    /// The answer is none of the offered choices.
    Unhandled,
    /// Reading failed: the error is reported and another line is read.
    ReadAgain,
}

/// One step of the device setup dialogue, which offers "s" (custom
/// settings), "d" (default settings) and "q". `input` is `None` when reading
/// failed, and otherwise holds everything read so far. A failed read is
/// reported and reading goes on. On "d" the settings become the defaults and
/// the dialogue is complete, reporting `StatusType::ERROR`; on "s" the custom
/// setup, which does not exist, is requested; anything else, "q" included, is
/// unhandled. Only "d" changes the settings.
pub fn setup_device_step(cfg_settings: &mut Devicecfg, input: Option<&str>) -> (outcome:
    SetupOutcome)
    ensures
        input is None ==> outcome == SetupOutcome::ReadAgain,
        input matches Some(line) ==> {
            &&& trimmed(line@) == seq!['d'] ==> outcome == SetupOutcome::Complete(
                StatusType::ERROR,
            ) && final(cfg_settings).is_default()
            &&& trimmed(line@) == seq!['s'] ==> outcome == SetupOutcome::CustomUnimplemented
            &&& trimmed(line@) != seq!['d'] && trimmed(line@) != seq!['s'] ==> outcome
                == SetupOutcome::Unhandled
        },
        !(input matches Some(line) && trimmed(line@) == seq!['d']) ==> *final(cfg_settings)
            == *old(cfg_settings),
{
    match input {
        None => SetupOutcome::ReadAgain,
        Some(line) => {
            if trimmed_is(line, 's') {
                assert(trimmed(line@)[0] == 's');
                SetupOutcome::CustomUnimplemented
            } else if trimmed_is(line, 'd') {
                *cfg_settings = Devicecfg::default();
                SetupOutcome::Complete(StatusType::ERROR)
            } else {
                SetupOutcome::Unhandled
            }
        },
    }
}

/// The answer to "Setup Remote Device ? y/n".
#[derive(Debug, PartialEq, Eq, Structural, Clone, Copy)]
pub enum RemoteSetupChoice {
    /// "y": set up the remote device; this is not implemented.
    SetupRemote,
    /// "n": leave the remote device alone.
    Skip,
    /// Any other answer.
    Unhandled,
    /// Reading failed: the error is reported and the question is dropped.
    ReadFailed,
}

/// Decides the answer to the remote-device question from the line read,
/// `None` when reading failed.
pub fn remote_setup_choice(input: Option<&str>) -> (choice: RemoteSetupChoice)
    ensures
        choice == (match input {
            None => RemoteSetupChoice::ReadFailed,
            Some(line) => if trimmed(line@) == seq!['y'] {
                RemoteSetupChoice::SetupRemote
            } else if trimmed(line@) == seq!['n'] {
                RemoteSetupChoice::Skip
            } else {
                RemoteSetupChoice::Unhandled
            },
        }),
{
    match input {
        None => RemoteSetupChoice::ReadFailed,
        Some(line) => {
            if trimmed_is(line, 'y') {
                assert(trimmed(line@)[0] == 'y');
                RemoteSetupChoice::SetupRemote
            } else if trimmed_is(line, 'n') {
                RemoteSetupChoice::Skip
            } else {
                RemoteSetupChoice::Unhandled
            }
        },
    }
}

} // verus!
