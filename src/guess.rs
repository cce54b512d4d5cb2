//! Reading a player's answer: a weekday in full or abbreviated, or a request
//! to quit.

use vstd::prelude::*;

use crate::calendar::Weekday;

verus! {

/// What a line of input asks for.
#[derive(Clone, Copy, Debug, PartialEq, Eq, Structural)]
pub enum Command {
    /// A guess of the weekday.
    Guess(Weekday),
    /// Leave the game.
    Quit,
}

/// What std's `str::to_lowercase` makes of the characters `s`.
pub uninterp spec fn lower_of(s: Seq<char>) -> Seq<char>;

/// What std's `str::trim` leaves of the characters `s`.
pub uninterp spec fn trimmed(s: Seq<char>) -> Seq<char>;

/// Relies on std's `str::to_lowercase`: the result depends on the characters alone.
#[verifier::external_body]
fn lowercase(s: &str) -> (r: String)
    ensures
        r@ == lower_of(s@),
{
    s.to_lowercase()
}

/// Relies on std's `str::trim`: the result depends on the characters alone.
#[verifier::external_body]
fn trim(s: &str) -> (r: &str)
    ensures
        r@ == trimmed(s@),
{
    s.trim()
}

/// The command that the normalised token `t` names, if any.
pub open spec fn command_for(t: Seq<char>) -> Option<Command> {
    if t == "q"@ || t == "quit"@ || t == "exit"@ {
        Some(Command::Quit)
    } else if t == "m"@ || t == "mo"@ || t == "mon"@ || t == "monday"@ {
        Some(Command::Guess(Weekday::Monday))
    } else if t == "tu"@ || t == "tue"@ || t == "tues"@ || t == "tuesday"@ {
        Some(Command::Guess(Weekday::Tuesday))
    } else if t == "w"@ || t == "we"@ || t == "wed"@ || t == "wednesday"@ {
        Some(Command::Guess(Weekday::Wednesday))
    } else if t == "th"@ || t == "thu"@ || t == "thur"@ || t == "thurs"@ || t == "thursday"@ {
        Some(Command::Guess(Weekday::Thursday))
    } else if t == "f"@ || t == "fr"@ || t == "fri"@ || t == "friday"@ {
        Some(Command::Guess(Weekday::Friday))
    } else if t == "sa"@ || t == "sat"@ || t == "saturday"@ {
        Some(Command::Guess(Weekday::Saturday))
    } else if t == "su"@ || t == "sun"@ || t == "sunday"@ {
        Some(Command::Guess(Weekday::Sunday))
    } else {
        None
    }
}

/// Whether `a` and `b` hold the same characters.
fn same_text(a: &str, b: &str) -> (r: bool)
    ensures
        r == (a@ == b@),
{
    let n = a.unicode_len();
    if n != b.unicode_len() {
        return false;
    }
    let mut i: usize = 0;
    while i < n
        invariant
            n == a@.len(),
            n == b@.len(),
            i <= n,
            a@.subrange(0, i as int) == b@.subrange(0, i as int),
        decreases n - i,
    {
        if a.get_char(i) != b.get_char(i) {
            assert(a@[i as int] != b@[i as int]);
            return false;
        }
        assert(a@.subrange(0, i + 1) =~= a@.subrange(0, i as int).push(a@[i as int]));
        assert(b@.subrange(0, i + 1) =~= b@.subrange(0, i as int).push(b@[i as int]));
        i = i + 1;
    }
    assert(a@ =~= a@.subrange(0, n as int));
    assert(b@ =~= b@.subrange(0, n as int));
    true
}

/// The command named by a token already lower-cased and trimmed.
pub fn parse_token(t: &str) -> (r: Option<Command>)
    ensures
        r == command_for(t@),
{
    if same_text(t, "q") || same_text(t, "quit") || same_text(t, "exit") {
        Some(Command::Quit)
    } else if same_text(t, "m") || same_text(t, "mo") || same_text(t, "mon") || same_text(t, "monday") {
        Some(Command::Guess(Weekday::Monday))
    } else if same_text(t, "tu") || same_text(t, "tue") || same_text(t, "tues") || same_text(t, "tuesday") {
        Some(Command::Guess(Weekday::Tuesday))
    } else if same_text(t, "w") || same_text(t, "we") || same_text(t, "wed") || same_text(t, "wednesday") {
        Some(Command::Guess(Weekday::Wednesday))
    } else if same_text(t, "th") || same_text(t, "thu") || same_text(t, "thur") || same_text(t, "thurs")
        || same_text(t, "thursday") {
        Some(Command::Guess(Weekday::Thursday))
    } else if same_text(t, "f") || same_text(t, "fr") || same_text(t, "fri") || same_text(t, "friday") {
        Some(Command::Guess(Weekday::Friday))
    } else if same_text(t, "sa") || same_text(t, "sat") || same_text(t, "saturday") {
        Some(Command::Guess(Weekday::Saturday))
    } else if same_text(t, "su") || same_text(t, "sun") || same_text(t, "sunday") {
        Some(Command::Guess(Weekday::Sunday))
    } else {
        None
    }
}

/// The command a line of input names: matched case-insensitively, ignoring
/// surrounding whitespace; `None` for anything not in the table.
pub fn parse_command(input: &str) -> (r: Option<Command>)
    ensures
        r == command_for(trimmed(lower_of(input@))),
{
    let lower = lowercase(input);
    let token = trim(lower.as_str());
    parse_token(token)
}

} // verus!
