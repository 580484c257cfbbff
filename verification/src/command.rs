//! The local control surface: one line in, one line out.
//!
//! A request is `set_mode Road`, `set_mode Track`, `set_scheme Light` or
//! `set_scheme Dark`, with any white space around and between the two
//! words. The reply is `OK`, or `ERR` and the reason.

use crate::telemetry::{ColorScheme, DriveMode, TelemetryState};
use vstd::prelude::*;
use vstd::string::{StrSliceExecFns, StringExecFns};

verus! {

/// A request that was understood.
#[derive(Debug, Clone, Copy, PartialEq, Eq, Structural)]
pub enum Command {
    SetMode(DriveMode),
    SetScheme(ColorScheme),
}

/// Why a request was not understood.
#[derive(Debug, Clone, Copy, PartialEq, Eq, Structural)]
pub enum CommandError {
    /// `set_mode` with a word that names no drive mode.
    InvalidMode,
    /// `set_scheme` with a word that names no colour scheme.
    InvalidScheme,
    /// Anything else.
    UnknownCommand,
}

/// Whether a character is white space, as Unicode defines it.
pub open spec fn is_space(c: char) -> bool {
    let code = c as u32;
    ||| 0x09 <= code <= 0x0D
    ||| code == 0x20
    ||| code == 0x85
    ||| code == 0xA0
    ||| code == 0x1680
    ||| 0x2000 <= code <= 0x200A
    ||| code == 0x2028
    ||| code == 0x2029
    ||| code == 0x202F
    ||| code == 0x205F
    ||| code == 0x3000
}

/// The words of a line: its longest runs of characters that are not white
/// space, in order.
pub open spec fn words_of(line: Seq<char>) -> Seq<Seq<char>>
    decreases line.len(),
{
    if line.len() == 0 {
        Seq::empty()
    } else {
        let before = words_of(line.drop_last());
        if is_space(line.last()) {
            before
        } else if line.len() >= 2 && !is_space(line[line.len() - 2]) {
            before.drop_last().push(before.last().push(line.last()))
        } else {
            before.push(seq![line.last()])
        }
    }
}

/// Every word of a line has at least one character and holds no white
/// space; a line that ends in a character that is no white space ends its
/// last word with it.
pub proof fn lemma_words_hold_no_space(line: Seq<char>)
    ensures
        forall|k: int, i: int|
            0 <= k < words_of(line).len() && 0 <= i < words_of(line)[k].len() ==> !is_space(
                #[trigger] words_of(line)[k][i],
            ),
        forall|k: int| 0 <= k < words_of(line).len() ==> (#[trigger] words_of(line)[k]).len() > 0,
        line.len() > 0 && !is_space(line.last()) ==> words_of(line).len() > 0 && words_of(
            line,
        ).last().last() == line.last(),
    decreases line.len(),
{
    if line.len() > 0 {
        let shorter = line.drop_last();
        lemma_words_hold_no_space(shorter);
        let before = words_of(shorter);
        let words = words_of(line);
        if !is_space(line.last()) && line.len() >= 2 && !is_space(line[line.len() - 2]) {
            assert(shorter.last() == line[line.len() - 2]);
            let grown = before.last().push(line.last());
            assert(words == before.drop_last().push(grown));
            assert forall|k: int, i: int|
                0 <= k < words.len() && 0 <= i < words[k].len() implies !is_space(
                #[trigger] words[k][i],
            ) by {
                if k < words.len() - 1 {
                    assert(words[k] == before[k]);
                } else if i < grown.len() - 1 {
                    assert(words[k][i] == before.last()[i]);
                }
            }
            assert forall|k: int| 0 <= k < words.len() implies (#[trigger] words[k]).len() > 0 by {
                if k < words.len() - 1 {
                    assert(words[k] == before[k]);
                }
            }
        } else if !is_space(line.last()) {
            assert(words == before.push(seq![line.last()]));
            assert forall|k: int, i: int|
                0 <= k < words.len() && 0 <= i < words[k].len() implies !is_space(
                #[trigger] words[k][i],
            ) by {
                if k < words.len() - 1 {
                    assert(words[k] == before[k]);
                }
            }
            assert forall|k: int| 0 <= k < words.len() implies (#[trigger] words[k]).len() > 0 by {
                if k < words.len() - 1 {
                    assert(words[k] == before[k]);
                }
            }
        }
    }
}

/// The texts of a list of strings.
pub open spec fn texts(words: Seq<String>) -> Seq<Seq<char>> {
    words.map_values(|word: String| word@)
}

/// What the words of a request ask for.
pub open spec fn command_of(words: Seq<Seq<char>>) -> Result<Command, CommandError> {
    if words.len() == 2 && words[0] == "set_mode"@ {
        if words[1] == "Road"@ {
            Ok(Command::SetMode(DriveMode::Road))
        } else if words[1] == "Track"@ {
            Ok(Command::SetMode(DriveMode::Track))
        } else {
            Err(CommandError::InvalidMode)
        }
    } else if words.len() == 2 && words[0] == "set_scheme"@ {
        if words[1] == "Light"@ {
            Ok(Command::SetScheme(ColorScheme::Light))
        } else if words[1] == "Dark"@ {
            Ok(Command::SetScheme(ColorScheme::Dark))
        } else {
            Err(CommandError::InvalidScheme)
        }
    } else {
        Err(CommandError::UnknownCommand)
    }
}

/// The reply to a request, as a line with its line feed.
pub open spec fn reply_to(words: Seq<Seq<char>>) -> Seq<char> {
    match command_of(words) {
        Ok(_) => "OK\n"@,
        Err(CommandError::InvalidMode) => "ERR invalid mode: "@ + words[1] + "\n"@,
        Err(CommandError::InvalidScheme) => "ERR invalid scheme: "@ + words[1] + "\n"@,
        Err(CommandError::UnknownCommand) => "ERR unknown command\n"@,
    }
}

/// The snapshot after a request: a request that was understood sets its
/// selector, any other changes nothing.
pub open spec fn state_after(state: TelemetryState, words: Seq<Seq<char>>) -> TelemetryState {
    match command_of(words) {
        Ok(Command::SetMode(mode)) => TelemetryState { drive_mode: mode, ..state },
        Ok(Command::SetScheme(scheme)) => TelemetryState { color_scheme: scheme, ..state },
        Err(_) => state,
    }
}

/// Tests whether a character is white space.
pub fn is_whitespace(c: char) -> (space: bool)
    ensures
        space == is_space(c),
{
    let code: u32 = c as u32;
    (0x09 <= code && code <= 0x0D) || code == 0x20 || code == 0x85 || code == 0xA0 || code
        == 0x1680 || (0x2000 <= code && code <= 0x200A) || code == 0x2028 || code == 0x2029
        || code == 0x202F || code == 0x205F || code == 0x3000
}

/// Splits a line into its words.
pub fn split_words(line: &str) -> (words: Vec<String>)
    ensures
        texts(words@) == words_of(line@),
{
    let chars = crate::text::chars_of(line);
    let len = chars.len();
    let mut words: Vec<String> = Vec::new();
    let mut start: usize = 0;
    let mut inside = false;
    let mut at: usize = 0;
    assert(texts(words@) =~= Seq::<Seq<char>>::empty());
    assert(line@.take(0) =~= Seq::<char>::empty());
    while at < len
        invariant
            at <= len,
            len == line@.len(),
            chars@ == line@,
            start <= at,
            inside ==> start < at && !is_space(line@[at - 1]),
            !inside && at > 0 ==> is_space(line@[at - 1]),
            words_of(line@.take(at as int)) == if inside {
                texts(words@).push(line@.subrange(start as int, at as int))
            } else {
                texts(words@)
            },
        decreases len - at,
    {
        let c = chars[at];
        let space = is_whitespace(c);
        proof {
            let next = line@.take(at as int + 1);
            assert(next.drop_last() =~= line@.take(at as int));
            assert(next.last() == c);
            if at > 0 {
                assert(next[next.len() - 2] == line@[at - 1]);
            }
        }
        if space {
            if inside {
                let word = String::from_str(line.substring_char(start, at));
                proof {
                    assert(texts(words@.push(word)) =~= texts(words@).push(word@));
                }
                words.push(word);
                inside = false;
            }
        } else if !inside {
            start = at;
            inside = true;
            proof {
                assert(line@.subrange(at as int, at as int + 1) =~= seq![c]);
            }
        } else {
            proof {
                let before = texts(words@).push(line@.subrange(start as int, at as int));
                assert(before.drop_last() =~= texts(words@));
                assert(line@.subrange(start as int, at as int).push(c) =~= line@.subrange(
                    start as int,
                    at as int + 1,
                ));
            }
        }
        at = at + 1;
    }
    assert(line@.take(len as int) =~= line@);
    if inside {
        let word = String::from_str(line.substring_char(start, len));
        proof {
            assert(texts(words@.push(word)) =~= texts(words@).push(word@));
        }
        words.push(word);
    }
    words
}

fn is_text(word: &String, text: &str) -> (same: bool)
    ensures
        same == (word@ == text@),
{
    let wanted = String::from_str(text);
    *word == wanted
}

/// Reads the words of a request.
pub fn parse_command(words: &Vec<String>) -> (command: Result<Command, CommandError>)
    ensures
        command == command_of(texts(words@)),
{
    if words.len() == 2 && is_text(&words[0], "set_mode") {
        if is_text(&words[1], "Road") {
            Ok(Command::SetMode(DriveMode::Road))
        } else if is_text(&words[1], "Track") {
            Ok(Command::SetMode(DriveMode::Track))
        } else {
            Err(CommandError::InvalidMode)
        }
    } else if words.len() == 2 && is_text(&words[0], "set_scheme") {
        if is_text(&words[1], "Light") {
            Ok(Command::SetScheme(ColorScheme::Light))
        } else if is_text(&words[1], "Dark") {
            Ok(Command::SetScheme(ColorScheme::Dark))
        } else {
            Err(CommandError::InvalidScheme)
        }
    } else {
        Err(CommandError::UnknownCommand)
    }
}

/// Carries out one request on the snapshot and gives the reply.
pub fn handle_command(state: &mut TelemetryState, line: &str) -> (reply: String)
    ensures
        *final(state) == state_after(*old(state), words_of(line@)),
        reply@ == reply_to(words_of(line@)),
{
    let words = split_words(line);
    match parse_command(&words) {
        Ok(Command::SetMode(mode)) => {
            state.set_drive_mode(mode);
            String::from_str("OK\n")
        },
        Ok(Command::SetScheme(scheme)) => {
            state.set_color_scheme(scheme);
            String::from_str("OK\n")
        },
        Err(CommandError::InvalidMode) => String::from_str("ERR invalid mode: ").concat(
            words[1].as_str(),
        ).concat("\n"),
        Err(CommandError::InvalidScheme) => String::from_str("ERR invalid scheme: ").concat(
            words[1].as_str(),
        ).concat("\n"),
        Err(CommandError::UnknownCommand) => String::from_str("ERR unknown command\n"),
    }
}

} // verus!
