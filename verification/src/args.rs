//! The command line: what was given on it, and the mode of operation that
//! follows from it.

use vstd::prelude::*;
use vstd::string::StringExecFns;

use crate::text::{parse_u64, read_number, NumberError};

verus! {

/// The mode the program runs in.
#[derive(Clone, Copy, Debug, PartialEq, Eq, Structural)]
pub enum Mode {
    /// The interactive interface.
    TUI,
    /// A notification every so many seconds.
    Background(u64),
    /// Looking up the videos of a word.
    Video,
}

/// The arguments of the program, with the defaults filled in.
#[derive(Debug)]
pub struct Arguments {
    pub mode: Mode,
    pub yaml: String,
    pub video_word: String,
    pub description: bool,
}

/// What was found on the command line: for each option whether it is there,
/// and its value if it has one.
#[derive(Debug)]
pub struct Matches {
    /// The dictionary file.
    pub yaml: Option<String>,
    /// Whether notifications carry the description of the word.
    pub description: bool,
    /// Whether the option that asks for the background mode is there.
    pub background_present: bool,
    /// The seconds given with it.
    pub background: Option<String>,
    /// Whether the option that asks for videos is there.
    pub video_present: bool,
    /// The word given with it.
    pub video: Option<String>,
}

/// Why a command line is refused.
#[derive(Clone, Copy, Debug, PartialEq, Eq, Structural)]
pub enum ArgumentsError {
    /// The seconds of the background mode are no number, and why.
    Seconds(NumberError),
}

/// The seconds between two notifications when none are given.
pub const DEFAULT_SECONDS: u64 = 30;

/// The seconds that the background option asks for: its value read as a
/// decimal number, and thirty without a value.
pub open spec fn background_seconds(background: Option<String>) -> Result<u64, NumberError> {
    match background {
        None => Ok(DEFAULT_SECONDS),
        Some(text) => match read_number(text@, u64::MAX as nat) {
            Ok(value) => Ok(value as u64),
            Err(error) => Err(error),
        },
    }
}

/// The mode that a command line asks for. The background option goes before
/// the video option, and without either the interface runs. The command line
/// is refused where the background option comes with seconds that cannot be
/// read.
pub open spec fn mode_of(matches: Matches) -> Result<Mode, ArgumentsError> {
    if matches.background_present {
        match background_seconds(matches.background) {
            Ok(seconds) => Ok(Mode::Background(seconds)),
            Err(error) => Err(ArgumentsError::Seconds(error)),
        }
    } else if matches.video_present {
        Ok(Mode::Video)
    } else {
        Ok(Mode::TUI)
    }
}

/// The text of an option, or `default` where the option has none.
fn text_or(value: &Option<String>, default: &str) -> (res: String)
    ensures
        res@ == (match *value {
            Some(text) => text@,
            None => default@,
        }),
{
    match value {
        Some(text) => text.clone(),
        None => String::from_str(default),
    }
}

/// Turns what was found on the command line into the arguments of the
/// program. The dictionary file defaults to `LSF.yaml`, the word to look up
/// to `bonjour`. The command line is refused exactly where the background
/// option comes with seconds that cannot be read, and the error says why
/// they cannot.
pub fn parse_arguments(matches: &Matches) -> (res: Result<Arguments, ArgumentsError>)
    ensures
        res is Ok <==> mode_of(*matches) is Ok,
        res matches Ok(arguments) ==> {
            &&& Ok::<Mode, ArgumentsError>(arguments.mode) == mode_of(*matches)
            &&& arguments.yaml@ == (match matches.yaml {
                Some(text) => text@,
                None => "LSF.yaml"@,
            })
            &&& arguments.video_word@ == (match matches.video {
                Some(text) => text@,
                None => "bonjour"@,
            })
            &&& arguments.description == matches.description
        },
        res matches Err(error) ==> Err::<Mode, ArgumentsError>(error) == mode_of(*matches),
{
    let mode = if matches.background_present {
        let seconds = match &matches.background {
            None => Ok(DEFAULT_SECONDS),
            Some(text) => parse_u64(text.as_str()),
        };
        match seconds {
            Ok(seconds) => Mode::Background(seconds),
            Err(error) => {
                return Err(ArgumentsError::Seconds(error));
            },
        }
    } else if matches.video_present {
        Mode::Video
    } else {
        Mode::TUI
    };
    Ok(
        Arguments {
            mode,
            yaml: text_or(&matches.yaml, "LSF.yaml"),
            video_word: text_or(&matches.video, "bonjour"),
            description: matches.description,
        },
    )
}

} // verus!
