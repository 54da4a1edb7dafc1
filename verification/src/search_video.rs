//! The video mode: where to ask for the videos of a word, how to find them in
//! the page that comes back, which one the user chose, and when playing ends.

use vstd::prelude::*;
use vstd::string::StringExecFns;

use crate::text::{parse_usize, read_number, trim, trimmed, NumberError};

verus! {

/// The error with which `regex` refuses a pattern.
#[verifier::external_type_specification]
#[verifier::external_body]
pub struct ExRegexError(regex::Error);

/// The address under which the online dictionary shows a word.
pub const DICTIONARY: &'static str = "https://dico.elix-lsf.fr/dictionnaire/";

/// The pattern of a video on a page of the online dictionary; its first
/// group is the address of the video.
pub const VIDEO_PATTERN: &'static str = "<video src=\"(https://www.elix-lsf.fr/.+?mp4)\"></video>";

/// Whether `regex::Regex::new` accepts `pattern`.
pub uninterp spec fn regex_accepts(pattern: Seq<char>) -> bool;

/// For each of the successive matches of `pattern` in `haystack` that do not
/// overlap, as `regex::Regex::captures_iter` finds them, the text that the
/// group of number `group` captured, if the group took part in the match.
pub uninterp spec fn regex_captures(pattern: Seq<char>, haystack: Seq<char>, group: nat) -> Seq<
    Option<Seq<char>>,
>;

/// Why no videos come out of a page.
#[derive(Clone, Copy, Debug, PartialEq, Eq, Structural)]
pub enum SearchError {
    /// The pattern was not accepted.
    Pattern,
    /// A match of the pattern came without the group that was asked for.
    Group,
}

/// What follows from the answer of the user to the list of videos.
#[derive(Clone, Copy, Debug, PartialEq, Eq, Structural)]
pub enum Choice {
    /// There is no video to choose from.
    Nothing,
    /// The answer is no number, and why.
    NotANumber(NumberError),
    /// The answer is the number of no video.
    Invalid,
    /// The video of this number is to be played.
    Play(usize),
}

/// What the player reports while a video is played.
#[derive(Clone, Copy, Debug, PartialEq, Eq, Structural)]
pub enum Message {
    /// The video has ended.
    Eos,
    /// Something changed its state: whether it was the player itself, and
    /// whether it is playing now.
    StateChanged { player: bool, playing: bool },
    /// Anything else.
    Other,
}

/// What to do about a report of the player.
#[derive(Clone, Copy, Debug, PartialEq, Eq, Structural)]
pub enum Playback {
    /// Stop listening: the video is over.
    Stop,
    /// Write the graph of the player out for debugging, and go on.
    Dump,
    /// Go on.
    Continue,
}

/// The answers in `found` if every match gave one, in their order.
pub open spec fn addresses(found: Seq<Option<Seq<char>>>) -> Option<Seq<Seq<char>>> {
    if forall|i: int| 0 <= i < found.len() ==> (#[trigger] found[i]) is Some {
        Some(Seq::new(found.len(), |i: int| found[i]->0))
    } else {
        None
    }
}

/// The texts that a search found, or an error where a match came without
/// one.
pub open spec fn videos_of(found: Seq<Option<Seq<char>>>) -> Result<Seq<Seq<char>>, SearchError> {
    match addresses(found) {
        Some(videos) => Ok(videos),
        None => Err(SearchError::Group),
    }
}

/// What the group of number `group` captured in each match of `pattern` in
/// `haystack`, or why nothing comes out: the pattern was not accepted, or a
/// match came without the group.
pub open spec fn searched(pattern: Seq<char>, haystack: Seq<char>, group: nat) -> Result<
    Seq<Seq<char>>,
    SearchError,
> {
    if regex_accepts(pattern) {
        videos_of(regex_captures(pattern, haystack, group))
    } else {
        Err(SearchError::Pattern)
    }
}

/// The videos on the page `body`: what the first group of the pattern of a
/// video captured in each of its matches.
pub open spec fn videos_on(body: Seq<char>) -> Result<Seq<Seq<char>>, SearchError> {
    searched(VIDEO_PATTERN@, body, 1)
}

/// The outcome of a search with each address taken as the text it holds.
pub open spec fn outcome_view(outcome: Result<Vec<String>, SearchError>) -> Result<
    Seq<Seq<char>>,
    SearchError,
> {
    match outcome {
        Ok(videos) => Ok(videos.deep_view()),
        Err(error) => Err(error),
    }
}

/// What follows from the answer `input` to a list of `count` videos: the
/// answer is read without the white space around it, as a decimal number.
pub open spec fn choice_of(count: nat, input: Seq<char>) -> Choice {
    if count == 0 {
        Choice::Nothing
    } else {
        match read_number(trimmed(input), usize::MAX as nat) {
            Ok(number) => if number < count {
                Choice::Play(number as usize)
            } else {
                Choice::Invalid
            },
            Err(error) => Choice::NotANumber(error),
        }
    }
}

/// What to do about a report of the player: stop at the end of the video,
/// dump the graph when the player itself starts playing, go on otherwise.
pub open spec fn playback_of(message: Message) -> Playback {
    match message {
        Message::Eos => Playback::Stop,
        Message::StateChanged { player: true, playing: true } => Playback::Dump,
        _ => Playback::Continue,
    }
}

/// `regex::Regex::new` on `pattern`, then `regex::Regex::captures_iter` on
/// `haystack` and, for each match, `regex::Captures::get` with `group`.
/// The error of the crate comes back where the pattern is not accepted.
/// Otherwise there is one entry for each match, in the order of the matches:
/// the text of the group, or nothing where the group took no part in the
/// match.
#[verifier::external_body]
fn captures(pattern: &str, haystack: &str, group: usize) -> (res: Result<
    Vec<Option<String>>,
    regex::Error,
>)
    ensures
        res is Ok == regex_accepts(pattern@),
        res matches Ok(found) ==> found.deep_view() == regex_captures(
            pattern@,
            haystack@,
            group as nat,
        ),
{
    let re = regex::Regex::new(pattern)?;
    Ok(re.captures_iter(haystack).map(|c| c.get(group).map(|m| m.as_str().to_string())).collect())
}

/// The address of the page of the online dictionary on `word`.
pub fn query_link(word: &str) -> (res: String)
    ensures
        res@ == DICTIONARY@ + word@,
{
    String::from_str(DICTIONARY).concat(word)
}

/// The texts that a search found, in the order in which it found them.
/// Fails where a match came without one.
pub fn collect_videos(found: Vec<Option<String>>) -> (res: Result<Vec<String>, SearchError>)
    ensures
        outcome_view(res) == videos_of(found.deep_view()),
{
    let mut videos: Vec<String> = Vec::new();
    let mut i: usize = 0;
    while i < found.len()
        invariant
            i <= found.len(),
            videos.len() == i,
            forall|k: int| 0 <= k < i ==> (#[trigger] found[k]) is Some,
            forall|k: int| 0 <= k < i ==> (#[trigger] videos[k])@ == found[k]->0@,
        decreases found.len() - i,
    {
        match &found[i] {
            Some(video) => {
                videos.push(video.clone());
            },
            None => {
                proof {
                    assert(found.deep_view()[i as int] is None);
                }
                return Err(SearchError::Group);
            },
        }
        i += 1;
    }
    proof {
        let texts = found.deep_view();
        assert forall|k: int| 0 <= k < texts.len() implies (#[trigger] texts[k]) is Some by {
            assert(found[k] is Some);
        }
        assert(videos.deep_view() =~= addresses(texts)->0);
    }
    Ok(videos)
}

/// What the group of number `group` captured in each match of `pattern` in
/// `haystack`, in the order of the matches. Fails where the pattern is not
/// accepted, and where a match came without the group.
pub fn search(pattern: &str, haystack: &str, group: usize) -> (res: Result<
    Vec<String>,
    SearchError,
>)
    ensures
        outcome_view(res) == searched(pattern@, haystack@, group as nat),
{
    match captures(pattern, haystack, group) {
        Ok(found) => collect_videos(found),
        Err(_) => Err(SearchError::Pattern),
    }
}

/// The addresses of the videos on a page of the online dictionary, in the
/// order in which they stand on it.
pub fn query_videos(body: &str) -> (res: Result<Vec<String>, SearchError>)
    ensures
        outcome_view(res) == videos_on(body@),
{
    search(VIDEO_PATTERN, body, 1)
}

/// What follows from the answer `input` of the user to the list of `urls`.
pub fn select_videos(urls: &Vec<String>, input: &str) -> (res: Choice)
    ensures
        res == choice_of(urls.len() as nat, input@),
        res matches Choice::Play(number) ==> number < urls.len(),
{
    if urls.is_empty() {
        return Choice::Nothing;
    }
    let input_num: usize = match parse_usize(trim(input)) {
        Ok(n) => n,
        Err(e) => {
            return Choice::NotANumber(e);
        },
    };
    if input_num >= urls.len() {
        return Choice::Invalid;
    }
    Choice::Play(input_num)
}

/// What to do about a report of the player while a video is played.
pub fn play_video(message: Message) -> (res: Playback)
    ensures
        res == playback_of(message),
{
    match message {
        Message::Eos => Playback::Stop,
        Message::StateChanged { player, playing } => if player && playing {
            Playback::Dump
        } else {
            Playback::Continue
        },
        Message::Other => Playback::Continue,
    }
}

} // verus!
