//! The background mode: every so often a word picked at random is announced.

use vstd::prelude::*;

use crate::loader::Word;
use crate::random::{gen_range, thread_rng};

verus! {

/// The name under which announcements are shown.
pub const APP_NAME: &'static str = "lsf-tui";

/// One announcement of the background mode.
#[derive(Debug)]
pub struct Announcement {
    /// The announced word, by its position among all words.
    pub word: usize,
    /// The headline: the name of the word.
    pub summary: String,
    /// The text below it: the description of the word, where it is wanted.
    pub body: Option<String>,
}

/// Whether `announcement` announces the word at position `word` of `words`,
/// with its description if `description` is set and without it otherwise.
pub open spec fn announces(
    announcement: Announcement,
    words: Seq<Word>,
    word: int,
    description: bool,
) -> bool {
    &&& announcement.word == word
    &&& announcement.summary@ == words[word].name@
    &&& announcement.body is Some == description
    &&& description ==> announcement.body->0@ == words[word].description@
}

/// The announcement of the word at position `word` of `all_words`.
pub fn announce(all_words: &Vec<Word>, word: usize, description: bool) -> (res: Announcement)
    requires
        word < all_words.len(),
    ensures
        announces(res, all_words@, word as int, description),
{
    let entry = &all_words[word];
    Announcement {
        word,
        summary: entry.name.clone(),
        body: if description {
            Some(entry.description.clone())
        } else {
            None
        },
    }
}

/// One round of the background mode: the announcement of a word picked at
/// random among `all_words`.
pub fn background_routine(all_words: &Vec<Word>, description: bool) -> (res: Announcement)
    requires
        all_words.len() > 0,
    ensures
        res.word < all_words.len(),
        announces(res, all_words@, res.word as int, description),
{
    let mut rng = thread_rng();
    let random_number = gen_range(&mut rng, all_words.len());
    announce(all_words, random_number, description)
}

} // verus!
