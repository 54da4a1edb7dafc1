//! What the two tabs show: the numbers, positions and marks that the screen
//! is painted from. Painting itself is left to the caller.

use vstd::arithmetic::div_mod::{lemma_div_is_ordered, lemma_div_multiples_vanish};
use vstd::prelude::*;

use crate::selection::Focus;
use crate::tui_mode::{lemma_learning, SessionController, SessionView, Tab};

verus! {

/// The state of a word in the list of a learn session.
#[derive(Clone, Copy, Debug, PartialEq, Eq, Structural)]
pub enum WordState {
    Confirmed,
    Passed,
    Current,
    Next,
}

/// The state of the word at `position` of a learn set whose cursor is at
/// `current`: passed before the cursor, current under it, next behind it.
pub open spec fn word_state_at(position: nat, current: nat) -> WordState {
    if position < current {
        WordState::Passed
    } else if position == current {
        WordState::Current
    } else {
        WordState::Next
    }
}

/// How far a learn session has come, in percent: the part of the `total`
/// words that `word_index`, counted from zero, has reached.
pub open spec fn progression_percent(word_index: nat, total: nat) -> nat {
    ((word_index + 1) * 100) / total
}

/// The share of a side, in percent, that is left free on either side of a
/// centred part that takes `percent` of it.
pub open spec fn centered_margin_percent(percent: nat) -> nat {
    ((100 - percent) / 2) as nat
}

/// The whole seconds in `millis` milliseconds.
pub open spec fn whole_seconds(millis: nat) -> nat {
    millis / 1000
}

/// The tenths of a second that `millis` milliseconds hold beyond the whole
/// seconds.
pub open spec fn tenths_of_second(millis: nat) -> nat {
    (millis / 100) % 10
}

/// What the dictionary tab shows.
#[derive(Clone, Copy, Debug, PartialEq, Eq, Structural)]
pub struct DictionaryFrame {
    /// The category whose words fill the word list.
    pub categorie: usize,
    /// The entry highlighted in the list of categories.
    pub categorie_state: Option<usize>,
    /// The entry highlighted in the list of words.
    pub word_state: Option<usize>,
    /// The word whose name, description and link fill the information
    /// panel, by its position in the category.
    pub information: Option<usize>,
}

/// What the learn tab shows.
#[derive(Clone, Copy, Debug, PartialEq, Eq, Structural)]
pub struct LearnFrame {
    /// The word asked, by its position in the category.
    pub word: usize,
    /// Whether its description and link are shown with it.
    pub help: bool,
    /// The place of the word in the learn set, counted from one.
    pub position: usize,
    /// The number of words in the learn set.
    pub total: usize,
    /// Whole seconds since the session began.
    pub seconds: u64,
    /// Tenths of a second beyond them.
    pub tenths: u64,
    /// Filling of the progress bar, in percent.
    pub progression: u16,
    /// Whether the final pop-up is shown.
    pub done: bool,
}

/// What the screen shows: the one tab or the other.
#[derive(Clone, Copy, Debug, PartialEq, Eq, Structural)]
pub enum Frame {
    Dictionary(DictionaryFrame),
    Learn(LearnFrame),
}

/// What the dictionary tab shows of a session.
pub open spec fn dictionary_frame(s: SessionView) -> DictionaryFrame {
    DictionaryFrame {
        categorie: s.states.category_index as usize,
        categorie_state: Some(s.states.category_index as usize),
        word_state: match s.states.focus {
            Focus::Left => None,
            Focus::Right => Some(s.states.word_index as usize),
        },
        information: match s.current_word() {
            Some(position) => Some(position as usize),
            None => None,
        },
    }
}

/// What the learn tab shows of a session at time `now`.
pub open spec fn learn_frame(s: SessionView, now: u64) -> LearnFrame
    recommends
        s.learn is Some,
{
    LearnFrame {
        word: s.words_set()[s.states.word_index as int],
        help: s.help(),
        position: (s.states.word_index + 1) as usize,
        total: s.words_set().len() as usize,
        seconds: whole_seconds(s.elapsed(now)) as u64,
        tenths: tenths_of_second(s.elapsed(now)) as u64,
        progression: progression_percent(s.states.word_index, s.words_set().len()) as u16,
        done: s.states.done,
    }
}

/// What the screen shows of a session at time `now`: the tab that is open.
pub open spec fn frame_of(s: SessionView, now: u64) -> Frame {
    match s.learn {
        None => Frame::Dictionary(dictionary_frame(s)),
        Some(_) => Frame::Learn(learn_frame(s, now)),
    }
}

/// The time shown never runs backwards: of two times, the later one shows at
/// least as many whole seconds as the earlier one and, with the same whole
/// seconds, at least as many tenths.
pub proof fn lemma_shown_time_monotonic(earlier: nat, later: nat)
    requires
        earlier <= later,
    ensures
        whole_seconds(earlier) <= whole_seconds(later),
        whole_seconds(earlier) == whole_seconds(later) ==> tenths_of_second(earlier)
            <= tenths_of_second(later),
        tenths_of_second(earlier) < 10,
{
}

/// The time shown for a learn session never runs backwards between two
/// paintings of the same session.
pub proof fn lemma_learn_frames_keep_time(s: SessionView, earlier: u64, later: u64)
    requires
        earlier <= later,
    ensures
        learn_frame(s, earlier).seconds <= learn_frame(s, later).seconds,
        learn_frame(s, earlier).seconds == learn_frame(s, later).seconds ==> learn_frame(
            s,
            earlier,
        ).tenths <= learn_frame(s, later).tenths,
{
    lemma_shown_time_monotonic(s.elapsed(earlier), s.elapsed(later));
}

/// The state to list the word at `position` of a learn set with, the cursor
/// being at `current`.
pub fn word_state(position: usize, current: usize) -> (res: WordState)
    ensures
        res == word_state_at(position as nat, current as nat),
{
    if position < current {
        WordState::Passed
    } else if position == current {
        WordState::Current
    } else {
        WordState::Next
    }
}

/// Filling of the progress bar in percent, for the word at `word_index` of
/// `total` words.
pub fn progression(word_index: usize, total: usize) -> (res: u16)
    requires
        word_index < total,
    ensures
        res == progression_percent(word_index as nat, total as nat),
        res <= 100,
{
    let reached: u128 = (word_index as u128 + 1) * 100;
    let percent: u128 = reached / (total as u128);
    proof {
        lemma_div_is_ordered(reached as int, total as int * 100, total as int);
        lemma_div_multiples_vanish(100, total as int);
        assert(total as int * 100 == 100 * total as int);
    }
    percent as u16
}

/// The percentages that split a side into a centred part of `percent` and
/// two equal margins around it: margin, part, margin.
pub fn centered_constraints(percent: u16) -> (res: (u16, u16, u16))
    requires
        percent <= 100,
    ensures
        res.0 == centered_margin_percent(percent as nat),
        res.1 == percent,
        res.2 == centered_margin_percent(percent as nat),
{
    ((100 - percent) / 2, percent, (100 - percent) / 2)
}

/// Whole seconds and tenths of a second of a time given in milliseconds.
pub fn seconds_and_tenths(millis: u64) -> (res: (u64, u64))
    ensures
        res.0 == whole_seconds(millis as nat),
        res.1 == tenths_of_second(millis as nat),
        res.1 < 10,
{
    (millis / 1000, millis / 100 % 10)
}

/// What to paint for the dictionary tab.
fn dictionary(session: &SessionController) -> (res: DictionaryFrame)
    requires
        session@.tab() == Tab::Dictionary,
    ensures
        res == dictionary_frame(session@),
{
    let states = session.get_states();
    DictionaryFrame {
        categorie: states.get_categorie_index(),
        categorie_state: states.categorie_state(),
        word_state: states.word_state(),
        information: session.current_word(),
    }
}

/// What to paint for the learn tab at time `now`.
fn learn(session: &SessionController, now: u64) -> (res: LearnFrame)
    requires
        session@.tab() == Tab::Learn,
    ensures
        res == learn_frame(session@, now),
{
    let states = session.get_states();
    let words_set = session.get_words_set();
    let word_index = states.get_word_index();
    proof {
        lemma_learning(session@);
        assert(word_index < words_set.len());
    }
    let (seconds, tenths) = seconds_and_tenths(session.elapsed(now));
    LearnFrame {
        word: words_set[word_index],
        help: session.get_help(),
        position: word_index + 1,
        total: words_set.len(),
        seconds,
        tenths,
        progression: progression(word_index, words_set.len()),
        done: states.is_done(),
    }
}

/// What to paint for the dictionary tab; nothing while the learn tab is
/// open. The session is painted as it is: a reset that is due is made by
/// settling the session first, as a round of the loop does.
pub fn draw_dictionary(session: &SessionController) -> (res: Option<DictionaryFrame>)
    ensures
        res is Some <==> session@.tab() == Tab::Dictionary,
        res matches Some(frame) ==> frame == dictionary_frame(session@),
{
    match session.get_tab() {
        Tab::Dictionary => Some(dictionary(session)),
        Tab::Learn => None,
    }
}

/// What to paint for the learn tab at time `now`; nothing while the
/// dictionary tab is open.
pub fn draw_learn(session: &SessionController, now: u64) -> (res: Option<LearnFrame>)
    ensures
        res is Some <==> session@.tab() == Tab::Learn,
        res matches Some(frame) ==> frame == learn_frame(session@, now),
{
    match session.get_tab() {
        Tab::Dictionary => None,
        Tab::Learn => Some(learn(session, now)),
    }
}

/// What to paint of a session at time `now`: the tab that is open.
pub fn draw(session: &SessionController, now: u64) -> (res: Frame)
    ensures
        res == frame_of(session@, now),
{
    match session.get_tab() {
        Tab::Dictionary => Frame::Dictionary(dictionary(session)),
        Tab::Learn => Frame::Learn(learn(session, now)),
    }
}

} // verus!
