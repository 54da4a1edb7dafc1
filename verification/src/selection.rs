//! The navigation state: which category and which word are selected, which of
//! the two lists has the input focus, and whether a learn session is finished.

use vstd::arithmetic::div_mod::{
    lemma_add_mod_noop_right, lemma_mod_add_multiples_vanish, lemma_mod_bound,
    lemma_mod_sub_multiples_vanish, lemma_small_mod,
};
use vstd::prelude::*;

verus! {

/// The list that receives up/down navigation.
#[derive(Clone, Copy, Debug, PartialEq, Eq, Structural)]
pub enum Focus {
    /// The list of categories.
    Left,
    /// The list of words (or the learn set).
    Right,
}

/// Mathematical model of a [`Selection`].
pub struct SelectionView {
    /// Number of categories; fixed at construction.
    pub category_count: nat,
    /// Index of the selected category.
    pub category_index: nat,
    /// Length of the list that `word_index` ranges over.
    pub word_list_length: nat,
    /// Index of the selected word.
    pub word_index: nat,
    /// The list that has the input focus.
    pub focus: Focus,
    /// Whether the learn session was advanced past its last word.
    pub done: bool,
}

impl SelectionView {
    /// The invariant of the navigation state: the category index is in range,
    /// the word index is in range whenever the word list has the focus, and it
    /// rests at zero while the category list has it.
    pub open spec fn wf(self) -> bool {
        &&& self.category_index < self.category_count
        &&& match self.focus {
            Focus::Left => self.word_index == 0,
            Focus::Right => self.word_index < self.word_list_length,
        }
    }

    /// The state right after construction.
    pub open spec fn initial(category_count: nat) -> SelectionView {
        SelectionView {
            category_count,
            category_index: 0,
            word_list_length: 0,
            word_index: 0,
            focus: Focus::Left,
            done: false,
        }
    }

    /// Length of the list that has the focus.
    pub open spec fn focused_length(self) -> nat {
        match self.focus {
            Focus::Left => self.category_count,
            Focus::Right => self.word_list_length,
        }
    }

    /// Index selected in the list that has the focus.
    pub open spec fn focused_index(self) -> nat {
        match self.focus {
            Focus::Left => self.category_index,
            Focus::Right => self.word_index,
        }
    }

    /// The same state with another index in the focused list.
    pub open spec fn with_focused_index(self, index: nat) -> SelectionView {
        match self.focus {
            Focus::Left => SelectionView { category_index: index, ..self },
            Focus::Right => SelectionView { word_index: index, ..self },
        }
    }

    /// Focus on the category list; the word index goes back to zero.
    pub open spec fn focus_left(self) -> SelectionView {
        SelectionView { focus: Focus::Left, word_index: 0, ..self }
    }

    /// Focus on a word list of `length` entries; the word index is clamped
    /// into the list.
    pub open spec fn focus_right(self, length: nat) -> SelectionView {
        SelectionView {
            focus: Focus::Right,
            word_list_length: length,
            word_index: if self.word_index < length {
                self.word_index
            } else {
                (length - 1) as nat
            },
            ..self
        }
    }

    /// One step towards the end of the focused list; from its last entry to
    /// its first.
    pub open spec fn down(self) -> SelectionView {
        self.with_focused_index(
            if self.focused_index() + 1 == self.focused_length() {
                0
            } else {
                self.focused_index() + 1
            },
        )
    }

    /// One step towards the start of the focused list; from its first entry
    /// to its last.
    pub open spec fn up(self) -> SelectionView {
        self.with_focused_index(
            if self.focused_index() == 0 {
                (self.focused_length() - 1) as nat
            } else {
                (self.focused_index() - 1) as nat
            },
        )
    }

    /// The word index back at zero; focus and lengths untouched.
    pub open spec fn reset_word_index(self) -> SelectionView {
        SelectionView { word_index: 0, ..self }
    }

    /// The learn session marked as finished.
    pub open spec fn set_done(self) -> SelectionView {
        SelectionView { done: true, ..self }
    }

    /// Back to browsing: focus on the category list, word index at zero, the
    /// completion mark cleared. The selected category stays.
    pub open spec fn reset(self) -> SelectionView {
        SelectionView { focus: Focus::Left, word_index: 0, done: false, ..self }
    }

    /// The entry to highlight in the category list.
    pub open spec fn categorie_state(self) -> Option<nat> {
        Some(self.category_index)
    }

    /// The entry to highlight in the word list: none while the category list
    /// has the focus.
    pub open spec fn word_state(self) -> Option<nat> {
        match self.focus {
            Focus::Left => None,
            Focus::Right => Some(self.word_index),
        }
    }

    /// `down` applied `steps` times.
    pub open spec fn down_n(self, steps: nat) -> SelectionView
        decreases steps,
    {
        if steps == 0 {
            self
        } else {
            self.down().down_n((steps - 1) as nat)
        }
    }

    /// `up` applied `steps` times.
    pub open spec fn up_n(self, steps: nat) -> SelectionView
        decreases steps,
    {
        if steps == 0 {
            self
        } else {
            self.up().up_n((steps - 1) as nat)
        }
    }
}

/// The menu navigation state.
#[derive(Clone, Copy, Debug)]
pub struct Selection {
    cat_num: usize,
    word_num: usize,
    focus: Focus,
    words_len: usize,
    cat_len: usize,
    done: bool,
}

impl View for Selection {
    type V = SelectionView;

    closed spec fn view(&self) -> SelectionView {
        SelectionView {
            category_count: self.cat_len as nat,
            category_index: self.cat_num as nat,
            word_list_length: self.words_len as nat,
            word_index: self.word_num as nat,
            focus: self.focus,
            done: self.done,
        }
    }
}

impl Selection {
    /// Every selection is well formed.
    #[verifier::type_invariant]
    closed spec fn inv(&self) -> bool {
        self@.wf()
    }

    /// A selection over `size` categories: first category, focus on the
    /// category list, nothing done.
    pub fn new(size: usize) -> (res: Selection)
        requires
            size > 0,
        ensures
            res@ == SelectionView::initial(size as nat),
            res@.wf(),
    {
        Selection {
            cat_num: 0,
            word_num: 0,
            focus: Focus::Left,
            words_len: 0,
            cat_len: size,
            done: false,
        }
    }

    /// Change focus to the left chunk.
    pub fn focus_left(&mut self)
        ensures
            final(self)@ == old(self)@.focus_left(),
            final(self)@.wf(),
    {
        proof {
            use_type_invariant(&*self);
        }
        *self = Selection {
            cat_num: self.cat_num,
            word_num: 0,
            focus: Focus::Left,
            words_len: self.words_len,
            cat_len: self.cat_len,
            done: self.done,
        };
    }

    /// Change focus to the right chunk, over a list of `w_size` words.
    pub fn focus_right(&mut self, w_size: usize)
        requires
            w_size > 0,
        ensures
            final(self)@ == old(self)@.focus_right(w_size as nat),
            final(self)@.word_index < w_size,
            final(self)@.wf(),
    {
        proof {
            use_type_invariant(&*self);
        }
        let word_num: usize = if self.word_num < w_size {
            self.word_num
        } else {
            w_size - 1
        };
        *self = Selection {
            cat_num: self.cat_num,
            word_num,
            focus: Focus::Right,
            words_len: w_size,
            cat_len: self.cat_len,
            done: self.done,
        };
    }

    /// Move the selection to the item above, from the first to the last.
    pub fn up(&mut self)
        ensures
            final(self)@ == old(self)@.up(),
            final(self)@.wf(),
    {
        proof {
            use_type_invariant(&*self);
        }
        match self.focus {
            Focus::Left => {
                let cat_num: usize = if self.cat_num == 0 {
                    self.cat_len - 1
                } else {
                    self.cat_num - 1
                };
                *self = Selection {
                    cat_num,
                    word_num: self.word_num,
                    focus: self.focus,
                    words_len: self.words_len,
                    cat_len: self.cat_len,
                    done: self.done,
                };
            },
            Focus::Right => {
                let word_num: usize = if self.word_num == 0 {
                    self.words_len - 1
                } else {
                    self.word_num - 1
                };
                *self = Selection {
                    cat_num: self.cat_num,
                    word_num,
                    focus: self.focus,
                    words_len: self.words_len,
                    cat_len: self.cat_len,
                    done: self.done,
                };
            },
        }
    }

    /// Move the selection to the item below, from the last to the first.
    pub fn down(&mut self)
        ensures
            final(self)@ == old(self)@.down(),
            final(self)@.wf(),
    {
        proof {
            use_type_invariant(&*self);
        }
        match self.focus {
            Focus::Left => {
                let cat_num: usize = if self.cat_num + 1 == self.cat_len {
                    0
                } else {
                    self.cat_num + 1
                };
                *self = Selection {
                    cat_num,
                    word_num: self.word_num,
                    focus: self.focus,
                    words_len: self.words_len,
                    cat_len: self.cat_len,
                    done: self.done,
                };
            },
            Focus::Right => {
                let word_num: usize = if self.word_num + 1 == self.words_len {
                    0
                } else {
                    self.word_num + 1
                };
                *self = Selection {
                    cat_num: self.cat_num,
                    word_num,
                    focus: self.focus,
                    words_len: self.words_len,
                    cat_len: self.cat_len,
                    done: self.done,
                };
            },
        }
    }

    /// Put the word index back to zero, leaving focus and lengths alone.
    pub fn reset_word_index(&mut self)
        ensures
            final(self)@ == old(self)@.reset_word_index(),
            final(self)@.wf(),
    {
        proof {
            use_type_invariant(&*self);
        }
        *self = Selection {
            cat_num: self.cat_num,
            word_num: 0,
            focus: self.focus,
            words_len: self.words_len,
            cat_len: self.cat_len,
            done: self.done,
        };
    }

    /// Mark the learn session as finished.
    pub fn set_done(&mut self)
        ensures
            final(self)@ == old(self)@.set_done(),
            final(self)@.wf(),
    {
        proof {
            use_type_invariant(&*self);
        }
        *self = Selection {
            cat_num: self.cat_num,
            word_num: self.word_num,
            focus: self.focus,
            words_len: self.words_len,
            cat_len: self.cat_len,
            done: true,
        };
    }

    /// Whether the learn session is finished.
    pub fn is_done(&self) -> (res: bool)
        ensures
            res == self@.done,
    {
        self.done
    }

    /// Go back to browsing: focus on the left chunk, first word, nothing
    /// done. The selected category stays.
    pub fn reset(&mut self)
        ensures
            final(self)@ == old(self)@.reset(),
            final(self)@.wf(),
    {
        proof {
            use_type_invariant(&*self);
        }
        *self = Selection {
            cat_num: self.cat_num,
            word_num: 0,
            focus: Focus::Left,
            words_len: self.words_len,
            cat_len: self.cat_len,
            done: false,
        };
    }

    /// Getter for the actual categorie index.
    pub fn get_categorie_index(&self) -> (res: usize)
        ensures
            res == self@.category_index,
            res < self@.category_count,
    {
        proof {
            use_type_invariant(self);
        }
        self.cat_num
    }

    /// Getter for the actual word index.
    pub fn get_word_index(&self) -> (res: usize)
        ensures
            res == self@.word_index,
            self@.focus == Focus::Right ==> res < self@.word_list_length,
            self@.focus == Focus::Left ==> res == 0,
    {
        proof {
            use_type_invariant(self);
        }
        self.word_num
    }

    /// The chunk that has the focus.
    pub fn get_focus(&self) -> (res: Focus)
        ensures
            res == self@.focus,
    {
        self.focus
    }

    /// Number of categories the selection ranges over.
    pub fn get_categorie_count(&self) -> (res: usize)
        ensures
            res == self@.category_count,
            res > 0,
    {
        proof {
            use_type_invariant(self);
        }
        self.cat_len
    }

    /// Length of the word list the selection was last focused on.
    pub fn get_word_count(&self) -> (res: usize)
        ensures
            res == self@.word_list_length,
    {
        self.words_len
    }

    /// The entry to highlight in the list of categories.
    pub fn categorie_state(&self) -> (res: Option<usize>)
        ensures
            res matches Some(index) && self@.categorie_state() == Some(index as nat),
    {
        Some(self.cat_num)
    }

    /// The entry to highlight in the list of words, if that list has the
    /// focus.
    pub fn word_state(&self) -> (res: Option<usize>)
        ensures
            res is Some == self@.word_state() is Some,
            res matches Some(index) ==> self@.word_state() == Some(index as nat),
    {
        match self.focus {
            Focus::Left => None,
            Focus::Right => Some(self.word_num),
        }
    }
}

/// Stepping forward inside `0..len` with wrap-around is adding one modulo
/// `len`.
proof fn lemma_step_forward(index: int, len: int)
    requires
        0 <= index < len,
    ensures
        (index + 1) % len == (if index + 1 == len { 0 } else { index + 1 }),
{
    if index + 1 == len {
        lemma_mod_add_multiples_vanish(0, len);
        lemma_small_mod(0, len as nat);
    } else {
        lemma_small_mod((index + 1) as nat, len as nat);
    }
}

/// Stepping back inside `0..len` with wrap-around is subtracting one modulo
/// `len`.
proof fn lemma_step_back(index: int, len: int)
    requires
        0 <= index < len,
    ensures
        (len + index - 1) % len == (if index == 0 { len - 1 } else { index - 1 }),
{
    if index == 0 {
        lemma_small_mod((len - 1) as nat, len as nat);
    } else {
        lemma_mod_add_multiples_vanish(index - 1, len);
        lemma_small_mod((index - 1) as nat, len as nat);
        assert(len + index - 1 == len + (index - 1));
    }
}

/// The navigation law of the lists, downwards: a step down is an increment
/// modulo the length of the focused list.
pub proof fn lemma_down_is_modular(s: SelectionView)
    requires
        s.wf(),
    ensures
        s.down().wf(),
        s.down().focused_index() == (s.focused_index() + 1) as int % (s.focused_length() as int),
        s.down() == s.with_focused_index(s.down().focused_index()),
{
    lemma_step_forward(s.focused_index() as int, s.focused_length() as int);
}

/// The navigation law of the lists, upwards: a step up is a decrement modulo
/// the length of the focused list.
pub proof fn lemma_up_is_modular(s: SelectionView)
    requires
        s.wf(),
    ensures
        s.up().wf(),
        s.up().focused_index() == (s.focused_length() + s.focused_index() - 1) % (
        s.focused_length() as int),
        s.up() == s.with_focused_index(s.up().focused_index()),
{
    lemma_step_back(s.focused_index() as int, s.focused_length() as int);
}

/// Where `steps` steps down lead: to the index that lies `steps` further on,
/// counted around the focused list.
proof fn lemma_down_n(s: SelectionView, steps: nat)
    requires
        s.wf(),
    ensures
        s.down_n(steps) == s.with_focused_index(
            ((s.focused_index() as int + steps as int) % (s.focused_length() as int)) as nat,
        ),
    decreases steps,
{
    let len = s.focused_length() as int;
    let index = s.focused_index() as int;
    if steps == 0 {
        lemma_small_mod(index as nat, len as nat);
    } else {
        let next = s.down();
        lemma_down_is_modular(s);
        lemma_down_n(next, (steps - 1) as nat);
        lemma_add_mod_noop_right(steps - 1, index + 1, len);
        assert((steps - 1) + (index + 1) == index + steps);
        assert(next.focused_index() + (steps - 1) == (steps - 1) + ((index + 1) % len));
    }
}

/// Where `steps` steps up lead: to the index that lies `steps` back, counted
/// around the focused list.
proof fn lemma_up_n(s: SelectionView, steps: nat)
    requires
        s.wf(),
    ensures
        s.up_n(steps) == s.with_focused_index(
            ((s.focused_index() as int - steps as int) % (s.focused_length() as int)) as nat,
        ),
    decreases steps,
{
    let len = s.focused_length() as int;
    let index = s.focused_index() as int;
    if steps == 0 {
        lemma_small_mod(index as nat, len as nat);
    } else {
        let next = s.up();
        lemma_up_is_modular(s);
        lemma_mod_add_multiples_vanish(index - 1, len);
        assert(len + index - 1 == len + (index - 1));
        lemma_up_n(next, (steps - 1) as nat);
        lemma_add_mod_noop_right(-(steps - 1), index - 1, len);
        assert(-(steps - 1) + (index - 1) == index - steps);
        assert(next.focused_index() - (steps - 1) == -(steps - 1) + ((index - 1) % len));
        lemma_mod_bound(index - steps, len);
    }
}

/// Cyclic navigation downwards: as many steps down as the focused list is
/// long lead back to the entry the selection started from, whatever that
/// entry was.
pub proof fn lemma_down_cycle(s: SelectionView)
    requires
        s.wf(),
    ensures
        s.down_n(s.focused_length()) == s,
{
    let len = s.focused_length() as int;
    let index = s.focused_index() as int;
    lemma_down_n(s, s.focused_length());
    lemma_mod_add_multiples_vanish(index, len);
    lemma_small_mod(index as nat, len as nat);
    assert(index + len == len + index);
}

/// Cyclic navigation upwards: as many steps up as the focused list is long
/// lead back to the entry the selection started from, whatever that entry
/// was.
pub proof fn lemma_up_cycle(s: SelectionView)
    requires
        s.wf(),
    ensures
        s.up_n(s.focused_length()) == s,
{
    let len = s.focused_length() as int;
    let index = s.focused_index() as int;
    lemma_up_n(s, s.focused_length());
    lemma_mod_sub_multiples_vanish(index, len);
    lemma_small_mod(index as nat, len as nat);
    assert(index - len == -len + index);
}

} // verus!
