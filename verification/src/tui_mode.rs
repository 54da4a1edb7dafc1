//! The session controller: the two tabs of the interface, the keys that act
//! in each of them, and the learn session that lives while the second tab is
//! open.

use vstd::prelude::*;

use crate::draw::{draw, frame_of, Frame};
use crate::event::{Event, Key};
use crate::loader::{Categorie, Word};
use crate::random::{shuffle, thread_rng};
use crate::selection::{Focus, Selection, SelectionView};

verus! {

/// The two tabs of the interface.
#[derive(Clone, Copy, Debug, PartialEq, Eq, Structural)]
pub enum Tab {
    /// Browsing categories and words.
    Dictionary,
    /// Going through the shuffled words of one category.
    Learn,
}

/// What the session loop does after an event.
#[derive(Clone, Copy, Debug, PartialEq, Eq, Structural)]
pub enum UpdateState {
    Stop,
    Continue,
}

/// What the session loop does after `event`: it stops behind the key `q` and
/// goes on otherwise.
pub open spec fn stops(event: Event<Key>) -> UpdateState {
    match event {
        Event::Input(input) if input.is_quit() => UpdateState::Stop,
        _ => UpdateState::Continue,
    }
}

/// The positions `0, 1, .., n - 1` in their natural order.
pub open spec fn identity_order(n: nat) -> Seq<usize> {
    Seq::new(n, |i: int| i as usize)
}

/// Whether `order` holds each of the positions `0, 1, .., n - 1` exactly
/// once.
pub open spec fn is_permutation(order: Seq<usize>, n: nat) -> bool {
    order.to_multiset() == identity_order(n).to_multiset()
}

/// The words that a learn set refers to, in the order of the set.
pub open spec fn learn_words(words: Seq<Word>, order: Seq<usize>) -> Seq<Word> {
    Seq::new(order.len(), |i: int| words[order[i] as int])
}

/// Mathematical model of the state that lives while the learn tab is open.
pub struct LearnView {
    /// Positions of the words of the category, shuffled.
    pub words_set: Seq<usize>,
    /// The time at which the session began, in milliseconds.
    pub begin: u64,
    /// Whether description and link of the current word are shown.
    pub help: bool,
}

/// Mathematical model of a [`SessionController`].
pub struct SessionView {
    /// The dictionary the session runs over.
    pub categories: Seq<Categorie>,
    /// The navigation state.
    pub states: SelectionView,
    /// The learn session, present exactly while the learn tab is open.
    pub learn: Option<LearnView>,
    /// Whether the selection is still to be reset: so it is from the moment
    /// the learn tab is left until the dictionary tab is next painted.
    pub reset_due: bool,
}

impl SessionView {
    /// The tab that is open.
    pub open spec fn tab(self) -> Tab {
        if self.learn is Some {
            Tab::Learn
        } else {
            Tab::Dictionary
        }
    }

    /// The words of the selected category.
    pub open spec fn selected_words(self) -> Seq<Word> {
        self.categories[self.states.category_index as int].words@
    }

    /// The invariant of a session: the selection ranges over the categories;
    /// a focused word list is the one of the selected category; while
    /// browsing, a completion mark is one that the reset still due will
    /// clear; while learning no reset is due, the word list has the focus and
    /// the learn set is a permutation of the category's words.
    pub open spec fn wf(self) -> bool {
        &&& self.states.wf()
        &&& self.states.category_count == self.categories.len()
        &&& self.states.focus == Focus::Right ==> self.states.word_list_length
            == self.selected_words().len()
        &&& match self.learn {
            None => self.states.done ==> self.reset_due,
            Some(learn) => {
                &&& !self.reset_due
                &&& self.states.focus == Focus::Right
                &&& is_permutation(learn.words_set, self.selected_words().len())
            },
        }
    }

    /// Whether the session is as a round of the loop leaves it: well formed,
    /// with no reset due, and marked done only on the last word of a learn
    /// session.
    pub open spec fn at_rest(self) -> bool {
        &&& self.wf()
        &&& !self.reset_due
        &&& self.states.done ==> self.learn is Some && self.states.word_index + 1
            == self.states.word_list_length
    }

    /// A fresh session: dictionary tab, first category, focus on the left.
    pub open spec fn initial(categories: Seq<Categorie>) -> SessionView {
        SessionView {
            categories,
            states: SelectionView::initial(categories.len()),
            learn: None,
            reset_due: false,
        }
    }

    /// Whether `input` opens the learn tab: the key `2` in the dictionary
    /// tab, on a category that has words.
    pub open spec fn opens_learn(self, input: Key) -> bool {
        &&& self.learn is None
        &&& input == Key::Char('2')
        &&& self.selected_words().len() > 0
    }

    /// The session after the learn tab was opened with the shuffled positions
    /// `order` at time `now`: first word of the set, focus on the word list,
    /// help hidden.
    pub open spec fn start_learn(self, order: Seq<usize>, now: u64) -> SessionView {
        SessionView {
            states: self.states.reset_word_index().focus_right(order.len()),
            learn: Some(LearnView { words_set: order, begin: now, help: false }),
            reset_due: false,
            ..self
        }
    }

    /// Whether `after` is this session with the learn tab opened at time `now`
    /// on some permutation of the words of the selected category.
    pub open spec fn learn_opened(self, after: SessionView, now: u64) -> bool {
        &&& after.learn is Some
        &&& is_permutation(after.learn->0.words_set, self.selected_words().len())
        &&& after == self.start_learn(after.learn->0.words_set, now)
    }

    /// The session after a key in the dictionary tab, for every key but the
    /// one that opens the learn tab. `j` and `k` move down and up, `h` and
    /// `l` focus left and right; `l` on a category without words and every
    /// other key change nothing.
    pub open spec fn input_tab_one(self, input: Key) -> SessionView {
        match input {
            Key::Char('j') => SessionView { states: self.states.down(), ..self },
            Key::Char('k') => SessionView { states: self.states.up(), ..self },
            Key::Char('h') => SessionView { states: self.states.focus_left(), ..self },
            Key::Char('l') => if self.selected_words().len() > 0 {
                SessionView {
                    states: self.states.focus_right(self.selected_words().len()),
                    ..self
                }
            } else {
                self
            },
            _ => self,
        }
    }

    /// The session after a key in the learn tab. `1` goes back to the
    /// dictionary and drops the learn session; the selection stays as it is,
    /// completion mark and word index included, and its reset falls due. `n`
    /// advances to the next word and hides the help, or marks the session
    /// done on the last word; `h` shows or hides the help; every other key
    /// changes nothing.
    pub open spec fn input_tab_two(self, input: Key) -> SessionView
        recommends
            self.learn is Some,
    {
        let learn = self.learn->0;
        match input {
            Key::Char('1') => SessionView { learn: None, reset_due: true, ..self },
            Key::Char('n') => if self.states.word_index + 1 < learn.words_set.len() {
                SessionView {
                    states: self.states.down(),
                    learn: Some(LearnView { help: false, ..learn }),
                    ..self
                }
            } else {
                SessionView { states: self.states.set_done(), ..self }
            },
            Key::Char('h') => SessionView {
                learn: Some(LearnView { help: !learn.help, ..learn }),
                ..self
            },
            _ => self,
        }
    }

    /// The session after a key that does not open the learn tab.
    pub open spec fn press(self, input: Key) -> SessionView {
        match self.learn {
            None => self.input_tab_one(input),
            Some(_) => self.input_tab_two(input),
        }
    }

    /// Whether `after` is this session after `event` came in at time `now`. A
    /// tick changes nothing. A key that opens the learn tab opens it on some
    /// permutation of the words; every other key acts as `press` says.
    pub open spec fn updated(self, event: Event<Key>, after: SessionView, now: u64) -> bool {
        match event {
            Event::Tick => after == self,
            Event::Input(input) => if self.opens_learn(input) {
                self.learn_opened(after, now)
            } else {
                after == self.press(input)
            },
        }
    }

    /// The session as painting leaves it: a reset that is due is made, which
    /// puts the focus on the list of categories, the word index to zero and
    /// clears the completion mark. Without a reset due nothing changes.
    pub open spec fn settle(self) -> SessionView {
        if self.learn is None && self.reset_due {
            SessionView { states: self.states.reset(), reset_due: false, ..self }
        } else {
            self
        }
    }

    /// Whether `after` is this session after one round of the loop at time
    /// `now`, in which `received` came in, if anything did. Behind the key
    /// `q` the loop stops and nothing changes. Otherwise the event is applied
    /// as `updated` says, and then the session is settled for painting.
    pub open spec fn rounded(
        self,
        received: Option<Event<Key>>,
        after: SessionView,
        now: u64,
    ) -> bool {
        match received {
            Some(Event::Input(input)) => if input.is_quit() {
                after == self
            } else if self.opens_learn(input) {
                self.learn_opened(after, now)
            } else {
                after == self.press(input).settle()
            },
            _ => after == self.settle(),
        }
    }

    /// The same key pressed `times` times, none of them opening the learn
    /// tab.
    pub open spec fn press_n(self, input: Key, times: nat) -> SessionView
        decreases times,
    {
        if times == 0 {
            self
        } else {
            self.press(input).press_n(input, (times - 1) as nat)
        }
    }

    /// The time spent in the learn session at time `now`, in milliseconds:
    /// the distance from its beginning, and zero before it or outside a
    /// session.
    pub open spec fn elapsed(self, now: u64) -> nat {
        match self.learn {
            Some(learn) if now >= learn.begin => (now - learn.begin) as nat,
            _ => 0,
        }
    }

    /// The positions of the learn set; empty outside a learn session.
    pub open spec fn words_set(self) -> Seq<usize> {
        match self.learn {
            Some(learn) => learn.words_set,
            None => Seq::empty(),
        }
    }

    /// Whether description and link of the current word are shown; never
    /// outside a learn session.
    pub open spec fn help(self) -> bool {
        match self.learn {
            Some(learn) => learn.help,
            None => false,
        }
    }

    /// Position, among the words of the selected category, of the word under
    /// the cursor: while browsing the word index itself, while learning the
    /// entry of the learn set at the word index. None where the category has
    /// no words.
    pub open spec fn current_word(self) -> Option<nat> {
        match self.learn {
            Some(learn) => Some(learn.words_set[self.states.word_index as int] as nat),
            None => if self.states.word_index < self.selected_words().len() {
                Some(self.states.word_index)
            } else {
                None
            },
        }
    }

    /// The words of the learn session in the order in which they are asked.
    pub open spec fn learn_words(self) -> Seq<Word>
        recommends
            self.learn is Some,
    {
        learn_words(self.selected_words(), self.learn->0.words_set)
    }
}

/// The state of an interactive session over a dictionary.
pub struct SessionController<'a> {
    categories: &'a Vec<Categorie>,
    states: Selection,
    tab: Tab,
    words_set: Vec<usize>,
    begin: u64,
    help: bool,
    reset_due: bool,
}

impl<'a> View for SessionController<'a> {
    type V = SessionView;

    closed spec fn view(&self) -> SessionView {
        SessionView {
            categories: self.categories@,
            states: self.states@,
            learn: match self.tab {
                Tab::Dictionary => None,
                Tab::Learn => Some(
                    LearnView { words_set: self.words_set@, begin: self.begin, help: self.help },
                ),
            },
            reset_due: self.reset_due,
        }
    }
}

/// The positions `0, 1, .., n - 1` in their natural order.
fn natural_order(n: usize) -> (order: Vec<usize>)
    ensures
        order@ == identity_order(n as nat),
{
    let mut order: Vec<usize> = Vec::new();
    let mut i: usize = 0;
    while i < n
        invariant
            i <= n,
            order@ == identity_order(i as nat),
        decreases n - i,
    {
        order.push(i);
        i += 1;
    }
    order
}

impl<'a> SessionController<'a> {
    /// Every session is well formed, and while browsing its learn set is
    /// empty and its help hidden.
    #[verifier::type_invariant]
    closed spec fn inv(&self) -> bool {
        &&& self@.wf()
        &&& self.tab == Tab::Dictionary ==> self.words_set@.len() == 0 && !self.help
    }

    /// A session over `categories`: dictionary tab, first category, focus on
    /// the list of categories.
    pub fn new(categories: &'a Vec<Categorie>) -> (res: SessionController<'a>)
        requires
            categories.len() > 0,
        ensures
            res@ == SessionView::initial(categories@),
            res@.wf(),
    {
        SessionController {
            categories,
            states: Selection::new(categories.len()),
            tab: Tab::Dictionary,
            words_set: Vec::new(),
            begin: 0,
            help: false,
            reset_due: false,
        }
    }

    /// The tab that is open.
    pub fn get_tab(&self) -> (res: Tab)
        ensures
            res == self@.tab(),
            self@.wf(),
    {
        proof {
            use_type_invariant(self);
        }
        self.tab
    }

    /// The navigation state.
    pub fn get_states(&self) -> (res: &Selection)
        ensures
            res@ == self@.states,
            self@.wf(),
    {
        proof {
            use_type_invariant(self);
        }
        &self.states
    }

    /// The dictionary the session runs over.
    pub fn get_categories(&self) -> (res: &'a Vec<Categorie>)
        ensures
            res@ == self@.categories,
            res@.len() > 0,
    {
        proof {
            use_type_invariant(self);
        }
        self.categories
    }

    /// The selected category.
    pub fn get_categorie(&self) -> (res: &'a Categorie)
        ensures
            *res == self@.categories[self@.states.category_index as int],
            res.words@ == self@.selected_words(),
    {
        proof {
            use_type_invariant(self);
        }
        &self.categories[self.states.get_categorie_index()]
    }

    /// The shuffled positions of the learn session; empty while browsing.
    pub fn get_words_set(&self) -> (res: &Vec<usize>)
        ensures
            res@ == self@.words_set(),
    {
        proof {
            use_type_invariant(self);
            assert(self.tab == Tab::Dictionary ==> self.words_set@ =~= Seq::empty());
        }
        &self.words_set
    }

    /// Whether description and link of the current word are to be shown.
    pub fn get_help(&self) -> (res: bool)
        ensures
            res == self@.help(),
    {
        proof {
            use_type_invariant(self);
        }
        self.help
    }

    /// Whether the selection is still to be reset when the dictionary tab is
    /// next painted.
    pub fn get_reset_due(&self) -> (res: bool)
        ensures
            res == self@.reset_due,
    {
        self.reset_due
    }

    /// Settles the session for painting: a reset of the selection that is
    /// due since the learn tab was left is made now.
    pub fn settle(&mut self)
        ensures
            final(self)@ == old(self)@.settle(),
            final(self)@.wf(),
    {
        proof {
            use_type_invariant(&*self);
        }
        if self.reset_due {
            let mut states = self.states;
            states.reset();
            *self = SessionController {
                categories: self.categories,
                states,
                tab: Tab::Dictionary,
                words_set: Vec::new(),
                begin: 0,
                help: false,
                reset_due: false,
            };
        }
    }

    /// Milliseconds spent in the learn session at time `now`.
    pub fn elapsed(&self, now: u64) -> (res: u64)
        ensures
            res == self@.elapsed(now),
    {
        match self.tab {
            Tab::Learn => if now >= self.begin {
                now - self.begin
            } else {
                0
            },
            Tab::Dictionary => 0,
        }
    }

    /// Position, among the words of the selected category, of the word under
    /// the cursor, if the category has words.
    pub fn current_word(&self) -> (res: Option<usize>)
        ensures
            res is Some == self@.current_word() is Some,
            res matches Some(position) ==> {
                &&& self@.current_word() == Some(position as nat)
                &&& position < self@.selected_words().len()
            },
    {
        proof {
            use_type_invariant(self);
            if self.tab == Tab::Learn {
                lemma_learning(self@);
            }
        }
        let index = self.states.get_word_index();
        match self.tab {
            Tab::Learn => Some(self.words_set[index]),
            Tab::Dictionary => if index < self.get_categorie().words.len() {
                Some(index)
            } else {
                None
            },
        }
    }

    /// Opens the learn tab on the selected category with the words in the
    /// given order.
    pub fn start_learn(&mut self, order: Vec<usize>, now: u64)
        requires
            old(self)@.learn is None,
            old(self)@.selected_words().len() > 0,
            is_permutation(order@, old(self)@.selected_words().len()),
        ensures
            final(self)@ == old(self)@.start_learn(order@, now),
            final(self)@.wf(),
    {
        proof {
            use_type_invariant(&*self);
            lemma_permutation_in_range(order@, self@.selected_words().len());
        }
        let mut states = self.states;
        states.reset_word_index();
        states.focus_right(order.len());
        *self = SessionController {
            categories: self.categories,
            states,
            tab: Tab::Learn,
            words_set: order,
            begin: now,
            help: false,
            reset_due: false,
        };
    }

    /// Opens the learn tab on the selected category, its words shuffled, if
    /// the dictionary tab is open and the category has words. Says whether it
    /// did; if not, nothing changes.
    pub fn enter_learn(&mut self, now: u64) -> (entered: bool)
        ensures
            entered == old(self)@.opens_learn(Key::Char('2')),
            entered ==> old(self)@.learn_opened(final(self)@, now),
            !entered ==> final(self)@ == old(self)@,
            final(self)@.wf(),
    {
        proof {
            use_type_invariant(&*self);
        }
        let count = self.categories[self.states.get_categorie_index()].words.len();
        if self.tab == Tab::Learn || count == 0 {
            return false;
        }
        let mut rng = thread_rng();
        let mut order = natural_order(count);
        shuffle(&mut order, &mut rng);
        self.start_learn(order, now);
        true
    }

    /// Handles a key in the dictionary tab.
    pub fn input_tab_one(&mut self, input: Key, now: u64) -> (res: UpdateState)
        requires
            old(self)@.learn is None,
        ensures
            res == (if input.is_quit() {
                UpdateState::Stop
            } else {
                UpdateState::Continue
            }),
            old(self)@.opens_learn(input) ==> old(self)@.learn_opened(final(self)@, now),
            !old(self)@.opens_learn(input) ==> final(self)@ == old(self)@.input_tab_one(input),
            final(self)@.wf(),
    {
        proof {
            use_type_invariant(&*self);
        }
        match input {
            // Change tabs
            Key::Char('2') => {
                self.enter_learn(now);
            },
            // Quit
            Key::Char('q') => {
                return UpdateState::Stop;
            },
            // Move selection
            Key::Char('j') => {
                let mut states = self.states;
                states.down();
                self.states = states;
            },
            Key::Char('k') => {
                let mut states = self.states;
                states.up();
                self.states = states;
            },
            Key::Char('h') => {
                let mut states = self.states;
                states.focus_left();
                self.states = states;
            },
            Key::Char('l') => {
                let count = self.categories[self.states.get_categorie_index()].words.len();
                if count > 0 {
                    let mut states = self.states;
                    states.focus_right(count);
                    self.states = states;
                }
            },
            _ => {},
        }
        UpdateState::Continue
    }

    /// Handles a key in the learn tab. The key `1` only changes the tab and
    /// drops the learn session: the selection, completion mark included, stays
    /// until the session is settled for painting.
    pub fn input_tab_two(&mut self, input: Key) -> (res: UpdateState)
        requires
            old(self)@.learn is Some,
        ensures
            res == (if input.is_quit() {
                UpdateState::Stop
            } else {
                UpdateState::Continue
            }),
            final(self)@ == old(self)@.input_tab_two(input),
            final(self)@.wf(),
    {
        proof {
            use_type_invariant(&*self);
            lemma_learning(self@);
        }
        match input {
            // Change tabs
            Key::Char('1') => {
                *self = SessionController {
                    categories: self.categories,
                    states: self.states,
                    tab: Tab::Dictionary,
                    words_set: Vec::new(),
                    begin: 0,
                    help: false,
                    reset_due: true,
                };
            },
            // Quit
            Key::Char('q') => {
                return UpdateState::Stop;
            },
            // Change word index in learn
            Key::Char('n') => {
                if self.states.get_word_index() < self.words_set.len() - 1 {
                    let mut states = self.states;
                    states.down();
                    self.states = states;
                    self.help = false;
                } else {
                    let mut states = self.states;
                    states.set_done();
                    self.states = states;
                }
            },
            // Display help in learn
            Key::Char('h') => {
                self.help = !self.help;
            },
            _ => {},
        }
        UpdateState::Continue
    }

    /// Applies one event to the session and says whether the loop goes on.
    /// A tick changes nothing; a key acts according to the open tab; the key
    /// `q` stops the loop from either tab.
    pub fn update(&mut self, event: Event<Key>, now: u64) -> (res: UpdateState)
        ensures
            old(self)@.updated(event, final(self)@, now),
            res == stops(event),
            final(self)@.wf(),
    {
        proof {
            use_type_invariant(&*self);
        }
        match event {
            Event::Input(input) => match self.tab {
                Tab::Dictionary => self.input_tab_one(input, now),
                Tab::Learn => self.input_tab_two(input),
            },
            Event::Tick => UpdateState::Continue,
        }
    }
}

/// One round of the session loop: what was received, if anything was, is
/// applied to the session; unless that stops the loop, the session is settled
/// and the screen to paint comes back. Nothing comes back exactly behind the
/// key `q`.
pub fn tui_routine(session: &mut SessionController, received: Option<Event<Key>>, now: u64) -> (res:
    Option<Frame>)
    ensures
        old(session)@.rounded(received, final(session)@, now),
        res is None <==> (received matches Some(event) && stops(event) == UpdateState::Stop),
        res matches Some(frame) ==> frame == frame_of(final(session)@, now),
        final(session)@.wf(),
{
    proof {
        use_type_invariant(&*session);
    }
    let state = match received {
        Some(event) => session.update(event, now),
        None => UpdateState::Continue,
    };
    match state {
        UpdateState::Stop => None,
        UpdateState::Continue => {
            session.settle();
            Some(draw(session, now))
        },
    }
}

/// Two sequences with the same entries, each as often in the one as in the
/// other, still have the same entries after the same function was applied to
/// every entry.
proof fn lemma_map_keeps_multiset<A, B>(left: Seq<A>, right: Seq<A>, f: spec_fn(A) -> B)
    requires
        left.to_multiset() == right.to_multiset(),
    ensures
        left.map_values(f).to_multiset() == right.map_values(f).to_multiset(),
    decreases left.len(),
{
    left.to_multiset_ensures();
    right.to_multiset_ensures();
    if left.len() == 0 {
        assert(left.map_values(f) =~= right.map_values(f));
    } else {
        let x = left.last();
        let rest = left.drop_last();
        assert(left == rest.push(x));
        assert(left[left.len() - 1] == x);
        assert(left.to_multiset().count(x) > 0);
        assert(right.to_multiset().count(x) > 0);
        assert(right.contains(x));
        let p = choose|p: int| 0 <= p < right.len() && right[p] == x;
        let others = right.remove(p);
        rest.to_multiset_ensures();
        assert(others.to_multiset() =~= rest.to_multiset());
        lemma_map_keeps_multiset(rest, others, f);
        let left_mapped = left.map_values(f);
        let right_mapped = right.map_values(f);
        assert(left_mapped == rest.map_values(f).push(f(x)));
        assert(right_mapped.remove(p) == others.map_values(f));
        rest.map_values(f).to_multiset_ensures();
        right_mapped.to_multiset_ensures();
        assert(right_mapped[p] == f(x));
        assert(right_mapped.contains(f(x)));
        assert(left_mapped.to_multiset() =~= right_mapped.to_multiset());
    }
}

/// A shuffle is a permutation, not a resample: the words that a permutation of
/// the positions of `words` refers to are the words themselves, each as often
/// as it occurs among them.
pub proof fn lemma_learn_words_are_the_words(words: Seq<Word>, order: Seq<usize>)
    requires
        words.len() <= usize::MAX,
        is_permutation(order, words.len()),
    ensures
        learn_words(words, order).len() == words.len(),
        learn_words(words, order).to_multiset() == words.to_multiset(),
{
    let pick = |p: usize| words[p as int];
    let natural = identity_order(words.len());
    order.to_multiset_ensures();
    natural.to_multiset_ensures();
    lemma_map_keeps_multiset(order, natural, pick);
    assert(order.map_values(pick) == learn_words(words, order));
    assert(natural.map_values(pick) == words);
}

/// Every entry of a permutation of `0, 1, .., n - 1` is one of these
/// positions, and there are `n` entries.
pub proof fn lemma_permutation_in_range(order: Seq<usize>, n: nat)
    requires
        is_permutation(order, n),
    ensures
        order.len() == n,
        forall|i: int| 0 <= i < order.len() ==> (#[trigger] order[i]) < n,
{
    let natural = identity_order(n);
    order.to_multiset_ensures();
    natural.to_multiset_ensures();
    assert forall|i: int| 0 <= i < order.len() implies (#[trigger] order[i]) < n by {
        assert(order.contains(order[i]));
        assert(order.to_multiset().count(order[i]) > 0);
        assert(natural.to_multiset().count(order[i]) > 0);
        assert(natural.contains(order[i]));
        let j = choose|j: int| 0 <= j < natural.len() && natural[j] == order[i];
        assert(natural[j] == j as usize);
    }
}

/// While the learn tab is open the word list has the focus, and the word
/// index points into the learn set, which is as long as the list of the
/// selected category and refers into it.
pub proof fn lemma_learning(s: SessionView)
    requires
        s.wf(),
        s.learn is Some,
    ensures
        s.states.focus == Focus::Right,
        s.states.word_index < s.words_set().len(),
        s.words_set().len() == s.selected_words().len(),
        s.words_set().len() == s.states.word_list_length,
        forall|i: int|
            0 <= i < s.words_set().len() ==> (#[trigger] s.words_set()[i])
                < s.selected_words().len(),
{
    lemma_permutation_in_range(s.learn->0.words_set, s.selected_words().len());
}

/// No transition leaves an index out of range: whatever event comes in, the
/// session keeps its invariant, so that afterwards the category index points
/// at a category and, while the word list has the focus, the word index
/// points into the list it ranges over.
pub proof fn lemma_transitions_keep_invariant(
    s: SessionView,
    event: Event<Key>,
    after: SessionView,
    now: u64,
)
    requires
        s.wf(),
        s.updated(event, after, now),
    ensures
        after.wf(),
        after.categories == s.categories,
        after.states.category_index < after.categories.len(),
        after.states.focus == Focus::Right ==> after.states.word_index
            < after.states.word_list_length,
        after.states.focus == Focus::Left ==> after.states.word_index == 0,
{
    match event {
        Event::Tick => {},
        Event::Input(input) => {
            if s.opens_learn(input) {
                lemma_entering_learn_resets(s, after.learn->0.words_set, now);
            } else if s.learn is Some {
                lemma_learning(s);
            }
        },
    }
}

/// A key in the learn tab never clears the completion mark and never moves
/// the word index back: the session is marked done afterwards exactly if it
/// was before or the key was `n` on the last word, and the word index stays
/// or moves on, inside the learn set. This holds of the key `1` too, which
/// leaves the selection alone.
pub proof fn lemma_learn_keys_keep_progress(s: SessionView, input: Key)
    requires
        s.wf(),
        s.learn is Some,
    ensures
        s.press(input).states.done == (s.states.done || (input == Key::Char('n')
            && s.states.word_index + 1 == s.learn->0.words_set.len())),
        s.states.word_index <= s.press(input).states.word_index < s.learn->0.words_set.len(),
        input == Key::Char('1') ==> s.press(input).states == s.states && s.press(input).learn
            is None && s.press(input).reset_due,
{
    lemma_learning(s);
}

/// Settling keeps the invariant of the session and leaves no reset due while
/// the dictionary tab is open; a settled dictionary tab shows no completion
/// mark and has the focus where the reset or the keys since have put it.
pub proof fn lemma_settle(s: SessionView)
    requires
        s.wf(),
    ensures
        s.settle().wf(),
        !s.settle().reset_due,
        s.settle().settle() == s.settle(),
        s.settle().tab() == s.tab(),
        s.learn is None ==> !s.settle().states.done,
        s.learn is None && s.reset_due ==> s.settle().states == s.states.reset(),
        !s.reset_due ==> s.settle() == s,
{
}

/// A session at rest is at rest again after every round of the loop. So as
/// the loop runs, starting from a fresh session, a session is marked done
/// only while learning and only on the last word of the set, and every learn
/// session begins unmarked.
pub proof fn lemma_rounds_keep_rest(
    s: SessionView,
    received: Option<Event<Key>>,
    after: SessionView,
    now: u64,
)
    requires
        s.at_rest(),
        s.rounded(received, after, now),
    ensures
        after.at_rest(),
{
    if s.learn is Some {
        lemma_learning(s);
    }
    match received {
        Some(Event::Input(input)) => {
            if s.opens_learn(input) {
                lemma_entering_learn_resets(s, after.learn->0.words_set, now);
            }
        },
        _ => {},
    }
}

/// Entering the learn tab resets the state: whatever the session was before,
/// as long as it was browsing a category that has words, the learn tab opens
/// with the help hidden, on the first word of the set, and the words of the
/// set are the words of the selected category, each as often as there.
pub proof fn lemma_entering_learn_resets(s: SessionView, order: Seq<usize>, now: u64)
    requires
        s.wf(),
        s.learn is None,
        s.selected_words().len() > 0,
        is_permutation(order, s.selected_words().len()),
    ensures
        s.start_learn(order, now).wf(),
        s.start_learn(order, now).tab() == Tab::Learn,
        s.start_learn(order, now).learn->0.help == false,
        s.start_learn(order, now).states.word_index == 0,
        s.start_learn(order, now).elapsed(now) == 0,
        s.start_learn(order, now).learn_words().to_multiset() == s.selected_words().to_multiset(),
{
    lemma_permutation_in_range(order, s.selected_words().len());
    assert(s.selected_words().len() == s.categories[s.states.category_index as int].words.len());
    lemma_learn_words_are_the_words(s.selected_words(), order);
}

/// What `presses` presses of `n` do in the learn tab while words are left
/// behind the current one: the index moves on by `presses`, and nothing else
/// of the selection changes.
proof fn lemma_next_n(s: SessionView, presses: nat)
    requires
        s.wf(),
        s.learn is Some,
        s.states.word_index + presses < s.learn->0.words_set.len(),
    ensures
        s.press_n(Key::Char('n'), presses).wf(),
        s.press_n(Key::Char('n'), presses).learn is Some,
        s.press_n(Key::Char('n'), presses).learn->0.words_set == s.learn->0.words_set,
        s.press_n(Key::Char('n'), presses).categories == s.categories,
        s.press_n(Key::Char('n'), presses).states == (SelectionView {
            word_index: s.states.word_index + presses,
            ..s.states
        }),
    decreases presses,
{
    if presses > 0 {
        let next = s.press(Key::Char('n'));
        lemma_permutation_in_range(s.learn->0.words_set, s.selected_words().len());
        assert(next.states == (SelectionView {
            word_index: s.states.word_index + 1,
            ..s.states
        }));
        lemma_next_n(next, (presses - 1) as nat);
    }
}

/// The completion edge of a learn session. From the first word of a set of
/// `N` words, `N - 1` presses of `n` lead to the last word and leave the
/// completion mark as it was; one more press leaves the index on the last
/// word and sets the mark.
pub proof fn lemma_completion_edge(s: SessionView)
    requires
        s.wf(),
        s.learn is Some,
        s.states.word_index == 0,
    ensures
        ({
            let n = s.learn->0.words_set.len();
            let last = s.press_n(Key::Char('n'), (n - 1) as nat);
            let after = last.press(Key::Char('n'));
            &&& n > 0
            &&& last.states.word_index == n - 1
            &&& last.states.done == s.states.done
            &&& after.states.word_index == n - 1
            &&& after.states.done
            &&& after.tab() == Tab::Learn
            &&& after.wf()
        }),
{
    let n = s.learn->0.words_set.len();
    lemma_permutation_in_range(s.learn->0.words_set, s.selected_words().len());
    lemma_next_n(s, (n - 1) as nat);
}

/// Showing the help is a toggle: two presses of `h` in the learn tab leave
/// the session as it was before the first.
pub proof fn lemma_help_twice(s: SessionView)
    requires
        s.learn is Some,
    ensures
        s.press(Key::Char('h')).press(Key::Char('h')) == s,
        s.press(Key::Char('h')).learn->0.help == !s.learn->0.help,
{
}

/// The time shown for a learn session never runs backwards: of two moments,
/// the later one shows at least as much time elapsed as the earlier one.
pub proof fn lemma_elapsed_monotonic(s: SessionView, earlier: u64, later: u64)
    requires
        earlier <= later,
    ensures
        s.elapsed(earlier) <= s.elapsed(later),
{
}

} // verus!
