use lsf_tui::draw::{
    centered_constraints, draw_dictionary, draw_learn, progression, seconds_and_tenths,
    word_state, DictionaryFrame, LearnFrame, WordState,
};
use lsf_tui::event::{Event, Key};
use lsf_tui::loader::{Categorie, Word};
use lsf_tui::tui_mode::SessionController;

fn categorie(name: &str, words: &[&str]) -> Categorie {
    Categorie {
        name: name.to_string(),
        words: words
            .iter()
            .map(|w| Word {
                name: w.to_string(),
                description: String::new(),
                link: String::new(),
            })
            .collect(),
    }
}

fn press(session: &mut SessionController, key: char, now: u64) {
    session.update(Event::Input(Key::Char(key)), now);
}

#[test]
fn progression_is_the_share_of_words_reached() {
    assert_eq!(progression(0, 3), 33);
    assert_eq!(progression(1, 3), 66);
    assert_eq!(progression(2, 3), 100);
    assert_eq!(progression(0, 1), 100);
    assert_eq!(progression(0, 2), 50);
    assert_eq!(progression(6, 8), 87);
    assert_eq!(progression(0, 100), 1);
    assert_eq!(progression(0, 101), 0);
}

#[test]
fn progression_of_long_lists_stays_in_range() {
    assert_eq!(progression(654, 655), 100);
    assert_eq!(progression(655, 1000), 65);
    assert_eq!(progression(69_999, 70_000), 100);
    assert_eq!(progression(usize::MAX - 1, usize::MAX), 100);
    assert_eq!(progression(usize::MAX / 2, usize::MAX), 50);
}

#[test]
fn seconds_and_tenths_split_milliseconds() {
    assert_eq!(seconds_and_tenths(0), (0, 0));
    assert_eq!(seconds_and_tenths(99), (0, 0));
    assert_eq!(seconds_and_tenths(100), (0, 1));
    assert_eq!(seconds_and_tenths(999), (0, 9));
    assert_eq!(seconds_and_tenths(1_000), (1, 0));
    assert_eq!(seconds_and_tenths(1_234), (1, 2));
    assert_eq!(seconds_and_tenths(60_050), (60, 0));
    assert_eq!(seconds_and_tenths(u64::MAX), (18_446_744_073_709_551, 6));
}

#[test]
fn centered_constraints_leave_equal_margins() {
    assert_eq!(centered_constraints(60), (20, 60, 20));
    assert_eq!(centered_constraints(20), (40, 20, 40));
    assert_eq!(centered_constraints(100), (0, 100, 0));
    assert_eq!(centered_constraints(0), (50, 0, 50));
    assert_eq!(centered_constraints(55), (22, 55, 22));
}

#[test]
fn word_states_follow_the_cursor() {
    assert_eq!(word_state(0, 2), WordState::Passed);
    assert_eq!(word_state(1, 2), WordState::Passed);
    assert_eq!(word_state(2, 2), WordState::Current);
    assert_eq!(word_state(3, 2), WordState::Next);
    assert_eq!(word_state(0, 0), WordState::Current);
    assert_ne!(word_state(0, 0), WordState::Confirmed);
}

#[test]
fn dictionary_frame_follows_the_selection() {
    let categories =
        vec![categorie("Greetings", &["w1", "w2", "w3"]), categorie("Empty", &[])];
    let mut session = SessionController::new(&categories);
    assert_eq!(
        draw_dictionary(&session),
        Some(DictionaryFrame {
            categorie: 0,
            categorie_state: Some(0),
            word_state: None,
            information: Some(0),
        })
    );
    assert_eq!(draw_learn(&session, 0), None);
    press(&mut session, 'l', 0);
    press(&mut session, 'k', 0);
    assert_eq!(
        draw_dictionary(&session),
        Some(DictionaryFrame {
            categorie: 0,
            categorie_state: Some(0),
            word_state: Some(2),
            information: Some(2),
        })
    );
    press(&mut session, 'h', 0);
    press(&mut session, 'j', 0);
    assert_eq!(
        draw_dictionary(&session),
        Some(DictionaryFrame {
            categorie: 1,
            categorie_state: Some(1),
            word_state: None,
            information: None,
        })
    );
}

#[test]
fn learn_frame_follows_the_session() {
    let categories = vec![categorie("Greetings", &["w1", "w2", "w3"])];
    let mut session = SessionController::new(&categories);
    session.start_learn(vec![1, 2, 0], 1_000);
    assert_eq!(draw_dictionary(&session), None);
    assert_eq!(
        draw_learn(&session, 1_000),
        Some(LearnFrame {
            word: 1,
            help: false,
            position: 1,
            total: 3,
            seconds: 0,
            tenths: 0,
            progression: 33,
            done: false,
        })
    );
    press(&mut session, 'n', 2_000);
    press(&mut session, 'h', 2_000);
    assert_eq!(
        draw_learn(&session, 3_470),
        Some(LearnFrame {
            word: 2,
            help: true,
            position: 2,
            total: 3,
            seconds: 2,
            tenths: 4,
            progression: 66,
            done: false,
        })
    );
    press(&mut session, 'n', 4_000);
    press(&mut session, 'n', 5_000);
    assert_eq!(
        draw_learn(&session, 66_000),
        Some(LearnFrame {
            word: 0,
            help: false,
            position: 3,
            total: 3,
            seconds: 65,
            tenths: 0,
            progression: 100,
            done: true,
        })
    );
}

#[test]
fn learn_frame_shows_no_time_before_the_start() {
    let categories = vec![categorie("One", &["w"])];
    let mut session = SessionController::new(&categories);
    session.start_learn(vec![0], 500);
    let frame = draw_learn(&session, 100).unwrap();
    assert_eq!((frame.seconds, frame.tenths), (0, 0));
    assert_eq!(frame.progression, 100);
    assert_eq!((frame.position, frame.total), (1, 1));
}

#[test]
fn the_open_tab_is_drawn() {
    let categories = vec![categorie("Greetings", &["w1", "w2"])];
    let mut session = SessionController::new(&categories);
    assert_eq!(
        lsf_tui::draw::draw(&session, 10),
        lsf_tui::draw::Frame::Dictionary(draw_dictionary(&session).unwrap())
    );
    session.start_learn(vec![1, 0], 20);
    assert_eq!(
        lsf_tui::draw::draw(&session, 1_520),
        lsf_tui::draw::Frame::Learn(draw_learn(&session, 1_520).unwrap())
    );
    assert_eq!(
        lsf_tui::draw::draw(&session, 1_520),
        lsf_tui::draw::Frame::Learn(LearnFrame {
            word: 1,
            help: false,
            position: 1,
            total: 2,
            seconds: 1,
            tenths: 5,
            progression: 50,
            done: false,
        })
    );
}
