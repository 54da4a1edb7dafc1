use lsf_tui::event::{forward_key, Event, Key};

#[test]
fn quit_key_is_the_plain_q() {
    assert!(Key::Char('q').quits());
    for key in [Key::Char('Q'), Key::Ctrl('q'), Key::Alt('q'), Key::Esc, Key::Char('x'), Key::F(1), Key::Null] {
        assert!(!key.quits());
    }
}

#[test]
fn every_key_is_sent_on() {
    for key in [Key::Char('j'), Key::Char('q'), Key::Up, Key::F(5), Key::Ctrl('c')] {
        let (event, _) = forward_key(key);
        assert!(matches!(event, Event::Input(sent) if sent == key));
    }
}

#[test]
fn reader_stops_behind_the_quit_key() {
    assert!(!forward_key(Key::Char('q')).1);
    assert!(forward_key(Key::Char('j')).1);
    assert!(forward_key(Key::Ctrl('q')).1);
    assert!(forward_key(Key::Esc).1);
}

#[test]
fn ticks_come_five_times_a_second() {
    assert_eq!(lsf_tui::event::TICK_RATE, 200);
}
