use lsf_tui::selection::{Focus, Selection};

#[test]
fn new_selection_starts_on_first_category() {
    let s = Selection::new(4);
    assert_eq!(s.get_categorie_index(), 0);
    assert_eq!(s.get_word_index(), 0);
    assert_eq!(s.get_focus(), Focus::Left);
    assert_eq!(s.get_word_count(), 0);
    assert_eq!(s.get_categorie_count(), 4);
    assert!(!s.is_done());
    assert_eq!(s.categorie_state(), Some(0));
    assert_eq!(s.word_state(), None);
}

#[test]
fn down_wraps_from_last_category_to_first() {
    let mut s = Selection::new(3);
    s.down();
    assert_eq!(s.get_categorie_index(), 1);
    s.down();
    assert_eq!(s.get_categorie_index(), 2);
    s.down();
    assert_eq!(s.get_categorie_index(), 0);
}

#[test]
fn up_wraps_from_first_category_to_last() {
    let mut s = Selection::new(3);
    s.up();
    assert_eq!(s.get_categorie_index(), 2);
    s.up();
    assert_eq!(s.get_categorie_index(), 1);
    s.up();
    assert_eq!(s.get_categorie_index(), 0);
}

#[test]
fn down_as_often_as_the_list_is_long_returns_to_the_start() {
    for start in 0..5 {
        let mut s = Selection::new(5);
        for _ in 0..start {
            s.down();
        }
        assert_eq!(s.get_categorie_index(), start);
        for _ in 0..5 {
            s.down();
        }
        assert_eq!(s.get_categorie_index(), start);
    }
}

#[test]
fn up_as_often_as_the_list_is_long_returns_to_the_start() {
    for start in 0..7 {
        let mut s = Selection::new(2);
        s.focus_right(7);
        for _ in 0..start {
            s.down();
        }
        assert_eq!(s.get_word_index(), start);
        for _ in 0..7 {
            s.up();
        }
        assert_eq!(s.get_word_index(), start);
        assert_eq!(s.get_categorie_index(), 0);
    }
}

#[test]
fn single_entry_list_stays_on_its_entry() {
    let mut s = Selection::new(1);
    s.down();
    assert_eq!(s.get_categorie_index(), 0);
    s.up();
    assert_eq!(s.get_categorie_index(), 0);
}

#[test]
fn focus_right_moves_navigation_to_the_words() {
    let mut s = Selection::new(3);
    s.down();
    s.focus_right(4);
    assert_eq!(s.get_focus(), Focus::Right);
    assert_eq!(s.get_word_count(), 4);
    assert_eq!(s.get_word_index(), 0);
    assert_eq!(s.word_state(), Some(0));
    s.down();
    s.down();
    assert_eq!(s.get_word_index(), 2);
    assert_eq!(s.get_categorie_index(), 1);
    assert_eq!(s.word_state(), Some(2));
    s.up();
    s.up();
    s.up();
    assert_eq!(s.get_word_index(), 3);
}

#[test]
fn focus_right_keeps_an_index_that_fits() {
    let mut s = Selection::new(2);
    s.focus_right(5);
    s.down();
    s.down();
    s.focus_right(5);
    assert_eq!(s.get_word_index(), 2);
    s.focus_right(3);
    assert_eq!(s.get_word_index(), 2);
    assert_eq!(s.get_word_count(), 3);
}

#[test]
fn focus_right_clamps_an_index_that_does_not_fit() {
    let mut s = Selection::new(2);
    s.focus_right(5);
    s.up();
    assert_eq!(s.get_word_index(), 4);
    s.focus_right(2);
    assert_eq!(s.get_word_index(), 1);
    assert!(s.get_word_index() < 2);
    s.focus_right(1);
    assert_eq!(s.get_word_index(), 0);
}

#[test]
fn focus_left_resets_the_word_index() {
    let mut s = Selection::new(2);
    s.focus_right(5);
    s.down();
    s.down();
    s.focus_left();
    assert_eq!(s.get_focus(), Focus::Left);
    assert_eq!(s.get_word_index(), 0);
    assert_eq!(s.get_word_count(), 5);
    assert_eq!(s.word_state(), None);
    s.down();
    assert_eq!(s.get_categorie_index(), 1);
    assert_eq!(s.get_word_index(), 0);
}

#[test]
fn reset_word_index_leaves_focus_and_length() {
    let mut s = Selection::new(2);
    s.focus_right(5);
    s.down();
    s.reset_word_index();
    assert_eq!(s.get_word_index(), 0);
    assert_eq!(s.get_focus(), Focus::Right);
    assert_eq!(s.get_word_count(), 5);
}

#[test]
fn done_is_set_and_cleared_by_reset() {
    let mut s = Selection::new(2);
    s.down();
    s.focus_right(3);
    s.down();
    assert!(!s.is_done());
    s.set_done();
    assert!(s.is_done());
    assert_eq!(s.get_word_index(), 1);
    s.set_done();
    assert!(s.is_done());
    s.reset();
    assert!(!s.is_done());
    assert_eq!(s.get_focus(), Focus::Left);
    assert_eq!(s.get_word_index(), 0);
    assert_eq!(s.get_categorie_index(), 1);
}
