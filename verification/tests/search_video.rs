use lsf_tui::search_video::{
    collect_videos, play_video, query_link, query_videos, search, select_videos, Choice,
    Message, Playback, SearchError, DICTIONARY, VIDEO_PATTERN,
};
use lsf_tui::text::NumberError;

fn urls(count: usize) -> Vec<String> {
    (0..count).map(|i| format!("https://www.elix-lsf.fr/video{}.mp4", i)).collect()
}

#[test]
fn query_link_appends_the_word() {
    assert_eq!(query_link("bonjour"), "https://dico.elix-lsf.fr/dictionnaire/bonjour");
    assert_eq!(query_link(""), DICTIONARY);
    assert_eq!(query_link("à bientôt"), "https://dico.elix-lsf.fr/dictionnaire/à bientôt");
}

#[test]
fn videos_are_found_in_page_order() {
    let body = "<html><video src=\"https://www.elix-lsf.fr/IMG/a.mp4\"></video>\n<p>x</p>\
                <video src=\"https://www.elix-lsf.fr/IMG/b/c.mp4\"></video></html>";
    assert_eq!(
        query_videos(body),
        Ok(vec![
            "https://www.elix-lsf.fr/IMG/a.mp4".to_string(),
            "https://www.elix-lsf.fr/IMG/b/c.mp4".to_string(),
        ])
    );
}

#[test]
fn video_address_ends_at_the_first_mp4() {
    let body = "<video src=\"https://www.elix-lsf.fr/xmp4\"></video>\
                <video src=\"https://www.elix-lsf.fr/a.mp4\"></video>";
    assert_eq!(
        query_videos(body),
        Ok(vec![
            "https://www.elix-lsf.fr/xmp4".to_string(),
            "https://www.elix-lsf.fr/a.mp4".to_string(),
        ])
    );
}

#[test]
fn pages_without_videos_give_an_empty_list() {
    assert_eq!(query_videos(""), Ok(vec![]));
    assert_eq!(query_videos("<html>nothing here</html>"), Ok(vec![]));
    assert_eq!(query_videos("<video src=\"https://elsewhere.org/a.mp4\"></video>"), Ok(vec![]));
    assert_eq!(query_videos("<video src=\"https://www.elix-lsf.fr/a.mp4\">"), Ok(vec![]));
    assert_eq!(query_videos(VIDEO_PATTERN), Ok(vec![]));
}

#[test]
fn collected_videos_keep_their_order() {
    let found = vec![Some("b".to_string()), Some("a".to_string()), Some("b".to_string())];
    assert_eq!(
        collect_videos(found),
        Ok(vec!["b".to_string(), "a".to_string(), "b".to_string()])
    );
    assert_eq!(collect_videos(vec![]), Ok(vec![]));
}

#[test]
fn search_gives_the_group_of_each_match() {
    assert_eq!(
        search("a(b+)", "ab abbb xab a", 1),
        Ok(vec!["b".to_string(), "bbb".to_string(), "b".to_string()])
    );
    assert_eq!(
        search("a(b+)", "ab abbb", 0),
        Ok(vec!["ab".to_string(), "abbb".to_string()])
    );
    assert_eq!(search("a(b+)", "xyz", 1), Ok(vec![]));
}

#[test]
fn refused_pattern_is_an_error() {
    assert_eq!(search("a(b", "ab", 1), Err(SearchError::Pattern));
    assert_eq!(search("*", "ab", 0), Err(SearchError::Pattern));
}

#[test]
fn missing_group_is_an_error() {
    assert_eq!(search("a(b+)", "ab", 2), Err(SearchError::Group));
    assert_eq!(search("a(b)|c", "ab c", 1), Err(SearchError::Group));
    assert_eq!(search("a(b+)", "xyz", 2), Ok(vec![]));
}

#[test]
fn pattern_of_a_video_is_accepted() {
    assert_ne!(query_videos("anything"), Err(SearchError::Pattern));
    assert!(regex::Regex::new(VIDEO_PATTERN).is_ok());
}

#[test]
fn match_without_address_is_an_error() {
    assert_eq!(
        collect_videos(vec![Some("a".to_string()), None, Some("c".to_string())]),
        Err(SearchError::Group)
    );
    assert_eq!(collect_videos(vec![None]), Err(SearchError::Group));
}

#[test]
fn number_of_a_video_plays_it() {
    assert_eq!(select_videos(&urls(3), "0\n"), Choice::Play(0));
    assert_eq!(select_videos(&urls(3), "2\n"), Choice::Play(2));
    assert_eq!(select_videos(&urls(3), "  1  \r\n"), Choice::Play(1));
    assert_eq!(select_videos(&urls(3), "+2"), Choice::Play(2));
    assert_eq!(select_videos(&urls(12), "011"), Choice::Play(11));
}

#[test]
fn number_of_no_video_is_invalid() {
    assert_eq!(select_videos(&urls(3), "3\n"), Choice::Invalid);
    assert_eq!(select_videos(&urls(3), "100\n"), Choice::Invalid);
    assert_eq!(select_videos(&urls(1), "4294967295"), Choice::Invalid);
}

#[test]
fn answer_that_is_no_number_is_reported() {
    let answers = [
        ("\n", NumberError::Empty),
        ("", NumberError::Empty),
        ("   ", NumberError::Empty),
        ("one\n", NumberError::InvalidDigit),
        ("-1\n", NumberError::InvalidDigit),
        ("1 2\n", NumberError::InvalidDigit),
        ("1.0\n", NumberError::InvalidDigit),
        ("99999999999999999999999999\n", NumberError::PosOverflow),
    ];
    for (input, why) in answers {
        assert_eq!(select_videos(&urls(3), input), Choice::NotANumber(why), "{:?}", input);
    }
}

#[test]
fn nothing_to_choose_from_an_empty_list() {
    assert_eq!(select_videos(&urls(0), "0\n"), Choice::Nothing);
    assert_eq!(select_videos(&urls(0), "zero\n"), Choice::Nothing);
    assert_eq!(select_videos(&urls(0), ""), Choice::Nothing);
}

#[test]
fn playing_stops_at_the_end_of_the_video() {
    assert_eq!(play_video(Message::Eos), Playback::Stop);
}

#[test]
fn graph_is_dumped_when_the_player_starts_playing() {
    assert_eq!(play_video(Message::StateChanged { player: true, playing: true }), Playback::Dump);
    assert_eq!(
        play_video(Message::StateChanged { player: false, playing: true }),
        Playback::Continue
    );
    assert_eq!(
        play_video(Message::StateChanged { player: true, playing: false }),
        Playback::Continue
    );
    assert_eq!(
        play_video(Message::StateChanged { player: false, playing: false }),
        Playback::Continue
    );
    assert_eq!(play_video(Message::Other), Playback::Continue);
}
