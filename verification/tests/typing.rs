use typing_test_tui::data::{Data, DataRequest};
use typing_test_tui::keys::KeyCode;
use typing_test_tui::model::Mode;
use typing_test_tui::typing_test::letter::{Letter as TypedLetter, TypedState};
use typing_test_tui::typing_test::mode_selection::{
    HeaderStyle, ModeOption, ModeSelection, TimeOption, TimeSelectionOption, WordSelectionOption, WordsOption,
};
use typing_test_tui::typing_test::{handle_arrow_keys, Letter, Word};

#[test]
fn letter_errors() {
    let l = TypedLetter::new('a', 0, 0);
    assert!(l.is_error());
    let l = l.with_typed_letter(TypedState::Typed('a'));
    assert!(!l.is_error());
    let l = l.with_typed_letter(TypedState::Typed('b'));
    assert!(l.is_error());
    let l = l.with_typed_letter(TypedState::Extra);
    assert!(l.is_error());
    assert_eq!(l.to_string(), "a");
}

#[test]
fn word_from_str() {
    let w = Word::from_str("héllo", 3);
    assert_eq!(w.word, "héllo");
    assert_eq!(w.id, 3);
    assert!(!w.is_error);
    assert_eq!(w.last_typed, 0);
    assert_eq!(w.letters.len(), 5);
    assert_eq!(w.letters[1], Letter { letter: 'é', char_id: 1, word_id: 3 });
    assert_eq!(w.letters[4], Letter { letter: 'o', char_id: 4, word_id: 3 });
    assert!(Word::from_str("", 0).letters.is_empty());
}

#[test]
fn mode_data() {
    assert_eq!(Mode::default(), Mode::Quote);
    assert_eq!(Mode::Quote.data_request(), DataRequest::RandomQuote);
    assert_eq!(Mode::Words(25).data_request(), DataRequest::RandomWords(25));
    assert_eq!(Mode::Time(30).data_request(), DataRequest::RandomWords(120));
    let drawn = Data { text: "a b c".to_string(), source: "3 words".to_string() };
    let d = Mode::Time(30).get_data(drawn.clone());
    assert_eq!(d.text, "a b c");
    assert_eq!(d.source, "30 seconds");
    assert_eq!(Mode::Words(3).get_data(drawn.clone()), drawn);
    assert_eq!(Mode::Quote.get_data(drawn.clone()), drawn);
}

#[test]
fn options_cycle() {
    assert_eq!(WordsOption::Ten.to_num(), 10);
    assert_eq!(WordsOption::Hundred.next(), WordsOption::Ten);
    assert_eq!(WordsOption::Ten.prev(), WordsOption::Hundred);
    assert_eq!(WordsOption::Fifty.to_mode(), Mode::Words(50));
    assert_eq!(TimeOption::HundredAndTwenty.to_num(), 120);
    assert_eq!(TimeOption::HundredAndTwenty.next(), TimeOption::Fifteen);
    assert_eq!(TimeOption::Thirty.prev(), TimeOption::Fifteen);
    assert_eq!(TimeOption::Sixty.to_mode(), Mode::Time(60));
    let mut w = WordsOption::Twentyfive;
    for _ in 0..4 {
        w = w.next();
    }
    assert_eq!(w, WordsOption::Twentyfive);
}

#[test]
fn mode_option_roundtrip() {
    for m in [Mode::Quote, Mode::Words(10), Mode::Words(25), Mode::Words(50), Mode::Words(100), Mode::Time(15), Mode::Time(30), Mode::Time(60), Mode::Time(120)] {
        assert_eq!(ModeOption::from_mode(m).to_mode(), Some(m));
    }
    assert_eq!(ModeOption::Words(WordSelectionOption::Placeholder(WordsOption::Ten)).to_mode(), None);
    assert_eq!(ModeOption::Time(TimeSelectionOption::Placeholder(TimeOption::Sixty)).to_mode(), None);
}

#[test]
fn mode_selection_navigation() {
    let mut s = ModeSelection::new(Mode::Quote);
    s.handle_right();
    assert_eq!(s.to_mode(), None);
    s.handle_down();
    assert_eq!(s.to_mode(), Some(Mode::Words(10)));
    s.handle_right();
    s.handle_right();
    assert_eq!(s.to_mode(), Some(Mode::Words(50)));
    s.handle_up();
    assert_eq!(s.to_mode(), None);
    s.handle_down();
    assert_eq!(s.to_mode(), Some(Mode::Words(50)));
    s.handle_up();
    s.handle_right();
    s.handle_down();
    assert_eq!(s.to_mode(), Some(Mode::Time(15)));
    s.handle_left();
    assert_eq!(s.to_mode(), Some(Mode::Time(120)));
    s.handle_up();
    s.handle_right();
    assert_eq!(s.to_mode(), Some(Mode::Quote));
    s.handle_left();
    s.handle_left();
    assert_eq!(s.to_mode(), None);
    s.handle_left();
    assert_eq!(s.to_mode(), Some(Mode::Quote));
}

#[test]
fn mode_selection_layout() {
    let l = ModeSelection::new(Mode::Quote).layout();
    assert_eq!((l.quote, l.words, l.time), (HeaderStyle::Highlighted, HeaderStyle::Plain, HeaderStyle::Plain));
    assert!(l.choices.is_empty());
    assert_eq!(l.highlighted_choice, None);

    let l = ModeSelection::new(Mode::Words(50)).layout();
    assert_eq!(l.words, HeaderStyle::Dimmed);
    assert_eq!(l.choices, vec![10, 25, 50, 100]);
    assert_eq!(l.highlighted_choice, Some(2));

    let mut s = ModeSelection::new(Mode::Time(120));
    let l = s.layout();
    assert_eq!(l.time, HeaderStyle::Dimmed);
    assert_eq!(l.choices, vec![15, 30, 60, 120]);
    assert_eq!(l.highlighted_choice, Some(3));
    s.handle_up();
    let l = s.layout();
    assert_eq!(l.time, HeaderStyle::Highlighted);
    assert_eq!(l.highlighted_choice, None);
}

#[test]
fn arrow_keys_update_mode() {
    let mut s = ModeSelection::new(Mode::Words(10));
    let mut current = Mode::Words(10);
    assert_eq!(handle_arrow_keys(&mut s, &mut current, KeyCode::Right), Some(Mode::Words(25)));
    assert_eq!(current, Mode::Words(25));
    assert_eq!(handle_arrow_keys(&mut s, &mut current, KeyCode::Up), None);
    assert_eq!(current, Mode::Words(25));
    assert_eq!(handle_arrow_keys(&mut s, &mut current, KeyCode::Down), None);
    assert_eq!(handle_arrow_keys(&mut s, &mut current, KeyCode::Tab), None);
    assert_eq!(handle_arrow_keys(&mut s, &mut current, KeyCode::Left), Some(Mode::Words(10)));
}
