use vstd::prelude::*;
use vstd::string::StrSliceExecFns;
use vstd::string::StringExecFns;

use crate::keys::KeyCode;
use crate::model::Mode;

use self::mode_selection::{mode_of_option, option_down, option_left, option_right, option_up, ModeSelection};

pub mod letter;
pub mod mode_selection;
pub mod selection;

verus! {

#[verifier::external_type_specification]
#[verifier::external_body]
pub struct ExInstant(std::time::Instant);

/// A letter of the text, placed in its word.
#[derive(Debug, Clone, Copy, PartialEq, Eq, Structural)]
pub struct Letter {
    pub letter: char,
    pub char_id: usize,
    pub word_id: usize,
}

/// A word of the text to type.
#[derive(Debug, Clone)]
pub struct Word {
    pub letters: Vec<Letter>,
    pub is_error: bool,
    pub id: usize,
    pub word: String,
    pub last_typed: usize,
}

/// The letters of the word `text` with index `id`.
pub open spec fn word_letters(text: Seq<char>, id: usize) -> Seq<Letter> {
    Seq::new(text.len(), |i: int| word_letter(text, id, i))
}

/// The letter at position `i` of the word `text` with index `id`.
pub open spec fn word_letter(text: Seq<char>, id: usize, i: int) -> Letter {
    Letter { letter: text[i], char_id: i as usize, word_id: id }
}

impl Word {
    /// The word `text` with index `id`, nothing typed yet.
    pub fn from_str(text: &str, id: usize) -> (r: Word)
        ensures
            r.letters@ == word_letters(text@, id),
            !r.is_error,
            r.id == id,
            r.word@ == text@,
            r.last_typed == 0,
    {
        let n = text.unicode_len();
        let mut letters: Vec<Letter> = Vec::new();
        let mut i: usize = 0;
        while i < n
            invariant
                n == text@.len(),
                i <= n,
                letters@ == word_letters(text@, id).take(i as int),
            decreases n - i,
        {
            let letter = text.get_char(i);
            letters.push(Letter { letter, char_id: i, word_id: id });
            assert forall|j: int| 0 <= j < i + 1 implies #[trigger] letters@[j] == word_letters(text@, id)[j] by {
                if j < i {
                    assert(letters@[j] == word_letters(text@, id).take(i as int)[j]);
                }
            }
            assert(letters@ =~= word_letters(text@, id).take(i + 1));
            i = i + 1;
        }
        assert(word_letters(text@, id).len() == n);
        assert(word_letters(text@, id).take(n as int) =~= word_letters(text@, id));
        Word { letters, is_error: false, id, word: String::from_str(text), last_typed: 0 }
    }
}

/// The state of a typing test in progress.
pub struct TypingTest {
    pub words: Vec<Word>,
    pub word_index: usize,
    pub letter_index: usize,
    pub time_started: std::time::Instant,
    pub started: bool,
    pub wrongs: usize,
    pub char_typed: i32,
}

/// The mode picker after an arrow key: left, right, up and down move it, any
/// other key leaves it.
pub open spec fn picker_after_key(o: mode_selection::ModeOption, key: KeyCode) -> mode_selection::ModeOption {
    match key {
        KeyCode::Left => option_left(o),
        KeyCode::Right => option_right(o),
        KeyCode::Up => option_up(o),
        KeyCode::Down => option_down(o),
        _ => o,
    }
}

/// Moves the mode picker with an arrow key. When the picker then selects a
/// mode other than `current_mode`, that mode becomes the current one and is
/// returned, so that the configuration can be updated.
pub fn handle_arrow_keys(selected_mode: &mut ModeSelection, current_mode: &mut Mode, key: KeyCode) -> (r: Option<Mode>)
    ensures
        final(selected_mode)@ == picker_after_key(old(selected_mode)@, key),
        match mode_of_option(final(selected_mode)@) {
            Some(m) => if m != *old(current_mode) {
                r == Some(m) && *final(current_mode) == m
            } else {
                r is None && *final(current_mode) == *old(current_mode)
            },
            None => r is None && *final(current_mode) == *old(current_mode),
        },
{
    match key {
        KeyCode::Left => selected_mode.handle_left(),
        KeyCode::Right => selected_mode.handle_right(),
        KeyCode::Up => selected_mode.handle_up(),
        KeyCode::Down => selected_mode.handle_down(),
        _ => {},
    }
    let selected = selected_mode.to_mode();
    if let Some(selected) = selected {
        if selected != *current_mode {
            *current_mode = selected;
            return Some(selected);
        }
    }
    None
}

/// The up key never makes the picker select a mode: it only leaves a row of
/// choices for its header, and leaves the quote as it is.
pub proof fn lemma_up_key_keeps_mode(o: mode_selection::ModeOption)
    ensures
        !(o is Quote) ==> mode_of_option(picker_after_key(o, KeyCode::Up)) is None,
        o is Quote ==> picker_after_key(o, KeyCode::Up) == o,
{
    mode_selection::lemma_up_never_selects(o);
}

} // verus!
