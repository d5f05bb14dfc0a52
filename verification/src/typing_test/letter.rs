use vstd::prelude::*;

use crate::text::push_char;

verus! {

/// What the user typed at the position of a letter.
#[derive(Debug, Clone, Copy, PartialEq, Eq, Structural, PartialOrd)]
pub enum TypedState {
    Typed(char),
    NotTyped,
    Extra,
}

/// A single letter of a word, with what was typed in its place.
#[derive(Debug)]
pub struct Letter {
    /// The expected letter.
    letter: char,
    /// Used to style this letter white (typed), red (error), gray (not typed).
    pub(super) typed_state: TypedState,
    /// Position of the letter inside its word, for the cursor.
    char_id: usize,
    /// Index of the word the letter belongs to.
    word_id: usize,
}

/// The mathematical content of a [`Letter`].
pub struct LetterView {
    pub letter: char,
    pub typed_state: TypedState,
    pub char_id: usize,
    pub word_id: usize,
}

impl View for Letter {
    type V = LetterView;

    closed spec fn view(&self) -> LetterView {
        LetterView {
            letter: self.letter,
            typed_state: self.typed_state,
            char_id: self.char_id,
            word_id: self.word_id,
        }
    }
}

/// A letter is wrong unless the character typed in its place is the letter itself.
pub open spec fn letter_is_error(v: LetterView) -> bool {
    match v.typed_state {
        TypedState::Typed(c) => c != v.letter,
        _ => true,
    }
}

impl Letter {
    /// Creates a letter that has not been typed yet.
    pub fn new(letter: char, char_id: usize, word_id: usize) -> (r: Self)
        ensures
            r@ == (LetterView { letter, typed_state: TypedState::NotTyped, char_id, word_id }),
    {
        Letter { letter, typed_state: TypedState::NotTyped, char_id, word_id }
    }

    /// The same letter with the given typed state.
    pub fn with_typed_letter(self, typed_letter: TypedState) -> (r: Self)
        ensures
            r@ == (LetterView { typed_state: typed_letter, ..self@ }),
    {
        Letter { typed_state: typed_letter, ..self }
    }

    /// Whether this letter was typed wrongly (or not typed at all).
    pub fn is_error(&self) -> (r: bool)
        ensures
            r == letter_is_error(self@),
    {
        match self.typed_state {
            TypedState::Typed(c) => c != self.letter,
            _ => true,
        }
    }

    /// The letter as a one-character string, as it is drawn.
    pub fn to_string(&self) -> (r: String)
        ensures
            r@ == seq![self@.letter],
    {
        let mut s = String::new();
        push_char(&mut s, self.letter);
        assert(s@ =~= seq![self@.letter]);
        s
    }
}

/// A letter is right exactly when the character typed in its place is the
/// letter itself; an untyped or extra letter is always wrong.
pub proof fn lemma_letter_right_iff_typed_itself(v: LetterView)
    ensures
        !letter_is_error(v) <==> v.typed_state == TypedState::Typed(v.letter),
        forall|c: char| v.typed_state == TypedState::Typed(c) ==> (letter_is_error(v) <==> c != v.letter),
{
}

} // verus!
