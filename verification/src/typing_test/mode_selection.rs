use vstd::prelude::*;

use crate::model::Mode;

verus! {

/// The word counts offered by the mode picker.
#[derive(Debug, Clone, Copy, PartialEq, Eq, Structural)]
pub enum WordsOption {
    Ten,
    Twentyfive,
    Fifty,
    Hundred,
}

/// The state of the word-count row of the picker.
#[derive(Debug, Clone, Copy, PartialEq, Eq, Structural)]
pub enum WordSelectionOption {
    /// When selected on "Word" and not any of the word options.
    /// The placeholder keeps the last selected value so that pressing down
    /// after pressing up selects the previous choice again.
    Placeholder(WordsOption),
    Selected(WordsOption),
}

/// The durations offered by the mode picker.
#[derive(Debug, Clone, Copy, PartialEq, Eq, Structural)]
pub enum TimeOption {
    Fifteen,
    Thirty,
    Sixty,
    HundredAndTwenty,
}

/// The state of the duration row of the picker.
#[derive(Debug, Clone, Copy, PartialEq, Eq, Structural)]
pub enum TimeSelectionOption {
    Placeholder(TimeOption),
    Selected(TimeOption),
}

/// What the mode picker points at.
#[derive(Debug, Clone, Copy, PartialEq, Eq, Structural)]
pub enum ModeOption {
    Quote,
    Words(WordSelectionOption),
    Time(TimeSelectionOption),
}

pub open spec fn words_num(w: WordsOption) -> usize {
    match w {
        WordsOption::Ten => 10,
        WordsOption::Twentyfive => 25,
        WordsOption::Fifty => 50,
        WordsOption::Hundred => 100,
    }
}

/// The position of a word count in the row of choices.
pub open spec fn words_index(w: WordsOption) -> usize {
    match w {
        WordsOption::Ten => 0,
        WordsOption::Twentyfive => 1,
        WordsOption::Fifty => 2,
        WordsOption::Hundred => 3,
    }
}

pub open spec fn words_next(w: WordsOption) -> WordsOption {
    match w {
        WordsOption::Ten => WordsOption::Twentyfive,
        WordsOption::Twentyfive => WordsOption::Fifty,
        WordsOption::Fifty => WordsOption::Hundred,
        WordsOption::Hundred => WordsOption::Ten,
    }
}

pub open spec fn words_prev(w: WordsOption) -> WordsOption {
    match w {
        WordsOption::Ten => WordsOption::Hundred,
        WordsOption::Twentyfive => WordsOption::Ten,
        WordsOption::Fifty => WordsOption::Twentyfive,
        WordsOption::Hundred => WordsOption::Fifty,
    }
}

pub open spec fn time_num(t: TimeOption) -> usize {
    match t {
        TimeOption::Fifteen => 15,
        TimeOption::Thirty => 30,
        TimeOption::Sixty => 60,
        TimeOption::HundredAndTwenty => 120,
    }
}

/// The position of a duration in the row of choices.
pub open spec fn time_index(t: TimeOption) -> usize {
    match t {
        TimeOption::Fifteen => 0,
        TimeOption::Thirty => 1,
        TimeOption::Sixty => 2,
        TimeOption::HundredAndTwenty => 3,
    }
}

pub open spec fn time_next(t: TimeOption) -> TimeOption {
    match t {
        TimeOption::Fifteen => TimeOption::Thirty,
        TimeOption::Thirty => TimeOption::Sixty,
        TimeOption::Sixty => TimeOption::HundredAndTwenty,
        TimeOption::HundredAndTwenty => TimeOption::Fifteen,
    }
}

pub open spec fn time_prev(t: TimeOption) -> TimeOption {
    match t {
        TimeOption::Fifteen => TimeOption::HundredAndTwenty,
        TimeOption::Thirty => TimeOption::Fifteen,
        TimeOption::Sixty => TimeOption::Thirty,
        TimeOption::HundredAndTwenty => TimeOption::Sixty,
    }
}

/// The modes that the picker can show: quote, 10/25/50/100 words, 15/30/60/120 seconds.
pub open spec fn is_selectable_mode(m: Mode) -> bool {
    match m {
        Mode::Quote => true,
        Mode::Words(n) => n == 10 || n == 25 || n == 50 || n == 100,
        Mode::Time(t) => t == 15 || t == 30 || t == 60 || t == 120,
    }
}

/// The picker state that shows a selectable mode.
pub open spec fn option_of_mode(m: Mode) -> ModeOption {
    match m {
        Mode::Quote => ModeOption::Quote,
        Mode::Words(n) => ModeOption::Words(WordSelectionOption::Selected(
            if n == 10 {
                WordsOption::Ten
            } else if n == 25 {
                WordsOption::Twentyfive
            } else if n == 50 {
                WordsOption::Fifty
            } else {
                WordsOption::Hundred
            },
        )),
        Mode::Time(t) => ModeOption::Time(TimeSelectionOption::Selected(
            if t == 15 {
                TimeOption::Fifteen
            } else if t == 30 {
                TimeOption::Thirty
            } else if t == 60 {
                TimeOption::Sixty
            } else {
                TimeOption::HundredAndTwenty
            },
        )),
    }
}

/// The mode that a picker state selects; none while a row is only hovered.
pub open spec fn mode_of_option(o: ModeOption) -> Option<Mode> {
    match o {
        ModeOption::Quote => Some(Mode::Quote),
        ModeOption::Words(WordSelectionOption::Placeholder(_)) => None,
        ModeOption::Words(WordSelectionOption::Selected(w)) => Some(Mode::Words(words_num(w))),
        ModeOption::Time(TimeSelectionOption::Placeholder(_)) => None,
        ModeOption::Time(TimeSelectionOption::Selected(t)) => Some(Mode::Time(time_num(t))),
    }
}

/// Left: cycle Quote <- Words <- Time <- Quote on the top row, or the
/// previous choice inside a row.
pub open spec fn option_left(o: ModeOption) -> ModeOption {
    match o {
        ModeOption::Quote => ModeOption::Time(TimeSelectionOption::Placeholder(TimeOption::Fifteen)),
        ModeOption::Words(WordSelectionOption::Placeholder(_)) => ModeOption::Quote,
        ModeOption::Words(WordSelectionOption::Selected(w)) => ModeOption::Words(
            WordSelectionOption::Selected(words_prev(w)),
        ),
        ModeOption::Time(TimeSelectionOption::Placeholder(_)) => ModeOption::Words(
            WordSelectionOption::Placeholder(WordsOption::Ten),
        ),
        ModeOption::Time(TimeSelectionOption::Selected(t)) => ModeOption::Time(
            TimeSelectionOption::Selected(time_prev(t)),
        ),
    }
}

/// Right: cycle Quote -> Words -> Time -> Quote on the top row, or the next
/// choice inside a row.
pub open spec fn option_right(o: ModeOption) -> ModeOption {
    match o {
        ModeOption::Quote => ModeOption::Words(WordSelectionOption::Placeholder(WordsOption::Ten)),
        ModeOption::Words(WordSelectionOption::Placeholder(_)) => ModeOption::Time(
            TimeSelectionOption::Placeholder(TimeOption::Fifteen),
        ),
        ModeOption::Words(WordSelectionOption::Selected(w)) => ModeOption::Words(
            WordSelectionOption::Selected(words_next(w)),
        ),
        ModeOption::Time(TimeSelectionOption::Placeholder(_)) => ModeOption::Quote,
        ModeOption::Time(TimeSelectionOption::Selected(t)) => ModeOption::Time(
            TimeSelectionOption::Selected(time_next(t)),
        ),
    }
}

/// Up: leave a row of choices for its header, remembering the choice.
pub open spec fn option_up(o: ModeOption) -> ModeOption {
    match o {
        ModeOption::Words(WordSelectionOption::Selected(w)) => ModeOption::Words(
            WordSelectionOption::Placeholder(w),
        ),
        ModeOption::Time(TimeSelectionOption::Selected(t)) => ModeOption::Time(
            TimeSelectionOption::Placeholder(t),
        ),
        _ => o,
    }
}

/// Down: enter the row of choices of a header, at the remembered choice.
pub open spec fn option_down(o: ModeOption) -> ModeOption {
    match o {
        ModeOption::Words(WordSelectionOption::Placeholder(w)) => ModeOption::Words(
            WordSelectionOption::Selected(w),
        ),
        ModeOption::Time(TimeSelectionOption::Placeholder(t)) => ModeOption::Time(
            TimeSelectionOption::Selected(t),
        ),
        _ => o,
    }
}

/// A picker state that only hovers over a header.
pub open spec fn is_placeholder(o: ModeOption) -> bool {
    match o {
        ModeOption::Words(WordSelectionOption::Placeholder(_)) => true,
        ModeOption::Time(TimeSelectionOption::Placeholder(_)) => true,
        _ => false,
    }
}

impl WordsOption {
    pub fn to_num(&self) -> (r: usize)
        ensures
            r == words_num(*self),
    {
        match self {
            WordsOption::Ten => 10,
            WordsOption::Twentyfive => 25,
            WordsOption::Fifty => 50,
            WordsOption::Hundred => 100,
        }
    }

    pub fn to_mode(&self) -> (r: Mode)
        ensures
            r == Mode::Words(words_num(*self)),
    {
        Mode::Words(self.to_num())
    }

    pub fn next(self) -> (r: Self)
        ensures
            r == words_next(self),
    {
        match self {
            WordsOption::Ten => WordsOption::Twentyfive,
            WordsOption::Twentyfive => WordsOption::Fifty,
            WordsOption::Fifty => WordsOption::Hundred,
            WordsOption::Hundred => WordsOption::Ten,
        }
    }

    pub fn prev(self) -> (r: Self)
        ensures
            r == words_prev(self),
    {
        match self {
            WordsOption::Ten => WordsOption::Hundred,
            WordsOption::Twentyfive => WordsOption::Ten,
            WordsOption::Fifty => WordsOption::Twentyfive,
            WordsOption::Hundred => WordsOption::Fifty,
        }
    }
}

impl TimeOption {
    pub fn to_num(&self) -> (r: usize)
        ensures
            r == time_num(*self),
    {
        match self {
            TimeOption::Fifteen => 15,
            TimeOption::Thirty => 30,
            TimeOption::Sixty => 60,
            TimeOption::HundredAndTwenty => 120,
        }
    }

    pub fn to_mode(&self) -> (r: Mode)
        ensures
            r == Mode::Time(time_num(*self)),
    {
        Mode::Time(self.to_num())
    }

    pub fn next(self) -> (r: Self)
        ensures
            r == time_next(self),
    {
        match self {
            TimeOption::Fifteen => TimeOption::Thirty,
            TimeOption::Thirty => TimeOption::Sixty,
            TimeOption::Sixty => TimeOption::HundredAndTwenty,
            TimeOption::HundredAndTwenty => TimeOption::Fifteen,
        }
    }

    pub fn prev(self) -> (r: Self)
        ensures
            r == time_prev(self),
    {
        match self {
            TimeOption::Fifteen => TimeOption::HundredAndTwenty,
            TimeOption::Thirty => TimeOption::Fifteen,
            TimeOption::Sixty => TimeOption::Thirty,
            TimeOption::HundredAndTwenty => TimeOption::Sixty,
        }
    }
}

impl ModeOption {
    /// The picker state showing `mode` as selected. Only the modes the picker
    /// offers have one.
    pub fn from_mode(mode: Mode) -> (r: Self)
        requires
            is_selectable_mode(mode),
        ensures
            r == option_of_mode(mode),
    {
        match mode {
            Mode::Quote => ModeOption::Quote,
            Mode::Words(10) => ModeOption::Words(WordSelectionOption::Selected(WordsOption::Ten)),
            Mode::Words(25) => ModeOption::Words(WordSelectionOption::Selected(WordsOption::Twentyfive)),
            Mode::Words(50) => ModeOption::Words(WordSelectionOption::Selected(WordsOption::Fifty)),
            Mode::Words(_) => ModeOption::Words(WordSelectionOption::Selected(WordsOption::Hundred)),
            Mode::Time(15) => ModeOption::Time(TimeSelectionOption::Selected(TimeOption::Fifteen)),
            Mode::Time(30) => ModeOption::Time(TimeSelectionOption::Selected(TimeOption::Thirty)),
            Mode::Time(60) => ModeOption::Time(TimeSelectionOption::Selected(TimeOption::Sixty)),
            Mode::Time(_) => ModeOption::Time(TimeSelectionOption::Selected(TimeOption::HundredAndTwenty)),
        }
    }

    /// The selected mode; none while only a header is hovered.
    pub fn to_mode(&self) -> (r: Option<Mode>)
        ensures
            r == mode_of_option(*self),
    {
        match self {
            ModeOption::Quote => Some(Mode::Quote),
            ModeOption::Words(w) => match w {
                WordSelectionOption::Placeholder(_) => None,
                WordSelectionOption::Selected(w) => Some(w.to_mode()),
            },
            ModeOption::Time(t) => match t {
                TimeSelectionOption::Placeholder(_) => None,
                TimeSelectionOption::Selected(t) => Some(t.to_mode()),
            },
        }
    }
}

/// The mode picker shown above the typing test.
pub struct ModeSelection {
    selected_mode: ModeOption,
}

impl View for ModeSelection {
    type V = ModeOption;

    closed spec fn view(&self) -> ModeOption {
        self.selected_mode
    }
}

/// How a header of the picker is drawn.
#[derive(Debug, Clone, Copy, PartialEq, Eq, Structural)]
pub enum HeaderStyle {
    Plain,
    Highlighted,
    /// The header of the row whose choice is highlighted.
    Dimmed,
}

/// What the picker draws: its three headers, and the row of choices of the
/// hovered header with the selected choice, if any.
#[derive(Debug, Clone, PartialEq, Eq)]
pub struct ModeSelectionLayout {
    pub quote: HeaderStyle,
    pub words: HeaderStyle,
    pub time: HeaderStyle,
    pub choices: Vec<usize>,
    pub highlighted_choice: Option<usize>,
}

/// The header styles of a picker state: (quote, words, time).
pub open spec fn layout_headers(o: ModeOption) -> (HeaderStyle, HeaderStyle, HeaderStyle) {
    match o {
        ModeOption::Quote => (HeaderStyle::Highlighted, HeaderStyle::Plain, HeaderStyle::Plain),
        ModeOption::Words(WordSelectionOption::Selected(_)) => (HeaderStyle::Plain, HeaderStyle::Dimmed, HeaderStyle::Plain),
        ModeOption::Words(WordSelectionOption::Placeholder(_)) => (HeaderStyle::Plain, HeaderStyle::Highlighted, HeaderStyle::Plain),
        ModeOption::Time(TimeSelectionOption::Selected(_)) => (HeaderStyle::Plain, HeaderStyle::Plain, HeaderStyle::Dimmed),
        ModeOption::Time(TimeSelectionOption::Placeholder(_)) => (HeaderStyle::Plain, HeaderStyle::Plain, HeaderStyle::Highlighted),
    }
}

/// The row of choices shown under the hovered header.
pub open spec fn layout_choices(o: ModeOption) -> Seq<usize> {
    match o {
        ModeOption::Quote => Seq::<usize>::empty(),
        ModeOption::Words(_) => seq![10usize, 25usize, 50usize, 100usize],
        ModeOption::Time(_) => seq![15usize, 30usize, 60usize, 120usize],
    }
}

/// The position of the highlighted choice in the row.
pub open spec fn layout_highlight(o: ModeOption) -> Option<usize> {
    match o {
        ModeOption::Words(WordSelectionOption::Selected(w)) => Some(words_index(w)),
        ModeOption::Time(TimeSelectionOption::Selected(t)) => Some(time_index(t)),
        _ => None,
    }
}

/// The first position of `x` in `v`.
fn position_of(v: &Vec<usize>, x: usize) -> (r: Option<usize>)
    ensures
        match r {
            Some(i) => i < v@.len() && v@[i as int] == x && forall|j: int| 0 <= j < i ==> v@[j] != x,
            None => forall|j: int| 0 <= j < v@.len() ==> v@[j] != x,
        },
{
    let mut i: usize = 0;
    while i < v.len()
        invariant
            i <= v@.len(),
            forall|j: int| 0 <= j < i ==> v@[j] != x,
        decreases v@.len() - i,
    {
        if v[i] == x {
            return Some(i);
        }
        i = i + 1;
    }
    None
}

impl ModeSelection {
    /// A picker showing `initial_mode` as selected.
    pub fn new(initial_mode: Mode) -> (r: Self)
        requires
            is_selectable_mode(initial_mode),
        ensures
            r@ == option_of_mode(initial_mode),
    {
        ModeSelection { selected_mode: ModeOption::from_mode(initial_mode) }
    }

    /// The mode the picker selects, if it is not only hovering a header.
    pub fn to_mode(&self) -> (r: Option<Mode>)
        ensures
            r == mode_of_option(self@),
    {
        self.selected_mode.to_mode()
    }

    pub fn handle_left(&mut self)
        ensures
            final(self)@ == option_left(old(self)@),
    {
        self.selected_mode = match &self.selected_mode {
            ModeOption::Quote => ModeOption::Time(TimeSelectionOption::Placeholder(TimeOption::Fifteen)),
            ModeOption::Words(WordSelectionOption::Placeholder(_)) => ModeOption::Quote,
            ModeOption::Words(WordSelectionOption::Selected(w)) => ModeOption::Words(
                WordSelectionOption::Selected(w.clone().prev()),
            ),
            ModeOption::Time(TimeSelectionOption::Placeholder(_)) => ModeOption::Words(
                WordSelectionOption::Placeholder(WordsOption::Ten),
            ),
            ModeOption::Time(TimeSelectionOption::Selected(t)) => ModeOption::Time(
                TimeSelectionOption::Selected(t.clone().prev()),
            ),
        }
    }

    pub fn handle_right(&mut self)
        ensures
            final(self)@ == option_right(old(self)@),
    {
        self.selected_mode = match &self.selected_mode {
            ModeOption::Quote => ModeOption::Words(WordSelectionOption::Placeholder(WordsOption::Ten)),
            ModeOption::Words(WordSelectionOption::Placeholder(_)) => ModeOption::Time(
                TimeSelectionOption::Placeholder(TimeOption::Fifteen),
            ),
            ModeOption::Words(WordSelectionOption::Selected(w)) => ModeOption::Words(
                WordSelectionOption::Selected(w.clone().next()),
            ),
            ModeOption::Time(TimeSelectionOption::Placeholder(_)) => ModeOption::Quote,
            ModeOption::Time(TimeSelectionOption::Selected(t)) => ModeOption::Time(
                TimeSelectionOption::Selected(t.clone().next()),
            ),
        }
    }

    pub fn handle_up(&mut self)
        ensures
            final(self)@ == option_up(old(self)@),
    {
        if let ModeOption::Words(WordSelectionOption::Selected(w)) = &self.selected_mode {
            self.selected_mode = ModeOption::Words(WordSelectionOption::Placeholder(w.clone()));
        } else if let ModeOption::Time(TimeSelectionOption::Selected(t)) = &self.selected_mode {
            self.selected_mode = ModeOption::Time(TimeSelectionOption::Placeholder(t.clone()));
        }
    }

    pub fn handle_down(&mut self)
        ensures
            final(self)@ == option_down(old(self)@),
    {
        if let ModeOption::Words(WordSelectionOption::Placeholder(w)) = &self.selected_mode {
            self.selected_mode = ModeOption::Words(WordSelectionOption::Selected(w.clone()));
        } else if let ModeOption::Time(TimeSelectionOption::Placeholder(t)) = &self.selected_mode {
            self.selected_mode = ModeOption::Time(TimeSelectionOption::Selected(t.clone()));
        }
    }

    /// What the picker draws in its current state.
    pub fn layout(&self) -> (r: ModeSelectionLayout)
        ensures
            (r.quote, r.words, r.time) == layout_headers(self@),
            r.choices@ == layout_choices(self@),
            r.highlighted_choice == layout_highlight(self@),
    {
        match &self.selected_mode {
            ModeOption::Quote => ModeSelectionLayout {
                quote: HeaderStyle::Highlighted,
                words: HeaderStyle::Plain,
                time: HeaderStyle::Plain,
                choices: Vec::new(),
                highlighted_choice: None,
            },
            ModeOption::Words(selected_word) => {
                let choices: Vec<usize> = vec![
                    WordsOption::Ten.to_num(),
                    WordsOption::Twentyfive.to_num(),
                    WordsOption::Fifty.to_num(),
                    WordsOption::Hundred.to_num(),
                ];
                assert(choices@ =~= layout_choices(self@));
                let (words, highlighted_choice) = match selected_word {
                    WordSelectionOption::Selected(word) => {
                        let found = position_of(&choices, word.to_num());
                        match found {
                            Some(i) => (HeaderStyle::Dimmed, Some(i)),
                            None => (HeaderStyle::Highlighted, None),
                        }
                    },
                    WordSelectionOption::Placeholder(_) => (HeaderStyle::Highlighted, None),
                };
                ModeSelectionLayout {
                    quote: HeaderStyle::Plain,
                    words,
                    time: HeaderStyle::Plain,
                    choices,
                    highlighted_choice,
                }
            },
            ModeOption::Time(selected_time) => {
                let choices: Vec<usize> = vec![
                    TimeOption::Fifteen.to_num(),
                    TimeOption::Thirty.to_num(),
                    TimeOption::Sixty.to_num(),
                    TimeOption::HundredAndTwenty.to_num(),
                ];
                assert(choices@ =~= layout_choices(self@));
                let (time, highlighted_choice) = match selected_time {
                    TimeSelectionOption::Selected(t) => {
                        let found = position_of(&choices, t.to_num());
                        match found {
                            Some(i) => (HeaderStyle::Dimmed, Some(i)),
                            None => (HeaderStyle::Highlighted, None),
                        }
                    },
                    TimeSelectionOption::Placeholder(_) => (HeaderStyle::Highlighted, None),
                };
                ModeSelectionLayout {
                    quote: HeaderStyle::Plain,
                    words: HeaderStyle::Plain,
                    time,
                    choices,
                    highlighted_choice,
                }
            },
        }
    }
}

/// Stepping to the next choice and back (or back and forward) returns to the
/// same choice, and four steps in one direction go round the row.
pub proof fn lemma_option_cycles(w: WordsOption, t: TimeOption)
    ensures
        words_prev(words_next(w)) == w,
        words_next(words_prev(w)) == w,
        words_next(words_next(words_next(words_next(w)))) == w,
        time_prev(time_next(t)) == t,
        time_next(time_prev(t)) == t,
        time_next(time_next(time_next(time_next(t)))) == t,
{
}

/// A picker opened on a mode selects that mode.
pub proof fn lemma_mode_option_roundtrip(m: Mode)
    requires
        is_selectable_mode(m),
    ensures
        mode_of_option(option_of_mode(m)) == Some(m),
{
}

/// Every mode the picker selects is a mode it offers, and opening a picker on
/// it gives back the same picker state.
pub proof fn lemma_option_mode_roundtrip(o: ModeOption)
    ensures
        mode_of_option(o) matches Some(m) ==> is_selectable_mode(m) && option_of_mode(m) == o,
        mode_of_option(o) is None <==> is_placeholder(o),
{
}

/// Pressing down after pressing up selects the previously selected choice
/// again; up and down never leave the current header.
pub proof fn lemma_up_then_down(o: ModeOption)
    requires
        !is_placeholder(o),
    ensures
        option_down(option_up(o)) == o,
        (option_up(o) is Quote) == (o is Quote),
        (option_up(o) is Words) == (o is Words),
        (option_up(o) is Time) == (o is Time),
{
}

/// Left undoes right and right undoes left, except on a hovered header that
/// does not remember the first choice of its row (entering a header from the
/// side always hovers it with the first choice).
pub proof fn lemma_left_right_inverse(o: ModeOption)
    requires
        o is Words && is_placeholder(o) ==> o == ModeOption::Words(WordSelectionOption::Placeholder(WordsOption::Ten)),
        o is Time && is_placeholder(o) ==> o == ModeOption::Time(TimeSelectionOption::Placeholder(TimeOption::Fifteen)),
    ensures
        option_left(option_right(o)) == o,
        option_right(option_left(o)) == o,
{
}

/// Three presses to the right on the headers return to the quote header.
pub proof fn lemma_headers_cycle()
    ensures
        option_right(option_right(option_right(ModeOption::Quote))) == ModeOption::Quote,
        option_left(option_left(option_left(ModeOption::Quote))) == ModeOption::Quote,
{
}

/// The picker highlights a choice only when it selects a mode, and then the
/// highlighted choice is that mode's number and its row's header is dimmed.
/// While it only hovers a header, that header is highlighted and no choice
/// is; on the quote header, only the quote header is highlighted and no row
/// of choices is shown.
pub proof fn lemma_layout_follows_selection(o: ModeOption)
    ensures
        layout_highlight(o) is Some ==> mode_of_option(o) is Some,
        layout_highlight(o) matches Some(i) ==> i < layout_choices(o).len() && match mode_of_option(o) {
            Some(Mode::Words(n)) => layout_choices(o)[i as int] == n && layout_headers(o).1 == HeaderStyle::Dimmed,
            Some(Mode::Time(t)) => layout_choices(o)[i as int] == t && layout_headers(o).2 == HeaderStyle::Dimmed,
            _ => false,
        },
        mode_of_option(o) is None ==> layout_highlight(o) is None,
        mode_of_option(o) is None && o is Words ==> layout_headers(o) == (HeaderStyle::Plain, HeaderStyle::Highlighted, HeaderStyle::Plain),
        mode_of_option(o) is None && o is Time ==> layout_headers(o) == (HeaderStyle::Plain, HeaderStyle::Plain, HeaderStyle::Highlighted),
        o is Quote ==> layout_headers(o) == (HeaderStyle::Highlighted, HeaderStyle::Plain, HeaderStyle::Plain)
            && layout_choices(o).len() == 0 && layout_highlight(o) is None,
{
}

/// Up never selects a mode: from a row of choices it only hovers the row's
/// header, and on a header (or on the quote) it changes nothing. Down never
/// leaves a selected choice or the quote.
pub proof fn lemma_up_never_selects(o: ModeOption)
    ensures
        !(o is Quote) ==> mode_of_option(option_up(o)) is None,
        is_placeholder(o) || o is Quote ==> option_up(o) == o,
        !is_placeholder(o) ==> option_down(o) == o,
        is_placeholder(o) ==> mode_of_option(option_down(o)) is Some,
{
}

} // verus!
