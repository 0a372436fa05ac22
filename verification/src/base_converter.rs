use vstd::prelude::*;
use crate::natural::Natural;
use crate::radix::{
    is_numeral, lemma_numeral_canonical, lemma_numeral_round_trip, lemma_upper_same_value,
    lemma_upper_without_letters, numeral, numeral_value, parse, to_string, upper, uppercase,
};

verus! {

/// The radices shown, in display order.
pub const BASES: [u32; 5] = [2, 8, 10, 16, 36];

/// Whether `base` is one of the radices shown.
pub open spec fn is_base(base: u32) -> bool {
    base == 2 || base == 8 || base == 10 || base == 16 || base == 36
}

/// What a field shows, seen from outside.
#[derive(Clone, Copy, Debug, PartialEq, Eq, Structural)]
pub enum FieldStatus {
    /// Nothing entered: the field is blank.
    Empty,
    /// The field shows the shared value written in its radix.
    Valid,
    /// The field shows text that could not be read as a number, because it
    /// holds a character that is not a digit of the radix.
    Erroring,
}

/// The mathematical state of the converter.
pub struct State {
    /// The shared number, if one has been entered.
    pub value: Option<nat>,
    /// The radix whose field holds rejected text, if any.
    pub error: Option<u32>,
    /// Whether letters are displayed in uppercase.
    pub uppercase: bool,
    /// The text most recently rejected.
    pub rejected: Seq<char>,
}

impl State {
    /// The state after the field of `base` has been edited to hold `text`.
    pub open spec fn edit(self, base: u32, text: Seq<char>) -> State {
        if text.len() == 0 {
            State { value: None, error: None, ..self }
        } else if is_numeral(text, base) {
            State { value: Some(numeral_value(text, base)), error: None, ..self }
        } else {
            State { error: Some(base), rejected: text, ..self }
        }
    }

    /// The state after the uppercase switch has been flipped.
    pub open spec fn toggle(self) -> State {
        State { uppercase: !self.uppercase, ..self }
    }

    /// Whether the field of `base` is marked as erroneous.
    pub open spec fn flagged(self, base: u32) -> bool {
        self.error == Some(base)
    }

    /// The shared value written in `base` with the current casing, or the
    /// empty text when there is no value.
    pub open spec fn derived(self, base: u32) -> Seq<char> {
        match self.value {
            None => Seq::empty(),
            Some(n) => if self.uppercase {
                upper(numeral(n, base))
            } else {
                numeral(n, base)
            },
        }
    }

    /// The text displayed in the field of `base`: the rejected text for the
    /// field in error, the derived text for every other field.
    pub open spec fn field(self, base: u32) -> Seq<char> {
        if self.flagged(base) {
            self.rejected
        } else {
            self.derived(base)
        }
    }

    /// Where the field of `base` stands.
    pub open spec fn status(self, base: u32) -> FieldStatus {
        if self.flagged(base) {
            FieldStatus::Erroring
        } else if self.value is Some {
            FieldStatus::Valid
        } else {
            FieldStatus::Empty
        }
    }
}

/// The settings and the shared value of the converter.
#[derive(Debug)]
pub struct Props {
    pub uppercase: bool,
    pub value: Option<Natural>,
    pub error: Option<u32>,
}

impl Default for Props {
    /// Lowercase display, no value, no error.
    fn default() -> (props: Props)
        ensures
            !props.uppercase,
            props.value is None,
            props.error is None,
    {
        Props { uppercase: false, value: None, error: None }
    }
}

/// An event from the rendering surface.
#[derive(Debug)]
pub enum Msg {
    /// The field of `base` now holds `text`.
    Input { base: u32, text: String },
    /// The uppercase switch was clicked.
    Uppercase,
}

/// One rendered input field.
#[derive(Debug)]
pub struct Field {
    pub base: u32,
    pub classes: Vec<&'static str>,
    pub value: String,
}

/// The converter: one shared number displayed in several radices at once.
#[derive(Debug)]
pub struct Model {
    props: Props,
    rejected: String,
}

impl View for Model {
    type V = State;

    closed spec fn view(&self) -> State {
        State {
            value: match self.props.value {
                Some(n) => Some(n@),
                None => None,
            },
            error: self.props.error,
            uppercase: self.props.uppercase,
            rejected: self.rejected@,
        }
    }
}

impl Model {
    /// A converter that starts from `props`, with no rejected text.
    pub fn create(props: Props) -> (model: Model)
        ensures
            model@.uppercase == props.uppercase,
            model@.error == props.error,
            model@.value == match props.value {
                Some(n) => Some(n@),
                None => None,
            },
            model@.rejected == Seq::<char>::empty(),
    {
        Model { props, rejected: String::new() }
    }

    /// Applies an event and reports that the fields must be rendered again.
    pub fn update(&mut self, msg: Msg) -> (render: bool)
        requires
            msg matches Msg::Input { base, .. } ==> is_base(base),
        ensures
            render,
            final(self)@ == match msg {
                Msg::Input { base, text } => old(self)@.edit(base, text@),
                Msg::Uppercase => old(self)@.toggle(),
            },
    {
        match msg {
            Msg::Input { base, text } => {
                self.on_edit(base, text.as_str());
            },
            Msg::Uppercase => {
                self.toggle_uppercase();
            },
        }
        true
    }

    /// New properties from outside are ignored: the state stays as it is and
    /// nothing needs rendering.
    pub fn change(&mut self, _props: Props) -> (render: bool)
        ensures
            !render,
            final(self)@ == old(self)@,
    {
        false
    }

    /// Records that the field of `base` now holds `text`.
    ///
    /// An empty text clears the value and the error.  A numeral of `base`
    /// becomes the new value and clears the error.  Any other text is kept as
    /// the rejected text of `base`, and the value stays as it was.
    pub fn on_edit(&mut self, base: u32, text: &str)
        requires
            is_base(base),
        ensures
            final(self)@ == old(self)@.edit(base, text@),
    {
        if text.is_empty() {
            self.props.value = None;
            self.props.error = None;
        } else {
            match parse(base, text) {
                Some(n) => {
                    self.props.value = Some(n);
                    self.props.error = None;
                },
                None => {
                    self.props.error = Some(base);
                    self.rejected = text.to_owned();
                },
            }
        }
    }

    /// Flips the casing of displayed letters; value and error stay.
    pub fn toggle_uppercase(&mut self)
        ensures
            final(self)@ == old(self)@.toggle(),
    {
        self.props.uppercase = !self.props.uppercase;
    }

    /// Whether letters are displayed in uppercase.
    pub fn uppercase(&self) -> (on: bool)
        ensures
            on == self@.uppercase,
    {
        self.props.uppercase
    }

    /// The radix whose field holds rejected text, if any.
    pub fn error_radix(&self) -> (error: Option<u32>)
        ensures
            error == self@.error,
    {
        self.props.error
    }

    /// The shared value, if one has been entered.
    pub fn value(&self) -> (value: Option<&Natural>)
        ensures
            value is Some == self@.value is Some,
            value is Some ==> value.unwrap()@ == self@.value.unwrap(),
    {
        self.props.value.as_ref()
    }

    /// Whether the field of `base` is to be marked as erroneous.
    pub fn is_error(&self, base: u32) -> (flagged: bool)
        ensures
            flagged == self@.flagged(base),
    {
        match self.props.error {
            Some(e) => e == base,
            None => false,
        }
    }

    /// Where the field of `base` stands.
    pub fn field_status(&self, base: u32) -> (status: FieldStatus)
        ensures
            status == self@.status(base),
    {
        if self.is_error(base) {
            FieldStatus::Erroring
        } else if self.props.value.is_some() {
            FieldStatus::Valid
        } else {
            FieldStatus::Empty
        }
    }

    /// The text to display in the field of `base`.
    pub fn field_text(&self, base: u32) -> (out: String)
        requires
            is_base(base),
        ensures
            out@ == self@.field(base),
    {
        if self.is_error(base) {
            self.rejected.clone()
        } else {
            match &self.props.value {
                None => String::new(),
                Some(n) => {
                    let digits = to_string(base, n);
                    if self.props.uppercase {
                        uppercase(digits.as_str())
                    } else {
                        digits
                    }
                },
            }
        }
    }

    /// The style classes of the field of `base`: always `input`, followed by
    /// `is-danger` when the field is in error.
    pub fn field_classes(&self, base: u32) -> (classes: Vec<&'static str>)
        ensures
            classes@.len() == if self@.flagged(base) { 2nat } else { 1nat },
            classes@[0]@ == "input"@,
            self@.flagged(base) ==> classes@[1]@ == "is-danger"@,
    {
        let mut classes: Vec<&'static str> = Vec::new();
        classes.push("input");
        if self.is_error(base) {
            classes.push("is-danger");
        }
        classes
    }

    /// The fields to render, one for each of `BASES`, in order.
    pub fn fields(&self) -> (out: Vec<Field>)
        ensures
            out@.len() == BASES@.len(),
            forall|i: int|
                0 <= i < out@.len() ==> {
                    let f = #[trigger] out@[i];
                    &&& f.base == BASES@[i]
                    &&& f.value@ == self@.field(BASES@[i])
                    &&& f.classes@.len() == if self@.flagged(BASES@[i]) { 2nat } else { 1nat }
                    &&& f.classes@[0]@ == "input"@
                    &&& self@.flagged(BASES@[i]) ==> f.classes@[1]@ == "is-danger"@
                },
    {
        let mut out: Vec<Field> = Vec::new();
        let mut i: usize = 0;
        while i < BASES.len()
            invariant
                i <= BASES@.len(),
                BASES@.len() == 5,
                forall|k: int| 0 <= k < 5 ==> is_base(#[trigger] BASES@[k]),
                out@.len() == i,
                forall|k: int|
                    0 <= k < i ==> {
                        let f = #[trigger] out@[k];
                        &&& f.base == BASES@[k]
                        &&& f.value@ == self@.field(BASES@[k])
                        &&& f.classes@.len() == if self@.flagged(BASES@[k]) { 2nat } else { 1nat }
                        &&& f.classes@[0]@ == "input"@
                        &&& self@.flagged(BASES@[k]) ==> f.classes@[1]@ == "is-danger"@
                    },
            decreases BASES@.len() - i,
        {
            let base = BASES[i];
            let field = Field {
                base,
                classes: self.field_classes(base),
                value: self.field_text(base),
            };
            out.push(field);
            i += 1;
        }
        out
    }
}

/// Entering the canonical numeral of `n` in the field of one radix makes `n`
/// the shared value, clears the error, and makes the field of every radix
/// show the canonical numeral of `n` in that radix (in uppercase when the
/// uppercase display is on).
pub proof fn lemma_edit_shows_in_every_base(s: State, n: nat, from: u32, to: u32)
    requires
        is_base(from),
        is_base(to),
    ensures
        s.edit(from, numeral(n, from)).value == Some(n),
        s.edit(from, numeral(n, from)).error is None,
        !s.uppercase ==> s.edit(from, numeral(n, from)).field(to) == numeral(n, to),
        s.uppercase ==> s.edit(from, numeral(n, from)).field(to) == upper(numeral(n, to)),
{
    lemma_numeral_round_trip(n, from);
}

/// Letters are read in either case: entering the uppercase form of a
/// canonical numeral has the same effect as entering the numeral itself.
pub proof fn lemma_edit_ignores_case(s: State, n: nat, base: u32)
    requires
        is_base(base),
    ensures
        s.edit(base, upper(numeral(n, base))) == s.edit(base, numeral(n, base)),
{
    lemma_numeral_round_trip(n, base);
    lemma_upper_same_value(numeral(n, base), base);
    lemma_numeral_canonical(n, base);
    assert(upper(numeral(n, base)).len() > 0);
}

/// Clearing any field clears the value and the error, and every field then
/// shows the empty text.
pub proof fn lemma_edit_empty_clears(s: State, base: u32, other: u32)
    ensures
        s.edit(base, Seq::empty()).value is None,
        s.edit(base, Seq::empty()).error is None,
        s.edit(base, Seq::empty()).field(other) == Seq::<char>::empty(),
        s.edit(base, Seq::empty()).status(other) == FieldStatus::Empty,
{
}

/// Text that is not empty and not a numeral of the edited radix is rejected:
/// that radix becomes the one in error and its field shows the text as
/// entered, while the value, the casing and the derived text of every other
/// field stay as they were.
pub proof fn lemma_edit_rejected_keeps_value(s: State, base: u32, text: Seq<char>, other: u32)
    requires
        text.len() > 0,
        !is_numeral(text, base),
    ensures
        s.edit(base, text).error == Some(base),
        s.edit(base, text).value == s.value,
        s.edit(base, text).uppercase == s.uppercase,
        s.edit(base, text).field(base) == text,
        s.edit(base, text).status(base) == FieldStatus::Erroring,
        other != base ==> s.edit(base, text).field(other) == s.derived(other),
        other != base ==> s.edit(base, text).status(other) != FieldStatus::Erroring,
{
}

/// At most one field is in error, and every field that is not shows the
/// derived text: the canonical numeral of the value, or nothing without one.
pub proof fn lemma_fields_consistent(s: State, a: u32, b: u32)
    requires
        is_base(a),
        is_base(b),
    ensures
        s.flagged(a) && s.flagged(b) ==> a == b,
        !s.flagged(a) && s.value is None ==> s.field(a) == Seq::<char>::empty(),
        !s.flagged(a) && !s.uppercase && s.value is Some ==> s.field(a) == numeral(
            s.value.unwrap(),
            a,
        ),
        !s.flagged(a) && s.value is Some ==> numeral_value(s.field(a), a) == s.value.unwrap(),
{
    if s.value is Some {
        lemma_numeral_round_trip(s.value.unwrap(), a);
        lemma_upper_same_value(numeral(s.value.unwrap(), a), a);
    }
}

/// The uppercase switch changes nothing but the casing: value and error stay,
/// the field in error keeps its text, the fields of radices up to ten show
/// the same text as before, and flipping the switch twice restores the state.
pub proof fn lemma_toggle_only_changes_case(s: State, base: u32)
    requires
        is_base(base),
    ensures
        s.toggle().value == s.value,
        s.toggle().error == s.error,
        s.toggle().toggle() == s,
        s.flagged(base) ==> s.toggle().field(base) == s.field(base),
        base <= 10 ==> s.toggle().field(base) == s.field(base),
        s.toggle().field(base) == upper(s.field(base)) || s.field(base) == upper(
            s.toggle().field(base),
        ) || s.flagged(base),
{
    if s.value is Some && base <= 10 {
        lemma_upper_without_letters(s.value.unwrap(), base);
    }
    if s.value is None {
        assert(upper(Seq::<char>::empty()) =~= Seq::<char>::empty());
    }
}

} // verus!
