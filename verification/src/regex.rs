use vstd::prelude::*;
use grex::{Feature, RegExpBuilder};
use crate::text::{lines, lines_of};

verus! {

/// `grex::Feature`, the conversions the builder knows.  The enum has no
/// fields, and its variants are named here one by one, so it is declared with
/// its variants.
#[verifier::external_type_specification]
pub struct ExFeature(Feature);

/// Which conversions are switched on.
#[derive(Clone, Copy, Debug, PartialEq, Eq, Structural)]
pub struct Options {
    pub digit: bool,
    pub non_digit: bool,
    pub space: bool,
    pub non_space: bool,
    pub word: bool,
    pub non_word: bool,
    pub repetition: bool,
    pub case_insensitivity: bool,
    pub capturing_group: bool,
}

/// The one-element sequence of `feature` if it is switched on, else nothing.
pub open spec fn when(on: bool, feature: Feature) -> Seq<Feature> {
    if on {
        seq![feature]
    } else {
        Seq::empty()
    }
}

impl Options {
    /// The features that are switched on, in the order of the switches.
    pub open spec fn selected(self) -> Seq<Feature> {
        when(self.digit, Feature::Digit) + when(self.non_digit, Feature::NonDigit) + when(
            self.space,
            Feature::Space,
        ) + when(self.non_space, Feature::NonSpace) + when(self.word, Feature::Word) + when(
            self.non_word,
            Feature::NonWord,
        ) + when(self.repetition, Feature::Repetition) + when(
            self.case_insensitivity,
            Feature::CaseInsensitivity,
        ) + when(self.capturing_group, Feature::CapturingGroup)
    }

    /// Whether `feature` is switched on.
    pub open spec fn has(self, feature: Feature) -> bool {
        match feature {
            Feature::Digit => self.digit,
            Feature::NonDigit => self.non_digit,
            Feature::Space => self.space,
            Feature::NonSpace => self.non_space,
            Feature::Word => self.word,
            Feature::NonWord => self.non_word,
            Feature::Repetition => self.repetition,
            Feature::CaseInsensitivity => self.case_insensitivity,
            Feature::CapturingGroup => self.capturing_group,
        }
    }

    /// These options with the switch of `feature` set to `on`.
    pub open spec fn with(self, feature: Feature, on: bool) -> Options {
        match feature {
            Feature::Digit => Options { digit: on, ..self },
            Feature::NonDigit => Options { non_digit: on, ..self },
            Feature::Space => Options { space: on, ..self },
            Feature::NonSpace => Options { non_space: on, ..self },
            Feature::Word => Options { word: on, ..self },
            Feature::NonWord => Options { non_word: on, ..self },
            Feature::Repetition => Options { repetition: on, ..self },
            Feature::CaseInsensitivity => Options { case_insensitivity: on, ..self },
            Feature::CapturingGroup => Options { capturing_group: on, ..self },
        }
    }

    /// Every switch off.
    pub fn none() -> (options: Options)
        ensures
            options.selected() =~= Seq::<Feature>::empty(),
            forall|f: Feature| !options.has(f),
    {
        Options {
            digit: false,
            non_digit: false,
            space: false,
            non_space: false,
            word: false,
            non_word: false,
            repetition: false,
            case_insensitivity: false,
            capturing_group: false,
        }
    }

    /// Flips the switch of `feature` and returns its new position.
    pub fn toggle(&mut self, feature: Feature) -> (on: bool)
        ensures
            on == !old(self).has(feature),
            *final(self) == old(self).with(feature, on),
    {
        match feature {
            Feature::Digit => {
                self.digit = !self.digit;
                self.digit
            },
            Feature::NonDigit => {
                self.non_digit = !self.non_digit;
                self.non_digit
            },
            Feature::Space => {
                self.space = !self.space;
                self.space
            },
            Feature::NonSpace => {
                self.non_space = !self.non_space;
                self.non_space
            },
            Feature::Word => {
                self.word = !self.word;
                self.word
            },
            Feature::NonWord => {
                self.non_word = !self.non_word;
                self.non_word
            },
            Feature::Repetition => {
                self.repetition = !self.repetition;
                self.repetition
            },
            Feature::CaseInsensitivity => {
                self.case_insensitivity = !self.case_insensitivity;
                self.case_insensitivity
            },
            Feature::CapturingGroup => {
                self.capturing_group = !self.capturing_group;
                self.capturing_group
            },
        }
    }

    /// The features that are switched on, in the order of the switches.
    pub fn features(&self) -> (feats: Vec<Feature>)
        ensures
            feats@ == self.selected(),
    {
        let mut feats: Vec<Feature> = Vec::new();
        push_when(&mut feats, self.digit, Feature::Digit);
        assert(feats@ =~= when(self.digit, Feature::Digit));
        push_when(&mut feats, self.non_digit, Feature::NonDigit);
        push_when(&mut feats, self.space, Feature::Space);
        push_when(&mut feats, self.non_space, Feature::NonSpace);
        push_when(&mut feats, self.word, Feature::Word);
        push_when(&mut feats, self.non_word, Feature::NonWord);
        push_when(&mut feats, self.repetition, Feature::Repetition);
        push_when(&mut feats, self.case_insensitivity, Feature::CaseInsensitivity);
        push_when(&mut feats, self.capturing_group, Feature::CapturingGroup);
        feats
    }
}

/// Appends `feature` if it is switched on.
pub fn push_when(feats: &mut Vec<Feature>, on: bool, feature: Feature)
    ensures
        final(feats)@ == old(feats)@ + when(on, feature),
{
    if on {
        feats.push(feature);
        assert(feats@ =~= old(feats)@ + when(on, feature));
    } else {
        assert(feats@ =~= old(feats)@ + when(on, feature));
    }
}

impl Default for Options {
    /// Every switch off.
    fn default() -> (options: Options)
        ensures
            options.selected() =~= Seq::<Feature>::empty(),
    {
        Options::none()
    }
}

/// The flag an expression starts with: `(?i)` when letters are to match in
/// either case, nothing otherwise.
pub open spec fn flag(ignore_case: bool) -> Seq<char> {
    if ignore_case {
        seq!['(', '?', 'i', ')']
    } else {
        Seq::empty()
    }
}

/// Whether `expr` has the frame of a generated expression: the flag, then
/// `^`, then the expression proper, then `$`.
pub open spec fn is_anchored(expr: Seq<char>, ignore_case: bool) -> bool {
    let f = flag(ignore_case);
    &&& expr.len() >= f.len() + 2
    &&& expr.subrange(0, f.len() as int) == f
    &&& expr[f.len() as int] == '^'
    &&& expr.last() == '$'
}

/// The texts of a sequence of strings.
pub open spec fn texts(strings: Seq<String>) -> Seq<Seq<char>> {
    Seq::new(strings.len(), |i: int| strings[i]@)
}

/// The expression that `RegExpBuilder::from(test_cases).build()` infers from
/// test cases when no conversion is asked for.
pub uninterp spec fn plain_expression(test_cases: Seq<Seq<char>>) -> Seq<char>;

/// What may be shown for `text` under `options`.
///
/// Nothing for the empty text.  With every switch off, the expression the
/// builder infers from the lines of the text.  With a switch on, an anchored
/// expression, flagged exactly when case insensitivity is switched on: the
/// builder may give one of several equivalent expressions for the same lines
/// and switches.
pub open spec fn answers(text: Seq<char>, options: Options, out: Seq<char>) -> bool {
    if text.len() == 0 {
        out.len() == 0
    } else if options.selected().len() == 0 {
        out == plain_expression(lines_of(text)) && is_anchored(out, false)
    } else {
        is_anchored(out, options.case_insensitivity)
    }
}

/// `RegExpBuilder::from(test_cases).build()`: an expression inferred from the
/// test cases without any conversion.  `from` gives up on an empty list.
/// Trusted claim: the expression depends on the test cases alone, and it
/// stands between the anchors `^` and `$`, with no flag before them.
///
/// The builder sorts the test cases, joins them in a prefix tree, and merges
/// the states that accept the same endings.  It copies the edges of a merged
/// state from one of its members, and which one depends on how a hash set is
/// walked.  Without conversions the members do not differ in their edges:
/// states that accept the same endings were given the same edges in the same
/// order, because the test cases arrive ordered by length and then by bytes.
#[verifier::external_body]
fn build_plain(test_cases: &Vec<String>) -> (regexp: String)
    requires
        test_cases@.len() > 0,
    ensures
        regexp@ == plain_expression(texts(test_cases@)),
        is_anchored(regexp@, false),
{
    RegExpBuilder::from(test_cases).build()
}

/// `RegExpBuilder::from(test_cases).with_conversion_of(features).build()`: an
/// expression inferred from the test cases with the given conversions.
/// `from` and `with_conversion_of` give up on an empty list.  Trusted claim:
/// the expression stands between the anchors `^` and `$`, after the flag
/// `(?i)` exactly when the features hold `CaseInsensitivity`.  Nothing else
/// is claimed of it: with conversions, states that are merged may differ in
/// the order of their edges, and the same arguments can give alternatives in
/// a different order from one call to the next.
#[verifier::external_body]
fn build_converting(test_cases: &Vec<String>, features: &Vec<Feature>) -> (regexp: String)
    requires
        test_cases@.len() > 0,
        features@.len() > 0,
    ensures
        is_anchored(regexp@, features@.contains(Feature::CaseInsensitivity)),
{
    RegExpBuilder::from(test_cases).with_conversion_of(features).build()
}

/// A feature occurs in a concatenation exactly when it occurs in one of the
/// two parts.
pub proof fn lemma_contains_add(a: Seq<Feature>, b: Seq<Feature>, f: Feature)
    ensures
        (a + b).contains(f) <==> a.contains(f) || b.contains(f),
{
    if a.contains(f) {
        let i = choose|i: int| 0 <= i < a.len() && a[i] == f;
        assert((a + b)[i] == f);
    }
    if b.contains(f) {
        let j = choose|j: int| 0 <= j < b.len() && b[j] == f;
        assert((a + b)[a.len() + j] == f);
    }
    if (a + b).contains(f) {
        let k = choose|k: int| 0 <= k < (a + b).len() && (a + b)[k] == f;
        if k < a.len() {
            assert(a[k] == f);
        } else {
            assert(b[k - a.len()] == f);
        }
    }
}

/// `when(on, g)` holds `f` exactly when it is switched on and `g` is `f`.
pub proof fn lemma_when_contains(on: bool, g: Feature, f: Feature)
    ensures
        (when(on, g).contains(f)) <==> on && g == f,
{
    if on && g == f {
        assert(when(on, g)[0] == f);
    }
}

/// The selected features are exactly those that are switched on.
pub proof fn lemma_selected_has(options: Options, f: Feature)
    ensures
        options.selected().contains(f) <==> options.has(f),
{
    let w1 = when(options.digit, Feature::Digit);
    let w2 = when(options.non_digit, Feature::NonDigit);
    let w3 = when(options.space, Feature::Space);
    let w4 = when(options.non_space, Feature::NonSpace);
    let w5 = when(options.word, Feature::Word);
    let w6 = when(options.non_word, Feature::NonWord);
    let w7 = when(options.repetition, Feature::Repetition);
    let w8 = when(options.case_insensitivity, Feature::CaseInsensitivity);
    let w9 = when(options.capturing_group, Feature::CapturingGroup);
    let s2 = w1 + w2;
    let s3 = s2 + w3;
    let s4 = s3 + w4;
    let s5 = s4 + w5;
    let s6 = s5 + w6;
    let s7 = s6 + w7;
    let s8 = s7 + w8;
    let s9 = s8 + w9;
    assert(options.selected() == s9);
    lemma_when_contains(options.digit, Feature::Digit, f);
    lemma_when_contains(options.non_digit, Feature::NonDigit, f);
    lemma_when_contains(options.space, Feature::Space, f);
    lemma_when_contains(options.non_space, Feature::NonSpace, f);
    lemma_when_contains(options.word, Feature::Word, f);
    lemma_when_contains(options.non_word, Feature::NonWord, f);
    lemma_when_contains(options.repetition, Feature::Repetition, f);
    lemma_when_contains(options.case_insensitivity, Feature::CaseInsensitivity, f);
    lemma_when_contains(options.capturing_group, Feature::CapturingGroup, f);
    lemma_contains_add(w1, w2, f);
    lemma_contains_add(s2, w3, f);
    lemma_contains_add(s3, w4, f);
    lemma_contains_add(s4, w5, f);
    lemma_contains_add(s5, w6, f);
    lemma_contains_add(s6, w7, f);
    lemma_contains_add(s7, w8, f);
    lemma_contains_add(s8, w9, f);
}

/// Only the empty text has no lines.
pub proof fn lemma_no_lines_iff_empty(s: Seq<char>)
    ensures
        lines_of(s).len() == 0 <==> s.len() == 0,
{
}

/// An expression inferred from the lines of `text` with the conversions that
/// `options` switches on.
///
/// The empty text gives the empty output.  Any other text gives what the
/// builder infers from its lines: with every switch off the one expression
/// it infers without conversions, and otherwise an expression between the
/// anchors `^` and `$`, after the flag `(?i)` exactly when case insensitivity
/// is switched on.
pub fn generate(text: &str, options: &Options) -> (out: String)
    ensures
        answers(text@, *options, out@),
        out@.len() == 0 <==> text@.len() == 0,
{
    let test_cases = lines(text);
    proof {
        lemma_no_lines_iff_empty(text@);
        lemma_selected_has(*options, Feature::CaseInsensitivity);
        assert(texts(test_cases@) =~= lines_of(text@));
    }
    if test_cases.len() == 0 {
        String::new()
    } else {
        let feats = options.features();
        if feats.len() == 0 {
            build_plain(&test_cases)
        } else {
            build_converting(&test_cases, &feats)
        }
    }
}

/// An event from the page.
#[derive(Debug)]
pub enum Msg {
    /// The input area holds this text, or a switch was flipped while it did.
    Input(String),
}

/// The expression generator.
#[derive(Debug)]
pub struct Model {
    options: Options,
    output: String,
}

impl Model {
    /// The switches.
    pub closed spec fn options(&self) -> Options {
        self.options
    }

    /// The content of the output area.
    pub closed spec fn output(&self) -> Seq<char> {
        self.output@
    }

    /// A page with every switch off and nothing shown.
    pub fn create() -> (model: Model)
        ensures
            model.options().selected() =~= Seq::<Feature>::empty(),
            model.output().len() == 0,
    {
        Model { options: Options::none(), output: String::new() }
    }

    /// The switches.
    pub fn get_options(&self) -> (options: Options)
        ensures
            options == self.options(),
    {
        self.options
    }

    /// The content of the output area.
    pub fn get_output(&self) -> (text: &str)
        ensures
            text@ == self.output(),
    {
        self.output.as_str()
    }

    /// Flips the switch of `feature` and returns its new position.
    pub fn toggle(&mut self, feature: Feature) -> (on: bool)
        ensures
            on == !old(self).options().has(feature),
            final(self).options() == old(self).options().with(feature, on),
            final(self).output() == old(self).output(),
    {
        self.options.toggle(feature)
    }

    /// Generates the expression for the text of an event and asks for a
    /// rendering.  The switches stay as they are.
    pub fn update(&mut self, msg: Msg) -> (render: bool)
        ensures
            render,
            final(self).options() == old(self).options(),
            msg matches Msg::Input(text) && answers(
                text@,
                old(self).options(),
                final(self).output(),
            ),
    {
        match msg {
            Msg::Input(text) => {
                self.output = generate(text.as_str(), &self.options);
            },
        }
        true
    }

    /// New properties change nothing and need no rendering.
    pub fn change(&mut self) -> (render: bool)
        ensures
            !render,
            final(self).options() == old(self).options(),
            final(self).output() == old(self).output(),
    {
        false
    }
}

} // verus!
