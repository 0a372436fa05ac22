use vstd::prelude::*;
use crate::text::to_chars;

verus! {

/// Whether `c` is whitespace: whether it has the Unicode property
/// `White_Space`.  These are the controls from tab to carriage return, the
/// space, the next-line control, the no-break space, the Ogham space mark,
/// the spaces from en quad to hair space, the line and the paragraph
/// separator, the narrow no-break space, the medium mathematical space and
/// the ideographic space.
pub open spec fn is_whitespace(c: char) -> bool {
    ||| '\u{9}' <= c <= '\u{d}'
    ||| c == '\u{20}'
    ||| c == '\u{85}'
    ||| c == '\u{a0}'
    ||| c == '\u{1680}'
    ||| '\u{2000}' <= c <= '\u{200a}'
    ||| c == '\u{2028}'
    ||| c == '\u{2029}'
    ||| c == '\u{202f}'
    ||| c == '\u{205f}'
    ||| c == '\u{3000}'
}

/// `char::is_whitespace` tells whether a character has the Unicode property
/// `White_Space`.
pub assume_specification[ char::is_whitespace ](c: char) -> (b: bool)
    ensures
        b == is_whitespace(c),
;

/// Whether a word starts at position `i` of `s`: the character there is not
/// whitespace, and it is the first of the text or follows whitespace.
pub open spec fn starts_word(s: Seq<char>, i: int) -> bool {
    !is_whitespace(s[i]) && (i == 0 || is_whitespace(s[i - 1]))
}

/// The number of words in `s`: maximal runs of characters that are not
/// whitespace.
pub open spec fn word_count(s: Seq<char>) -> nat
    decreases s.len(),
{
    if s.len() == 0 {
        0
    } else {
        word_count(s.drop_last()) + if starts_word(s, s.len() - 1) {
            1nat
        } else {
            0nat
        }
    }
}

/// The number of line feeds in `s`.
pub open spec fn line_feed_count(s: Seq<char>) -> nat
    decreases s.len(),
{
    if s.len() == 0 {
        0
    } else {
        line_feed_count(s.drop_last()) + if s.last() == '\n' {
            1nat
        } else {
            0nat
        }
    }
}

/// The counts on display.
#[derive(Clone, Copy, Debug, PartialEq, Eq, Structural)]
pub struct Props {
    pub chars: usize,
    pub words: usize,
    pub lines: usize,
}

impl Default for Props {
    /// All counts zero.
    fn default() -> (props: Props)
        ensures
            props == (Props { chars: 0, words: 0, lines: 0 }),
    {
        Props { chars: 0, words: 0, lines: 0 }
    }
}

/// An event from the page.
#[derive(Debug)]
pub enum Msg {
    /// The input area now holds this text.
    Input(String),
}

/// The counts that describe `s`.
pub open spec fn counts_of(s: Seq<char>) -> Props {
    Props {
        chars: s.len() as usize,
        words: word_count(s) as usize,
        lines: line_feed_count(s) as usize,
    }
}

/// A text has no more words and no more line feeds than characters.
pub proof fn lemma_counts_bounded(s: Seq<char>)
    ensures
        word_count(s) <= s.len(),
        line_feed_count(s) <= s.len(),
    decreases s.len(),
{
    if s.len() > 0 {
        lemma_counts_bounded(s.drop_last());
    }
}

/// Counts the characters, the words and the line feeds of `text`.
pub fn count(text: &str) -> (props: Props)
    ensures
        props.chars == text@.len(),
        props.words == word_count(text@),
        props.lines == line_feed_count(text@),
        props == counts_of(text@),
{
    let s = to_chars(text);
    let mut words: usize = 0;
    let mut lines: usize = 0;
    let mut prev_ws = true;
    let mut i: usize = 0;
    assert(s@.take(0) =~= Seq::<char>::empty());
    while i < s.len()
        invariant
            i <= s.len(),
            words == word_count(s@.take(i as int)),
            lines == line_feed_count(s@.take(i as int)),
            words <= i,
            lines <= i,
            prev_ws == (i == 0 || is_whitespace(s@[i - 1])),
        decreases s.len() - i,
    {
        let c = s[i];
        let ghost next = s@.take(i + 1);
        assert(next.drop_last() =~= s@.take(i as int));
        assert(next.last() == c);
        assert(i > 0 ==> next[i - 1] == s@[i - 1]);
        let ws = c.is_whitespace();
        if prev_ws && !ws {
            words += 1;
        }
        prev_ws = ws;
        if c == '\n' {
            lines += 1;
        }
        i += 1;
    }
    assert(s@.take(s@.len() as int) =~= s@);
    Props { chars: s.len(), words, lines }
}

/// The character counter.
#[derive(Debug)]
pub struct Model {
    props: Props,
}

impl View for Model {
    type V = Props;

    closed spec fn view(&self) -> Props {
        self.props
    }
}

impl Model {
    pub fn create(props: Props) -> (model: Model)
        ensures
            model@ == props,
    {
        Model { props }
    }

    /// The counts on display.
    pub fn props(&self) -> (props: Props)
        ensures
            props == self@,
    {
        self.props
    }

    /// Recounts for the text of an event and asks for a rendering.
    pub fn update(&mut self, msg: Msg) -> (render: bool)
        ensures
            render,
            msg matches Msg::Input(text) && {
                &&& final(self)@.chars == text@.len()
                &&& final(self)@.words == word_count(text@)
                &&& final(self)@.lines == line_feed_count(text@)
                &&& final(self)@ == counts_of(text@)
            },
    {
        match msg {
            Msg::Input(text) => {
                self.props = count(text.as_str());
            },
        }
        true
    }

    /// New properties change nothing and need no rendering.
    pub fn change(&mut self, _props: Props) -> (render: bool)
        ensures
            !render,
            final(self)@ == old(self)@,
    {
        false
    }
}

} // verus!
