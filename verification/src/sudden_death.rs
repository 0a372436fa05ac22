use vstd::prelude::*;
use url::Url;
use crate::text::{from_chars, line_views, lines_of, split_lines, to_chars};

verus! {

/// Text framed when nothing has been entered.
pub const DEFAULT_INPUT: &'static str = "突然の死";

/// Columns a character takes: one for ASCII, two for anything else.
pub open spec fn char_width_spec(c: char) -> nat {
    if c <= '\x7f' {
        1
    } else {
        2
    }
}

/// Columns a line takes: the sum of the widths of its characters.
pub open spec fn line_width(line: Seq<char>) -> nat
    decreases line.len(),
{
    if line.len() == 0 {
        0
    } else {
        line_width(line.drop_last()) + char_width_spec(line.last())
    }
}

/// The width of the widest line.
pub open spec fn max_width(lines: Seq<Seq<char>>) -> nat
    decreases lines.len(),
{
    if lines.len() == 0 {
        0
    } else {
        let rest = max_width(lines.drop_last());
        let last = line_width(lines.last());
        if last > rest {
            last
        } else {
            rest
        }
    }
}

/// The inner width of the frame: the widest line, rounded up to an even
/// number of columns.
pub open spec fn frame_width(lines: Seq<Seq<char>>) -> nat {
    let w = max_width(lines);
    if w % 2 == 1 {
        w + 1
    } else {
        w
    }
}

/// `n` copies of `c`.
pub open spec fn repeated(c: char, n: nat) -> Seq<char> {
    Seq::new(n, |i: int| c)
}

/// Filler for a margin of `margin` columns: one wide space for every two
/// columns, then two narrow spaces if a column is left over.
pub open spec fn padding(margin: nat) -> Seq<char> {
    repeated('　', margin / 2) + if margin % 2 == 1 {
        seq![' ', ' ']
    } else {
        Seq::empty()
    }
}

/// The upper border for a frame of inner width `width`.
pub open spec fn top_border(width: nat) -> Seq<char> {
    seq!['＿', '人'] + repeated('人', width / 2) + seq!['人', '＿', '\n']
}

/// One framed line: the line between its margins, the left margin being the
/// smaller half of what the line leaves free.
pub open spec fn row(line: Seq<char>, width: nat) -> Seq<char> {
    let margin = (width - line_width(line)) as nat;
    let left = margin / 2;
    let right = (margin - left) as nat;
    seq!['＞', '　'] + padding(left) + line + padding(right) + seq!['　', '＜', '\n']
}

/// The framed lines, one after the other.
pub open spec fn rows(lines: Seq<Seq<char>>, width: nat) -> Seq<char>
    decreases lines.len(),
{
    if lines.len() == 0 {
        Seq::empty()
    } else {
        rows(lines.drop_last(), width) + row(lines.last(), width)
    }
}

/// How many spikes the lower border of a frame of inner width `width` has.
pub open spec fn spike_count(width: nat) -> nat {
    width * 13 / 2 / 8 + 3
}

/// `n` spikes, alternating `Y` and `^`, starting with `Y`.
pub open spec fn spikes(n: nat) -> Seq<char> {
    Seq::new(n, |i: int| if i % 2 == 0 { 'Y' } else { '^' })
}

/// The lower border for a frame of inner width `width`.
pub open spec fn bottom_border(width: nat) -> Seq<char> {
    seq!['￣'] + spikes(spike_count(width)) + seq!['￣', '\n']
}

/// The lines that get framed: those of the text, or a single empty line when
/// the text is empty.
pub open spec fn source_lines(s: Seq<char>) -> Seq<Seq<char>> {
    if s.len() == 0 {
        seq![Seq::<char>::empty()]
    } else {
        lines_of(s)
    }
}

/// The text set in a spiky speech balloon.
pub open spec fn framed(s: Seq<char>) -> Seq<char> {
    let lines = source_lines(s);
    let width = frame_width(lines);
    top_border(width) + rows(lines, width) + bottom_border(width)
}

/// Columns taken by `c`.
pub fn char_width(c: char) -> (w: usize)
    ensures
        w == char_width_spec(c),
{
    if c <= '\x7f' {
        1
    } else {
        2
    }
}

/// No line is wider than the widest.
pub proof fn lemma_max_width_bounds(lines: Seq<Seq<char>>, i: int)
    requires
        0 <= i < lines.len(),
    ensures
        line_width(lines[i]) <= max_width(lines),
    decreases lines.len(),
{
    if i < lines.len() - 1 {
        lemma_max_width_bounds(lines.drop_last(), i);
    }
}

/// Columns taken by `line`.
pub fn measure(line: &Vec<char>) -> (w: u128)
    ensures
        w == line_width(line@),
        w <= 2 * usize::MAX,
{
    let mut w: u128 = 0;
    let mut i: usize = 0;
    assert(line@.take(0) =~= Seq::<char>::empty());
    while i < line.len()
        invariant
            i <= line.len(),
            w == line_width(line@.take(i as int)),
            w <= 2 * i,
        decreases line.len() - i,
    {
        assert(line@.take(i + 1).drop_last() =~= line@.take(i as int));
        w = w + (char_width(line[i]) as u128);
        i += 1;
    }
    assert(line@.take(line@.len() as int) =~= line@);
    w
}

/// Appends `n` copies of `c`.
pub fn push_repeated(out: &mut Vec<char>, c: char, n: u128)
    ensures
        final(out)@ == old(out)@ + repeated(c, n as nat),
{
    let mut i: u128 = 0;
    assert(out@ =~= old(out)@ + repeated(c, 0));
    while i < n
        invariant
            i <= n,
            out@ == old(out)@ + repeated(c, i as nat),
        decreases n - i,
    {
        out.push(c);
        i += 1;
        assert(out@ =~= old(out)@ + repeated(c, i as nat));
    }
}

/// Appends the filler for a margin of `margin` columns.
pub fn push_padding(out: &mut Vec<char>, margin: u128)
    ensures
        final(out)@ == old(out)@ + padding(margin as nat),
{
    push_repeated(out, '　', margin / 2);
    if margin % 2 == 1 {
        out.push(' ');
        out.push(' ');
    }
    assert(out@ =~= old(out)@ + padding(margin as nat));
}

/// Appends the characters of `line`.
pub fn push_line(out: &mut Vec<char>, line: &Vec<char>)
    ensures
        final(out)@ == old(out)@ + line@,
{
    let mut i: usize = 0;
    assert(out@ =~= old(out)@ + line@.take(0));
    while i < line.len()
        invariant
            i <= line.len(),
            out@ == old(out)@ + line@.take(i as int),
        decreases line.len() - i,
    {
        out.push(line[i]);
        i += 1;
        assert(out@ =~= old(out)@ + line@.take(i as int));
    }
    assert(line@.take(line@.len() as int) =~= line@);
}

/// Appends `line` framed for an inner width of `width`.
pub fn push_row(out: &mut Vec<char>, line: &Vec<char>, width: u128)
    requires
        line_width(line@) <= width,
    ensures
        final(out)@ == old(out)@ + row(line@, width as nat),
{
    let margin = width - measure(line);
    let left = margin / 2;
    let right = margin - left;
    out.push('＞');
    out.push('　');
    push_padding(out, left);
    push_line(out, line);
    push_padding(out, right);
    out.push('　');
    out.push('＜');
    out.push('\n');
    assert(out@ =~= old(out)@ + row(line@, width as nat));
}

/// Appends `n` spikes.
pub fn push_spikes(out: &mut Vec<char>, n: u128)
    ensures
        final(out)@ == old(out)@ + spikes(n as nat),
{
    let mut i: u128 = 0;
    assert(out@ =~= old(out)@ + spikes(0));
    while i < n
        invariant
            i <= n,
            out@ == old(out)@ + spikes(i as nat),
        decreases n - i,
    {
        out.push(if i % 2 == 0 { 'Y' } else { '^' });
        i += 1;
        assert(out@ =~= old(out)@ + spikes(i as nat));
    }
}

/// The inner width of the frame around `lines`.
pub fn measure_frame(lines: &Vec<Vec<char>>) -> (width: u128)
    ensures
        width == frame_width(line_views(lines@)),
        width <= 2 * usize::MAX + 1,
        forall|i: int| 0 <= i < lines@.len() ==> line_width(#[trigger] lines@[i]@) <= width,
{
    let ghost views = line_views(lines@);
    let mut widest: u128 = 0;
    let mut i: usize = 0;
    assert(views.take(0) =~= Seq::<Seq<char>>::empty());
    while i < lines.len()
        invariant
            i <= lines.len(),
            views == line_views(lines@),
            widest == max_width(views.take(i as int)),
            widest <= 2 * usize::MAX,
        decreases lines.len() - i,
    {
        assert(views.take(i + 1).drop_last() =~= views.take(i as int));
        assert(views.take(i + 1).last() == lines@[i as int]@);
        let w = measure(&lines[i]);
        if w > widest {
            widest = w;
        }
        i += 1;
    }
    assert(views.take(views.len() as int) =~= views);
    assert forall|i: int| 0 <= i < lines@.len() implies line_width(#[trigger] lines@[i]@)
        <= widest by {
        lemma_max_width_bounds(views, i);
    }
    if widest % 2 == 1 {
        widest + 1
    } else {
        widest
    }
}

/// Sets `s` in a spiky speech balloon: an upper border, every line of the
/// text centred between side marks, and a lower border of spikes.
pub fn sudden_death(s: &str) -> (out: String)
    ensures
        out@ == framed(s@),
{
    let chars = to_chars(s);
    let lines = if chars.len() == 0 {
        let mut one: Vec<Vec<char>> = Vec::new();
        one.push(Vec::new());
        one
    } else {
        split_lines(&chars)
    };
    assert(line_views(lines@) =~= source_lines(s@));
    let ghost views = line_views(lines@);
    let width = measure_frame(&lines);

    let mut ret: Vec<char> = Vec::new();
    ret.push('＿');
    ret.push('人');
    push_repeated(&mut ret, '人', width / 2);
    ret.push('人');
    ret.push('＿');
    ret.push('\n');
    assert(ret@ =~= top_border(width as nat));

    let mut i: usize = 0;
    assert(views.take(0) =~= Seq::<Seq<char>>::empty());
    while i < lines.len()
        invariant
            i <= lines.len(),
            views == line_views(lines@),
            forall|k: int| 0 <= k < lines@.len() ==> line_width(#[trigger] lines@[k]@) <= width,
            ret@ == top_border(width as nat) + rows(views.take(i as int), width as nat),
        decreases lines.len() - i,
    {
        assert(views.take(i + 1).drop_last() =~= views.take(i as int));
        assert(views.take(i + 1).last() == lines@[i as int]@);
        push_row(&mut ret, &lines[i], width);
        i += 1;
        assert(ret@ =~= top_border(width as nat) + rows(views.take(i as int), width as nat));
    }
    assert(views.take(views.len() as int) =~= views);

    ret.push('￣');
    let low_width = width * 13 / 2 / 8 + 3;
    push_spikes(&mut ret, low_width);
    ret.push('￣');
    ret.push('\n');
    assert(ret@ =~= framed(s@));
    from_chars(&ret)
}

/// Address of the page that composes a post.
pub const TWEET_INTENT: &'static str = "https://twitter.com/intent/tweet";

/// Name of the query parameter that carries the text of the post.
pub const TWEET_PARAMETER: &'static str = "text";

/// Name of the browsing context a post is composed in.
pub const TWEET_TARGET: &'static str = "_blank";

/// What `Url::parse(base)`, followed by `query_pairs_mut().append_pair(name,
/// value)` on the parsed address, serialises to; `None` when `base` does not
/// parse.
pub uninterp spec fn url_with_query_pair(
    base: Seq<char>,
    name: Seq<char>,
    value: Seq<char>,
) -> Option<Seq<char>>;

/// Longest base address that `append_query_pair` takes, in characters.
pub const MAX_BASE_LEN: usize = 1024;

/// Parses `base` with `Url::parse`, appends one query pair with
/// `form_urlencoded::Serializer::append_pair`, and returns `Url::as_str` of
/// the outcome.  Trusted claim: the result depends on the three texts alone.
///
/// The address keeps its offsets in 32 bits and gives up when one does not
/// fit: the offset of the query, taken when the pair is appended, and the
/// offset of a fragment, taken when the fragment is put back behind the
/// pair.  A short base without a fragment leaves both cases out.
#[verifier::external_body]
fn append_query_pair(base: &str, name: &str, value: &str) -> (r: Option<String>)
    requires
        base@.len() <= MAX_BASE_LEN,
        !base@.contains('#'),
    ensures
        r.is_some() == url_with_query_pair(base@, name@, value@).is_some(),
        r.is_some() ==> r.unwrap()@ == url_with_query_pair(base@, name@, value@).unwrap(),
{
    match Url::parse(base) {
        Ok(mut url) => {
            url.query_pairs_mut().append_pair(name, value);
            Some(url.as_str().to_string())
        },
        Err(_) => None,
    }
}

/// The address that opens the composer with `text` filled in.
pub fn tweet_url(text: &str) -> (r: Option<String>)
    ensures
        r.is_some() == url_with_query_pair(TWEET_INTENT@, TWEET_PARAMETER@, text@).is_some(),
        r.is_some() ==> r.unwrap()@ == url_with_query_pair(
            TWEET_INTENT@,
            TWEET_PARAMETER@,
            text@,
        ).unwrap(),
{
    proof {
        reveal_strlit("https://twitter.com/intent/tweet");
        assert(TWEET_INTENT@.len() == 32);
        assert forall|i: int| 0 <= i < TWEET_INTENT@.len() implies TWEET_INTENT@[i] != '#' by {}
    }
    append_query_pair(TWEET_INTENT, TWEET_PARAMETER, text)
}

/// An event from the page.
#[derive(Debug)]
pub enum Msg {
    /// The input area now holds this text.
    Input(String),
    /// The post button was clicked while the output area held this text.
    Tweet(String),
}

/// What the page is to do in response to an event.
#[derive(Debug)]
pub enum Command {
    /// Replace the content of the output area.
    SetOutput(String),
    /// Open `url` in the browsing context named `target`.
    Open { url: String, target: String },
}

/// The generator page.  It keeps nothing between events.
#[derive(Debug)]
pub struct Model {}

impl Model {
    pub fn create() -> Model {
        Model {  }
    }

    /// The balloon shown before anything is entered.
    pub fn default_output(&self) -> (out: String)
        ensures
            out@ == framed(DEFAULT_INPUT@),
    {
        sudden_death(DEFAULT_INPUT)
    }

    /// Answers an event.
    ///
    /// New input asks for the output area to show the framed input.  A click
    /// on the post button asks for the composer to be opened on the text of
    /// the output area; no command results when no address could be built.
    pub fn update(&mut self, msg: Msg) -> (command: Option<Command>)
        ensures
            match msg {
                Msg::Input(text) => command matches Some(Command::SetOutput(out)) && out@
                    == framed(text@),
                Msg::Tweet(text) => match url_with_query_pair(
                    TWEET_INTENT@,
                    TWEET_PARAMETER@,
                    text@,
                ) {
                    Some(address) => command matches Some(Command::Open { url, target })
                        && url@ == address && target@ == TWEET_TARGET@,
                    None => command is None,
                },
            },
    {
        match msg {
            Msg::Input(text) => Some(Command::SetOutput(sudden_death(text.as_str()))),
            Msg::Tweet(text) => match tweet_url(text.as_str()) {
                Some(url) => Some(Command::Open { url, target: TWEET_TARGET.to_owned() }),
                None => None,
            },
        }
    }

    /// New properties change nothing and need no rendering.
    pub fn change(&mut self) -> (render: bool)
        ensures
            !render,
    {
        false
    }
}

} // verus!
