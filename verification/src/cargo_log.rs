//! The build log that the tool shows under its spinner while cargo runs:
//! which lines count as progress, how many are kept, and how they are drawn.
use vstd::prelude::*;
use vstd::string::StringExecFns;
use crate::text::{
    chars_of, starts_with, starts_with_exec, string_of_chars, trim, trim_exec,
};

verus! {

broadcast use vstd::seq_lib::group_seq_properties;

/// How many progress lines the spinner shows at most.
pub const MAX_LOG_LINES: usize = 6;

/// The escape sequence that turns on green bold text: green foreground,
/// then bold.
pub open spec fn green_bold_on() -> Seq<char> {
    seq!['\x1b', '[', '3', '2', 'm', '\x1b', '[', '1', 'm']
}

/// The escape sequence that resets the text style.
pub open spec fn style_reset() -> Seq<char> {
    seq!['\x1b', '[', '0', 'm']
}

/// `text` drawn green and bold where `styled` holds, and plain otherwise.
pub open spec fn green_bold_text(text: Seq<char>, styled: bool) -> Seq<char> {
    if styled {
        green_bold_on() + text + style_reset()
    } else {
        text
    }
}

/// Whether the console draws styles on stdout (`console::colors_enabled`).
/// It depends on the terminal and the environment, so nothing is stated of
/// the result.
#[verifier::external_body]
fn stdout_colors_enabled() -> bool {
    console::colors_enabled()
}

/// Renders `text` with `console::Style::new().green().bold()` with styling
/// forced on or off by `styled`.  The contract states the escape sequences
/// that the crate's `Display` for a styled object writes for that style.
#[verifier::external_body]
fn green_bold(text: &str, styled: bool) -> (r: String)
    ensures
        r@ == green_bold_text(text@, styled),
{
    format!("{}", console::Style::new().green().bold().force_styling(styled).apply_to(text))
}

/// The words that mark the lines of cargo's output that are drawn
/// highlighted, in the order in which they are tried.
pub open spec fn cargo_keywords() -> Seq<Seq<char>> {
    seq![
        "Compiling"@,
        "Linking"@,
        "Finished"@,
        "Running"@,
        "Downloading"@,
        "Downloaded"@,
    ]
}

fn cargo_keyword(i: usize) -> (k: &'static str)
    requires
        i < 6,
    ensures
        k@ == cargo_keywords()[i as int],
{
    match i {
        0 => "Compiling",
        1 => "Linking",
        2 => "Finished",
        3 => "Running",
        4 => "Downloading",
        _ => "Downloaded",
    }
}

/// The first of the keywords from index `i` on that begins `line`.
pub open spec fn keyword_from(line: Seq<char>, i: int) -> Option<Seq<char>>
    decreases 6 - i,
{
    if i < 0 || i >= 6 {
        None
    } else if starts_with(line, cargo_keywords()[i]) {
        Some(cargo_keywords()[i])
    } else {
        keyword_from(line, i + 1)
    }
}

/// `line` with the keyword that begins it, if any, drawn green and bold.
pub open spec fn colorized_line(line: Seq<char>, styled: bool) -> Seq<char> {
    match keyword_from(line, 0) {
        Some(k) => green_bold_text(k, styled) + line.skip(k.len() as int),
        None => line,
    }
}

/// A keyword found from index `i` on begins the line.
proof fn lemma_keyword_begins_line(line: Seq<char>, i: int)
    ensures
        keyword_from(line, i) matches Some(k) ==> starts_with(line, k),
    decreases 6 - i,
{
    if 0 <= i < 6 && !starts_with(line, cargo_keywords()[i]) {
        lemma_keyword_begins_line(line, i + 1);
    }
}

/// Colouring a cargo line only adds style codes: unstyled, the line comes
/// back as it is; styled, it comes back as it is, or with the green-bold
/// code put before some prefix of it and the reset code after that prefix,
/// so that taking the two codes out gives back the line.
pub proof fn lemma_colorize_only_adds_style(line: Seq<char>)
    ensures
        colorized_line(line, false) == line,
        colorized_line(line, true) == line || exists|i: int|
            0 <= i <= line.len() && colorized_line(line, true) == green_bold_on() + line.take(i)
                + style_reset() + line.skip(i),
{
    lemma_keyword_begins_line(line, 0);
    match keyword_from(line, 0) {
        Some(k) => {
            assert(line.take(k.len() as int) =~= k);
            assert(colorized_line(line, false) =~= line);
            let i = k.len() as int;
            assert(colorized_line(line, true) == green_bold_on() + line.take(i) + style_reset()
                + line.skip(i));
        },
        None => {},
    }
}

/// `line` with its leading keyword drawn green and bold where `styled`
/// holds.
pub fn colorize_cargo_line_styled(line: &str, styled: bool) -> (r: String)
    ensures
        r@ == colorized_line(line@, styled),
{
    let mut i: usize = 0;
    while i < 6
        invariant
            i <= 6,
            keyword_from(line@, 0) == keyword_from(line@, i as int),
        decreases 6 - i,
    {
        let keyword = cargo_keyword(i);
        if starts_with_exec(line, keyword) {
            let v = chars_of(line);
            let k = chars_of(keyword);
            let rest = string_of_chars(&v, k.len(), v.len());
            assert(v@.subrange(k@.len() as int, v@.len() as int) =~= line@.skip(k@.len() as int));
            let mut r = green_bold(keyword, styled);
            r.append(rest.as_str());
            return r;
        }
        i += 1;
    }
    String::from_str(line)
}

/// `line` with its leading keyword drawn green and bold, as far as the
/// console draws styles.
pub fn colorize_cargo_line(line: &str) -> (r: String)
    ensures
        r@ == colorized_line(line@, true) || r@ == colorized_line(line@, false),
{
    colorize_cargo_line_styled(line, stdout_colors_enabled())
}

/// A line of cargo's error output that shows build progress: once trimmed,
/// it begins with `Compiling`, `Linking` or `Finished`.
pub open spec fn is_progress_line(line: Seq<char>) -> bool {
    let t = trim(line);
    starts_with(t, "Compiling"@) || starts_with(t, "Linking"@) || starts_with(t, "Finished"@)
}

/// The last `MAX_LOG_LINES` of `lines`, or all of them where there are fewer.
pub open spec fn keep_last(lines: Seq<Seq<char>>) -> Seq<Seq<char>> {
    if lines.len() > MAX_LOG_LINES {
        lines.skip(lines.len() - MAX_LOG_LINES)
    } else {
        lines
    }
}

/// The progress lines among `seen`, in order.
pub open spec fn progress_lines(seen: Seq<Seq<char>>) -> Seq<Seq<char>> {
    seen.filter(|l: Seq<char>| is_progress_line(l))
}

/// The lines the spinner shows after the lines `seen`: the last
/// `MAX_LOG_LINES` progress lines among them, oldest first.
pub open spec fn recent_progress(seen: Seq<Seq<char>>) -> Seq<Seq<char>> {
    keep_last(progress_lines(seen))
}

/// The spinner shows the last `MAX_LOG_LINES` progress lines of all the
/// lines seen so far: one more line changes the shown lines exactly as
/// appending it to them, when it is a progress line, and dropping the
/// oldest beyond the limit does, and leaves them as they are otherwise.
pub proof fn lemma_recent_progress_step(seen: Seq<Seq<char>>, line: Seq<char>)
    ensures
        recent_progress(seen.push(line)) == if is_progress_line(line) {
            keep_last(recent_progress(seen).push(line))
        } else {
            recent_progress(seen)
        },
        recent_progress(seen.push(line)).len() <= MAX_LOG_LINES,
{
    let p = |l: Seq<char>| is_progress_line(l);
    seen.lemma_filter_push(line, p);
    let f = progress_lines(seen);
    if is_progress_line(line) {
        assert(progress_lines(seen.push(line)) == f.push(line));
        if f.len() > MAX_LOG_LINES {
            assert(keep_last(f).push(line).skip(1) =~= f.push(line).skip(
                f.len() + 1 - MAX_LOG_LINES,
            ));
        }
    } else {
        assert(progress_lines(seen.push(line)) == f);
    }
}

/// The progress lines shown under the spinner.
pub struct RecentLog {
    lines: Vec<String>,
    seen: Ghost<Seq<Seq<char>>>,
}

impl View for RecentLog {
    type V = Seq<Seq<char>>;

    /// The shown lines, oldest first.
    closed spec fn view(&self) -> Seq<Seq<char>> {
        self.lines@.map_values(|s: String| s@)
    }
}

impl RecentLog {
    /// Every line observed so far, progress or not.
    pub closed spec fn seen(&self) -> Seq<Seq<char>> {
        self.seen@
    }

    /// The shown lines are the recent progress lines of all lines seen.
    pub open spec fn wf(&self) -> bool {
        self@ == recent_progress(self.seen())
    }

    /// A log that has seen no line.
    pub fn new() -> (log: Self)
        ensures
            log.wf(),
            log.seen() == Seq::<Seq<char>>::empty(),
            log@ == Seq::<Seq<char>>::empty(),
    {
        let log = RecentLog { lines: Vec::new(), seen: Ghost(Seq::empty()) };
        assert(progress_lines(Seq::<Seq<char>>::empty()) =~= Seq::<Seq<char>>::empty());
        assert(log@ =~= Seq::<Seq<char>>::empty());
        log
    }

    /// Takes in one line of cargo's error output; returns whether it is a
    /// progress line, which is then shown, and the oldest shown line dropped
    /// beyond `MAX_LOG_LINES`.
    pub fn observe(&mut self, line: &str) -> (shown: bool)
        requires
            old(self).wf(),
        ensures
            final(self).wf(),
            final(self).seen() == old(self).seen().push(line@),
            shown == is_progress_line(line@),
            final(self)@ == if shown {
                keep_last(old(self)@.push(line@))
            } else {
                old(self)@
            },
            final(self)@.len() <= MAX_LOG_LINES,
    {
        proof {
            lemma_recent_progress_step(self.seen@, line@);
        }
        let trimmed = trim_exec(line);
        let shown = starts_with_exec(trimmed.as_str(), "Compiling") || starts_with_exec(
            trimmed.as_str(),
            "Linking",
        ) || starts_with_exec(trimmed.as_str(), "Finished");
        let ghost before = self@;
        if shown {
            self.lines.push(String::from_str(line));
            assert(self@ =~= before.push(line@));
            if self.lines.len() > MAX_LOG_LINES {
                self.lines.remove(0);
                assert(self@ =~= before.push(line@).skip(1));
            }
        }
        self.seen = Ghost(self.seen@.push(line@));
        shown
    }

    /// How the shown lines are drawn after `base`.
    pub fn message_styled(&self, base: &str, styled: bool) -> (m: String)
        ensures
            m@ == base@ + log_display(self@, styled),
    {
        let mut m = String::from_str(base);
        let mut i: usize = 0;
        while i < self.lines.len()
            invariant
                i <= self.lines@.len(),
                m@ == base@ + log_display(self@.take(i as int), styled),
            decreases self.lines.len() - i,
        {
            let t = trim_exec(self.lines[i].as_str());
            let colored = colorize_cargo_line_styled(t.as_str(), styled);
            m.append("\n  ");
            m.append(colored.as_str());
            assert(self@.take(i + 1).drop_last() =~= self@.take(i as int));
            i += 1;
        }
        assert(self@.take(i as int) =~= self@);
        m
    }

    /// The spinner message: `base`, then each shown line trimmed, on a line
    /// of its own, indented, with its keyword highlighted as far as the
    /// console draws styles.
    pub fn message(&self, base: &str) -> (m: String)
        ensures
            m@ == base@ + log_display(self@, true) || m@ == base@ + log_display(self@, false),
    {
        self.message_styled(base, stdout_colors_enabled())
    }
}

/// The drawing of `lines` under the spinner message: each line trimmed,
/// highlighted, on a new line indented by two spaces.
pub open spec fn log_display(lines: Seq<Seq<char>>, styled: bool) -> Seq<char>
    decreases lines.len(),
{
    if lines.len() == 0 {
        Seq::empty()
    } else {
        log_display(lines.drop_last(), styled) + "\n  "@ + colorized_line(
            trim(lines.last()),
            styled,
        )
    }
}

} // verus!
