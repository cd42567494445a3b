//! Utility functions for working with agent output: ANSI stripping, line
//! splitting and joining, output formatting and text wrapping.

use vstd::prelude::*;
use vstd::string::StrSliceExecFns;
use vstd::string::StringExecFns;

use crate::message::CommandArg;
use crate::message::OutputData;
use crate::message::OutputDataView;
use crate::message::OutputMessage;
use crate::translate::utf8_lossy_of;
use crate::translate::spec_dec_digits;
use crate::translate::u64_to_string;

verus! {

/// What `strip_ansi_escapes::strip` leaves of a text's bytes.
pub uninterp spec fn ansi_stripped_of(text: Seq<char>) -> Seq<u8>;

/// Relies on `strip_ansi_escapes::strip`: parses the bytes and drops ANSI
/// escape sequences, the result depending on the input alone; an empty
/// input stays empty.
#[verifier::external_body]
fn strip_ansi(text: &str) -> (r: Vec<u8>)
    ensures
        r@ == ansi_stripped_of(text@),
        text@.len() == 0 ==> r@.len() == 0,
{
    strip_ansi_escapes::strip(text)
}

/// What stripping ANSI escape codes from a text yields, as text.
pub open spec fn spec_clean_ansi(text: Seq<char>) -> Seq<char> {
    utf8_lossy_of(ansi_stripped_of(text))
}

/// Strip ANSI escape codes from text.
pub fn clean_ansi(text: &str) -> (r: String)
    ensures
        r@ == spec_clean_ansi(text@),
        text@.len() == 0 ==> r@.len() == 0,
{
    let bytes = strip_ansi(text);
    crate::translate::utf8_lossy(&bytes)
}

/// The index of the first newline in a text, or its length if none.
pub open spec fn spec_find_newline(s: Seq<char>) -> nat
    decreases s.len(),
{
    if s.len() == 0 {
        0
    } else if s[0] == '\n' {
        0
    } else {
        1 + spec_find_newline(s.drop_first())
    }
}

proof fn lemma_find_newline_bound(s: Seq<char>)
    ensures
        spec_find_newline(s) <= s.len(),
        spec_find_newline(s) < s.len() ==> s[spec_find_newline(s) as int] == '\n',
        forall|j: int| 0 <= j < spec_find_newline(s) ==> s[j] != '\n',
    decreases s.len(),
{
    if s.len() > 0 && s[0] != '\n' {
        lemma_find_newline_bound(s.drop_first());
        assert forall|j: int| 0 <= j < spec_find_newline(s) implies s[j] != '\n' by {
            if j > 0 {
                assert(s.drop_first()[j - 1] == s[j]);
            }
        }
    }
}

proof fn lemma_find_newline_at(s: Seq<char>, k: int)
    requires
        0 <= k <= s.len(),
        forall|j: int| 0 <= j < k ==> s[j] != '\n',
        k < s.len() ==> s[k] == '\n',
    ensures
        spec_find_newline(s) == k,
    decreases s.len(),
{
    if s.len() > 0 && s[0] != '\n' {
        lemma_find_newline_at(s.drop_first(), k - 1);
    }
}

/// A line with a trailing carriage return stripped.
pub open spec fn spec_strip_cr(line: Seq<char>) -> Seq<char> {
    if line.len() > 0 && line.last() == '\r' {
        line.drop_last()
    } else {
        line
    }
}

/// The lines of a text: segments split at newlines, each with a trailing
/// carriage return stripped, and no final empty segment after a trailing
/// newline.
pub open spec fn spec_lines(s: Seq<char>) -> Seq<Seq<char>>
    decreases s.len(),
{
    if s.len() == 0 {
        Seq::<Seq<char>>::empty()
    } else {
        let k = spec_find_newline(s);
        if k >= s.len() {
            seq![s]
        } else {
            seq![spec_strip_cr(s.take(k as int))] + spec_lines(s.skip(k as int + 1))
        }
    }
}

/// Split a text into its lines.
pub fn split_lines(text: &str) -> (r: Vec<String>)
    ensures
        r@.map_values(|l: String| l@) == spec_lines(text@),
{
    let n = text.unicode_len();
    let mut lines: Vec<String> = Vec::new();
    let mut start: usize = 0;
    let mut i: usize = 0;
    proof {
        assert(text@.skip(0) =~= text@);
        assert(lines@.map_values(|l: String| l@) + spec_lines(text@.skip(0)) =~= spec_lines(
            text@,
        ));
    }
    while i < n
        invariant
            start <= i <= n,
            n == text@.len(),
            forall|j: int| start <= j < i ==> text@[j] != '\n',
            spec_lines(text@) == lines@.map_values(|l: String| l@) + spec_lines(
                text@.skip(start as int),
            ),
        decreases n - i,
    {
        let c = text.get_char(i);
        if c == '\n' {
            let mut end: usize = i;
            if end > start && text.get_char(end - 1) == '\r' {
                end = end - 1;
            }
            let segment = text.substring_char(start, end);
            lines.push(String::from_str(segment));
            proof {
                let s2 = text@.skip(start as int);
                lemma_find_newline_at(s2, i - start);
                assert(s2.take(i - start) =~= text@.subrange(start as int, i as int));
                assert(spec_strip_cr(s2.take(i - start)) =~= text@.subrange(
                    start as int,
                    end as int,
                ));
                assert(s2.skip(i - start + 1) =~= text@.skip(i as int + 1));
                assert(lines@.map_values(|l: String| l@) + spec_lines(text@.skip(i as int + 1))
                    =~= spec_lines(text@));
            }
            start = i + 1;
        }
        i = i + 1;
    }
    if start < n {
        let segment = text.substring_char(start, n);
        lines.push(String::from_str(segment));
        proof {
            let s2 = text@.skip(start as int);
            lemma_find_newline_at(s2, n - start);
            assert(s2 =~= text@.subrange(start as int, n as int));
            assert(seq![s2] =~= spec_lines(s2));
            assert(lines@.map_values(|l: String| l@) =~= spec_lines(text@));
        }
    } else {
        proof {
            assert(text@.skip(start as int).len() == 0);
            assert(lines@.map_values(|l: String| l@) =~= spec_lines(text@));
        }
    }
    lines
}

/// The lines joined back with a newline after each one.
pub open spec fn spec_join_after_nl(lines: Seq<Seq<char>>) -> Seq<char>
    decreases lines.len(),
{
    if lines.len() == 0 {
        Seq::<char>::empty()
    } else {
        spec_join_after_nl(lines.drop_last()) + lines.last() + seq!['\n']
    }
}

/// The lines joined with a newline between each pair.
pub open spec fn spec_join_between_nl(lines: Seq<Seq<char>>) -> Seq<char>
    decreases lines.len(),
{
    if lines.len() == 0 {
        Seq::<char>::empty()
    } else if lines.len() == 1 {
        lines[0]
    } else {
        spec_join_between_nl(lines.drop_last()) + seq!['\n'] + lines.last()
    }
}

/// What formatting a tool output to a line budget yields: short output is
/// unchanged; long output keeps the first half of the budget, a marker
/// naming the count of omitted lines, and the last half of the budget.
pub open spec fn spec_format_tool_output(text: Seq<char>, max_lines: nat) -> Seq<char> {
    let ls = spec_lines(text);
    if ls.len() <= max_lines {
        text
    } else {
        let head = max_lines / 2;
        let tail = max_lines - head;
        spec_join_after_nl(ls.take(head as int)) + "\n... ("@ + spec_dec_digits(
            (ls.len() - max_lines) as nat,
        ) + " lines omitted) ...\n\n"@ + spec_join_after_nl(ls.skip(ls.len() - tail))
    }
}

/// Append the given lines to a buffer, a newline after each one.
fn append_lines_nl(buffer: &mut String, lines: &Vec<String>, from: usize, to: usize)
    requires
        from <= to <= lines@.len(),
    ensures
        final(buffer)@ == old(buffer)@ + spec_join_after_nl(
            lines@.map_values(|l: String| l@).subrange(from as int, to as int),
        ),
{
    let ghost views = lines@.map_values(|l: String| l@);
    let mut i: usize = from;
    proof {
        assert(old(buffer)@ + spec_join_after_nl(views.subrange(from as int, from as int)) =~= old(
            buffer,
        )@);
    }
    while i < to
        invariant
            from <= i <= to <= lines@.len(),
            views == lines@.map_values(|l: String| l@),
            buffer@ == old(buffer)@ + spec_join_after_nl(views.subrange(from as int, i as int)),
        decreases to - i,
    {
        buffer.append(lines[i].as_str());
        buffer.append("\n");
        i = i + 1;
        proof {
            reveal_strlit("\n");
            assert("\n"@ =~= seq!['\n']);
            assert(views.subrange(from as int, i as int).drop_last() =~= views.subrange(
                from as int,
                i as int - 1,
            ));
            assert(buffer@ =~= old(buffer)@ + spec_join_after_nl(
                views.subrange(from as int, i as int),
            ));
        }
    }
}

/// Format tool output for display with line limiting: output within the
/// budget is returned unchanged; longer output keeps the first and last
/// halves of the budget around a marker counting the omitted lines.
pub fn format_tool_output(output: &str, max_lines: usize) -> (r: String)
    ensures
        r@ == spec_format_tool_output(output@, max_lines as nat),
{
    let lines = split_lines(output);
    let ghost views = lines@.map_values(|l: String| l@);
    if lines.len() <= max_lines {
        String::from_str(output)
    } else {
        let head_count = max_lines / 2;
        let tail_count = max_lines - head_count;
        let mut result = String::new();
        append_lines_nl(&mut result, &lines, 0, head_count);
        result.append("\n... (");
        let omitted = u64_to_string((lines.len() - max_lines) as u64);
        result.append(omitted.as_str());
        result.append(" lines omitted) ...\n\n");
        let from = lines.len() - tail_count;
        append_lines_nl(&mut result, &lines, from, lines.len());
        proof {
            assert(views.subrange(0, head_count as int) =~= views.take(head_count as int));
            assert(views.subrange(from as int, views.len() as int) =~= views.skip(
                views.len() - tail_count,
            ));
            assert(result@ =~= spec_format_tool_output(output@, max_lines as nat));
        }
        result
    }
}

/// Check if a message contains tool execution.
pub fn is_tool_message(msg: &OutputMessage) -> (r: bool)
    ensures
        r == (msg@.data is ToolStart || msg@.data is ToolOutput || msg@.data is ToolComplete),
{
    match &msg.data {
        OutputData::ToolStart { .. } => true,
        OutputData::ToolOutput { .. } => true,
        OutputData::ToolComplete { .. } => true,
        _ => false,
    }
}

/// The tool name a tool message carries.
pub open spec fn spec_tool_name_of(d: OutputDataView) -> Option<Seq<char>> {
    match d {
        OutputDataView::ToolStart { tool_name, .. } => Some(tool_name),
        OutputDataView::ToolOutput { tool_name, .. } => Some(tool_name),
        OutputDataView::ToolComplete { tool_name, .. } => Some(tool_name),
        _ => None,
    }
}

/// Extract the tool name from a tool message.
pub fn get_tool_name(msg: &OutputMessage) -> (r: Option<String>)
    ensures
        match spec_tool_name_of(msg@.data) {
            Some(name) => r matches Some(s) && s@ == name,
            None => r is None,
        },
{
    match &msg.data {
        OutputData::ToolStart { tool_name, .. } => Some(tool_name.clone()),
        OutputData::ToolOutput { tool_name, .. } => Some(tool_name.clone()),
        OutputData::ToolComplete { tool_name, .. } => Some(tool_name.clone()),
        _ => None,
    }
}

/// The words of a command joined with single spaces.
pub open spec fn spec_join_space(words: Seq<Seq<char>>) -> Seq<char>
    decreases words.len(),
{
    if words.len() == 0 {
        Seq::<char>::empty()
    } else if words.len() == 1 {
        words[0]
    } else {
        spec_join_space(words.drop_last()) + seq![' '] + words.last()
    }
}

/// The command lines a message carries: for a shell or bash tool start,
/// the command text, a word list joined with spaces; otherwise nothing.
pub open spec fn spec_extract_commands(d: OutputDataView) -> Seq<Seq<char>> {
    match d {
        OutputDataView::ToolStart { tool_name, arguments } => {
            if tool_name == "shell"@ || tool_name == "bash"@ {
                match arguments.command {
                    Some(crate::message::CommandArgView::Text(cmd)) => seq![cmd],
                    Some(crate::message::CommandArgView::Words(words)) => seq![
                        spec_join_space(words),
                    ],
                    None => Seq::<Seq<char>>::empty(),
                }
            } else {
                Seq::<Seq<char>>::empty()
            }
        },
        _ => Seq::<Seq<char>>::empty(),
    }
}

fn join_space(words: &Vec<String>) -> (r: String)
    ensures
        r@ == spec_join_space(words@.map_values(|w: String| w@)),
{
    let ghost views = words@.map_values(|w: String| w@);
    let mut r = String::new();
    let mut i: usize = 0;
    while i < words.len()
        invariant
            i <= words.len(),
            views == words@.map_values(|w: String| w@),
            r@ == spec_join_space(views.take(i as int)),
        decreases words.len() - i,
    {
        if i > 0 {
            r.append(" ");
        }
        r.append(words[i].as_str());
        i = i + 1;
        proof {
            reveal_strlit(" ");
            assert(" "@ =~= seq![' ']);
            assert(views.take(i as int).drop_last() =~= views.take(i as int - 1));
            assert(r@ =~= spec_join_space(views.take(i as int)));
        }
    }
    proof {
        assert(views.take(views.len() as int) =~= views);
    }
    r
}

/// What `char::is_whitespace` holds of a character.
pub uninterp spec fn char_is_whitespace(c: char) -> bool;

/// Relies on `char::is_whitespace`: the Unicode white-space property of the
/// one character.
#[verifier::external_body]
fn is_whitespace_char(c: char) -> (r: bool)
    ensures
        r == char_is_whitespace(c),
{
    c.is_whitespace()
}

/// The index of the first whitespace character, or the length if none.
pub open spec fn spec_find_ws(s: Seq<char>) -> nat
    decreases s.len(),
{
    if s.len() == 0 {
        0
    } else if char_is_whitespace(s[0]) {
        0
    } else {
        1 + spec_find_ws(s.drop_first())
    }
}

proof fn lemma_find_ws_at(s: Seq<char>, k: int)
    requires
        0 <= k <= s.len(),
        forall|j: int| 0 <= j < k ==> !char_is_whitespace(s[j]),
        k < s.len() ==> char_is_whitespace(s[k]),
    ensures
        spec_find_ws(s) == k,
    decreases s.len(),
{
    if s.len() > 0 && !char_is_whitespace(s[0]) {
        lemma_find_ws_at(s.drop_first(), k - 1);
    }
}

/// The whitespace-separated words of a text, in order, without empties.
pub open spec fn spec_split_ws(s: Seq<char>) -> Seq<Seq<char>>
    decreases s.len(),
{
    if s.len() == 0 {
        Seq::<Seq<char>>::empty()
    } else if char_is_whitespace(s[0]) {
        spec_split_ws(s.drop_first())
    } else {
        let k = spec_find_ws(s);
        if k >= s.len() {
            seq![s]
        } else {
            seq![s.take(k as int)] + spec_split_ws(s.skip(k as int))
        }
    }
}

/// Split a text at whitespace.
pub fn split_whitespace(text: &str) -> (r: Vec<String>)
    ensures
        r@.map_values(|w: String| w@) == spec_split_ws(text@),
{
    let n = text.unicode_len();
    let mut words: Vec<String> = Vec::new();
    let mut i: usize = 0;
    proof {
        assert(text@.skip(0) =~= text@);
        assert(words@.map_values(|w: String| w@) + spec_split_ws(text@) =~= spec_split_ws(
            text@,
        ));
    }
    while i < n
        invariant
            i <= n,
            n == text@.len(),
            spec_split_ws(text@) == words@.map_values(|w: String| w@) + spec_split_ws(
                text@.skip(i as int),
            ),
        decreases n - i,
    {
        if is_whitespace_char(text.get_char(i)) {
            proof {
                assert(text@.skip(i as int).drop_first() =~= text@.skip(i as int + 1));
            }
            i = i + 1;
        } else {
            let mut j: usize = i + 1;
            while j < n && !is_whitespace_char(text.get_char(j))
                invariant
                    i < j <= n,
                    n == text@.len(),
                    forall|m: int| i <= m < j ==> !char_is_whitespace(text@[m]),
                decreases n - j,
            {
                j = j + 1;
            }
            let word = text.substring_char(i, j);
            words.push(String::from_str(word));
            proof {
                let s2 = text@.skip(i as int);
                lemma_find_ws_at(s2, j - i);
                assert(s2.take(j - i) =~= text@.subrange(i as int, j as int));
                assert(s2.skip(j - i) =~= text@.skip(j as int));
                assert(words@.map_values(|w: String| w@) + spec_split_ws(text@.skip(j as int))
                    =~= spec_split_ws(text@));
            }
            i = j;
        }
    }
    proof {
        assert(text@.skip(n as int).len() == 0);
        assert(words@.map_values(|w: String| w@) =~= spec_split_ws(text@));
    }
    words
}

/// A word cut into pieces of at most the given width; all but the last
/// have exactly that width.
pub open spec fn spec_chunks(word: Seq<char>, width: nat) -> Seq<Seq<char>>
    decreases word.len(),
{
    if width == 0 || word.len() <= width {
        seq![word]
    } else {
        seq![word.take(width as int)] + spec_chunks(word.skip(width as int), width)
    }
}

/// The wrapping state while folding one overlong line: the finished lines
/// and the line being filled.
#[verifier::ext_equal]
pub ghost struct WrapState {
    pub lines: Seq<Seq<char>>,
    pub current: Seq<char>,
}

/// What one word does to the wrapping state: an overlong word at line
/// start is cut into width-sized pieces, a fitting word joins the current
/// line after a space, and a word that does not fit closes the current
/// line and opens a new one.
pub open spec fn spec_wrap_step(st: WrapState, word: Seq<char>, width: nat) -> WrapState {
    if st.current.len() == 0 {
        if word.len() > width {
            WrapState { lines: st.lines + spec_chunks(word, width), current: Seq::empty() }
        } else {
            WrapState { lines: st.lines, current: word }
        }
    } else if st.current.len() + 1 + word.len() <= width {
        WrapState { lines: st.lines, current: st.current + seq![' '] + word }
    } else {
        WrapState { lines: st.lines.push(st.current), current: word }
    }
}

/// The wrapping state after a run of words.
pub open spec fn spec_wrap_words(words: Seq<Seq<char>>, width: nat) -> WrapState
    decreases words.len(),
{
    if words.len() == 0 {
        WrapState { lines: Seq::empty(), current: Seq::empty() }
    } else {
        spec_wrap_step(spec_wrap_words(words.drop_last(), width), words.last(), width)
    }
}

/// What wrapping one line yields: a line within the width is kept whole;
/// an overlong one is folded word by word, and a leftover current line is
/// closed at the end.
pub open spec fn spec_wrap_line(line: Seq<char>, width: nat) -> Seq<Seq<char>> {
    if line.len() <= width {
        seq![line]
    } else {
        let st = spec_wrap_words(spec_split_ws(line), width);
        if st.current.len() > 0 {
            st.lines.push(st.current)
        } else {
            st.lines
        }
    }
}

/// The wrapped lines of a run of input lines.
pub open spec fn spec_wrap_lines(lines: Seq<Seq<char>>, width: nat) -> Seq<Seq<char>>
    decreases lines.len(),
{
    if lines.len() == 0 {
        Seq::<Seq<char>>::empty()
    } else {
        spec_wrap_lines(lines.drop_last(), width) + spec_wrap_line(lines.last(), width)
    }
}

/// What wrapping a text yields: empty input or zero width give one empty
/// line, and so does a text whose lines all dissolve into whitespace.
pub open spec fn spec_wrap_text(text: Seq<char>, width: nat) -> Seq<Seq<char>> {
    if text.len() == 0 || width == 0 {
        seq![Seq::<char>::empty()]
    } else {
        let all = spec_wrap_lines(spec_lines(text), width);
        if all.len() == 0 {
            seq![Seq::<char>::empty()]
        } else {
            all
        }
    }
}

fn push_chunks(out: &mut Vec<String>, word: &str, width: usize)
    requires
        width >= 1,
        word@.len() > width,
    ensures
        final(out)@.map_values(|l: String| l@) == old(out)@.map_values(|l: String| l@)
            + spec_chunks(word@, width as nat),
{
    let n = word.unicode_len();
    let mut pos: usize = 0;
    proof {
        assert(word@.skip(0) =~= word@);
    }
    loop
        invariant_except_break
            pos < n,
            n == word@.len(),
            width >= 1,
            old(out)@.map_values(|l: String| l@) + spec_chunks(word@, width as nat) == out@
                .map_values(|l: String| l@) + spec_chunks(word@.skip(pos as int), width as nat),
        ensures
            out@.map_values(|l: String| l@) == old(out)@.map_values(|l: String| l@)
                + spec_chunks(word@, width as nat),
        decreases n - pos,
    {
        let end = if n - pos > width {
            pos + width
        } else {
            n
        };
        let piece = word.substring_char(pos, end);
        out.push(String::from_str(piece));
        proof {
            let s2 = word@.skip(pos as int);
            if n - pos > width {
                assert(s2.take(width as int) =~= word@.subrange(pos as int, end as int));
                assert(s2.skip(width as int) =~= word@.skip(end as int));
            } else {
                assert(s2 =~= word@.subrange(pos as int, end as int));
                assert(spec_chunks(s2, width as nat) == seq![s2]);
            }
        }
        if end == n {
            proof {
                assert(out@.map_values(|l: String| l@) =~= old(out)@.map_values(
                    |l: String| l@,
                ) + spec_chunks(word@, width as nat));
            }
            break;
        }
        proof {
            assert(out@.map_values(|l: String| l@) + spec_chunks(
                word@.skip(end as int),
                width as nat,
            ) =~= old(out)@.map_values(|l: String| l@) + spec_chunks(word@, width as nat));
        }
        pos = end;
    }
}

fn wrap_line(line: &str, width: usize) -> (r: Vec<String>)
    requires
        width >= 1,
    ensures
        r@.map_values(|l: String| l@) == spec_wrap_line(line@, width as nat),
{
    let mut out: Vec<String> = Vec::new();
    if line.unicode_len() <= width {
        out.push(String::from_str(line));
        proof {
            assert(out@.map_values(|l: String| l@) =~= seq![line@]);
        }
        return out;
    }
    let words = split_whitespace(line);
    let ghost wviews = words@.map_values(|w: String| w@);
    let mut current = String::new();
    let mut cw: usize = 0;
    let mut wi: usize = 0;
    proof {
        assert((WrapState { lines: out@.map_values(|l: String| l@), current: current@ })
            =~= spec_wrap_words(wviews.take(0), width as nat));
    }
    while wi < words.len()
        invariant
            wi <= words.len(),
            width >= 1,
            wviews == words@.map_values(|w: String| w@),
            cw == current@.len(),
            (WrapState { lines: out@.map_values(|l: String| l@), current: current@ })
                == spec_wrap_words(wviews.take(wi as int), width as nat),
        decreases words.len() - wi,
    {
        proof {
            assert(wviews.take(wi as int + 1).drop_last() =~= wviews.take(wi as int));
            assert(wviews.take(wi as int + 1).last() == wviews[wi as int]);
        }
        let wl = words[wi].as_str().unicode_len();
        if cw == 0 {
            if wl > width {
                push_chunks(&mut out, words[wi].as_str(), width);
            } else {
                current = words[wi].clone();
                cw = wl;
            }
        } else if wl < width && cw <= width - wl - 1 {
            current.append(" ");
            current.append(words[wi].as_str());
            cw = cw + 1 + wl;
            proof {
                reveal_strlit(" ");
                assert(" "@ =~= seq![' ']);
            }
        } else {
            out.push(current);
            current = words[wi].clone();
            cw = wl;
        }
        wi = wi + 1;
        proof {
            assert((WrapState { lines: out@.map_values(|l: String| l@), current: current@ })
                =~= spec_wrap_words(wviews.take(wi as int), width as nat));
        }
    }
    proof {
        assert(wviews.take(wviews.len() as int) =~= wviews);
    }
    if cw > 0 {
        out.push(current);
        proof {
            assert(out@.map_values(|l: String| l@) =~= spec_wrap_line(line@, width as nat));
        }
    } else {
        proof {
            assert(out@.map_values(|l: String| l@) =~= spec_wrap_line(line@, width as nat));
        }
    }
    out
}

/// Smart text wrapping that preserves word boundaries: lines within the
/// width are kept; longer lines are re-broken at whitespace, and a word
/// longer than the width is cut into width-sized pieces.
pub fn wrap_text(text: &str, width: usize) -> (r: Vec<String>)
    ensures
        r@.map_values(|l: String| l@) == spec_wrap_text(text@, width as nat),
{
    let mut result: Vec<String> = Vec::new();
    if text.unicode_len() == 0 || width == 0 {
        result.push(String::new());
        proof {
            assert(result@.map_values(|l: String| l@) =~= seq![Seq::<char>::empty()]);
        }
        return result;
    }
    let lines = split_lines(text);
    let ghost lviews = lines@.map_values(|l: String| l@);
    let mut li: usize = 0;
    proof {
        assert(result@.map_values(|l: String| l@) =~= spec_wrap_lines(
            lviews.take(0),
            width as nat,
        ));
    }
    while li < lines.len()
        invariant
            li <= lines.len(),
            width >= 1,
            lviews == lines@.map_values(|l: String| l@),
            result@.map_values(|l: String| l@) == spec_wrap_lines(
                lviews.take(li as int),
                width as nat,
            ),
        decreases lines.len() - li,
    {
        proof {
            assert(lviews.take(li as int + 1).drop_last() =~= lviews.take(li as int));
            assert(lviews.take(li as int + 1).last() == lviews[li as int]);
        }
        let mut wrapped = wrap_line(lines[li].as_str(), width);
        let ghost before = result@;
        let mut k: usize = 0;
        while k < wrapped.len()
            invariant
                k <= wrapped.len(),
                result@ == before + wrapped@.take(k as int),
            decreases wrapped.len() - k,
        {
            let piece = wrapped[k].clone();
            result.push(piece);
            k = k + 1;
            proof {
                assert(before + wrapped@.take(k as int) =~= result@);
            }
        }
        li = li + 1;
        proof {
            assert(wrapped@.take(wrapped@.len() as int) =~= wrapped@);
            assert(result@.map_values(|l: String| l@) =~= spec_wrap_lines(
                lviews.take(li as int),
                width as nat,
            ));
        }
    }
    proof {
        assert(lviews.take(lviews.len() as int) =~= lviews);
    }
    if result.len() == 0 {
        result.push(String::new());
        proof {
            assert(result@.map_values(|l: String| l@) =~= seq![Seq::<char>::empty()]);
        }
    }
    result
}

/// Extract shell commands from tool calls.
pub fn extract_commands(msg: &OutputMessage) -> (r: Vec<String>)
    ensures
        r@.map_values(|c: String| c@) == spec_extract_commands(msg@.data),
{
    let empty: Vec<String> = Vec::new();
    proof {
        assert(empty@.map_values(|c: String| c@) =~= Seq::<Seq<char>>::empty());
    }
    match &msg.data {
        OutputData::ToolStart { tool_name, arguments } => {
            if tool_name.eq(&String::from_str("shell")) || tool_name.eq(
                &String::from_str("bash"),
            ) {
                match &arguments.command {
                    Some(CommandArg::Text(cmd)) => {
                        let mut r: Vec<String> = Vec::new();
                        r.push(cmd.clone());
                        proof {
                            assert(r@.map_values(|c: String| c@) =~= seq![cmd@]);
                        }
                        r
                    },
                    Some(CommandArg::Words(words)) => {
                        let joined = join_space(words);
                        let mut r: Vec<String> = Vec::new();
                        r.push(joined);
                        proof {
                            assert(r@.map_values(|c: String| c@) =~= seq![
                                spec_join_space(words@.map_values(|w: String| w@)),
                            ]);
                        }
                        r
                    },
                    None => empty,
                }
            } else {
                empty
            }
        },
        _ => empty,
    }
}

/// The display line of a message: primary content verbatim, a short
/// caption for tool activity and lifecycle events, nothing for the rest.
pub open spec fn spec_format_message(d: OutputDataView) -> Seq<char> {
    match d {
        OutputDataView::Primary(text) => text,
        OutputDataView::PrimaryDelta(delta) => delta,
        OutputDataView::ToolStart { tool_name, .. } => "🔧 Running: "@ + tool_name,
        OutputDataView::ToolOutput { tool_name, output } => "📤 "@ + tool_name + ": "@
            + output,
        OutputDataView::ToolComplete { tool_name, .. } => "✅ "@ + tool_name + " completed"@,
        OutputDataView::Error(err) => "❌ Error: "@ + err.spec_message(),
        OutputDataView::Completed => "✅ Completed"@,
        OutputDataView::Start => "🚀 Starting..."@,
        _ => Seq::<char>::empty(),
    }
}

/// Format a message for display.
pub fn format_message(msg: &OutputMessage) -> (r: String)
    ensures
        r@ == spec_format_message(msg@.data),
{
    match &msg.data {
        OutputData::Primary(text) => text.clone(),
        OutputData::PrimaryDelta(delta) => delta.clone(),
        OutputData::ToolStart { tool_name, .. } => {
            let mut r = String::from_str("🔧 Running: ");
            r.append(tool_name.as_str());
            r
        },
        OutputData::ToolOutput { tool_name, output } => {
            let mut r = String::from_str("📤 ");
            r.append(tool_name.as_str());
            r.append(": ");
            r.append(output.as_str());
            r
        },
        OutputData::ToolComplete { tool_name, .. } => {
            let mut r = String::from_str("✅ ");
            r.append(tool_name.as_str());
            r.append(" completed");
            r
        },
        OutputData::Error(err) => {
            let mut r = String::from_str("❌ Error: ");
            let rendered = err.message();
            r.append(rendered.as_str());
            r
        },
        OutputData::Completed => String::from_str("✅ Completed"),
        OutputData::Start => String::from_str("🚀 Starting..."),
        _ => String::new(),
    }
}

} // verus!
