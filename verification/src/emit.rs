use vstd::prelude::*;

verus! {

/// The field width that line numbers are right-aligned in.
pub const NUMBER_WIDTH: usize = 6;

/// The decimal digit character for `d` (`d < 10`).
pub open spec fn digit_char(d: nat) -> char {
    if d == 0 {
        '0'
    } else if d == 1 {
        '1'
    } else if d == 2 {
        '2'
    } else if d == 3 {
        '3'
    } else if d == 4 {
        '4'
    } else if d == 5 {
        '5'
    } else if d == 6 {
        '6'
    } else if d == 7 {
        '7'
    } else if d == 8 {
        '8'
    } else {
        '9'
    }
}

/// The decimal digits of `n`, most significant first, with no leading zeros
/// (a single `'0'` for zero itself).
pub open spec fn dec_digits(n: nat) -> Seq<char>
    decreases n,
{
    if n < 10 {
        seq![digit_char(n)]
    } else {
        dec_digits(n / 10).push(digit_char(n % 10))
    }
}

/// `k` space characters.
pub open spec fn spaces(k: nat) -> Seq<char> {
    Seq::new(k, |i: int| ' ')
}

/// The decimal digits of `n`, right-aligned in a field of `NUMBER_WIDTH`
/// characters; a longer number keeps all its digits and gets no padding.
pub open spec fn aligned_number(n: nat) -> Seq<char> {
    if dec_digits(n).len() < NUMBER_WIDTH {
        spaces((NUMBER_WIDTH - dec_digits(n).len()) as nat) + dec_digits(n)
    } else {
        dec_digits(n)
    }
}

/// A line of text prefixed with an aligned number and a tab.
pub open spec fn numbered_line(n: nat, text: Seq<char>) -> Seq<char> {
    aligned_number(n) + seq!['\t'] + text
}

/// The one-character string for the digit `d`.
fn digit_str(d: u64) -> (s: &'static str)
    requires
        d < 10,
    ensures
        s@ == seq![digit_char(d as nat)],
{
    if d == 0 {
        proof {
            reveal_strlit("0");
            assert(("0")@ =~= seq![digit_char(d as nat)]);
        }
        "0"
    } else if d == 1 {
        proof {
            reveal_strlit("1");
            assert(("1")@ =~= seq![digit_char(d as nat)]);
        }
        "1"
    } else if d == 2 {
        proof {
            reveal_strlit("2");
            assert(("2")@ =~= seq![digit_char(d as nat)]);
        }
        "2"
    } else if d == 3 {
        proof {
            reveal_strlit("3");
            assert(("3")@ =~= seq![digit_char(d as nat)]);
        }
        "3"
    } else if d == 4 {
        proof {
            reveal_strlit("4");
            assert(("4")@ =~= seq![digit_char(d as nat)]);
        }
        "4"
    } else if d == 5 {
        proof {
            reveal_strlit("5");
            assert(("5")@ =~= seq![digit_char(d as nat)]);
        }
        "5"
    } else if d == 6 {
        proof {
            reveal_strlit("6");
            assert(("6")@ =~= seq![digit_char(d as nat)]);
        }
        "6"
    } else if d == 7 {
        proof {
            reveal_strlit("7");
            assert(("7")@ =~= seq![digit_char(d as nat)]);
        }
        "7"
    } else if d == 8 {
        proof {
            reveal_strlit("8");
            assert(("8")@ =~= seq![digit_char(d as nat)]);
        }
        "8"
    } else {
        proof {
            reveal_strlit("9");
            assert(("9")@ =~= seq![digit_char(d as nat)]);
        }
        "9"
    }
}

/// The decimal rendering of `n`, exactly `dec_digits(n)`.
pub fn u64_to_string(n: u64) -> (s: String)
    ensures
        s@ == dec_digits(n as nat),
    decreases n,
{
    if n < 10 {
        digit_str(n).to_owned()
    } else {
        let mut s = u64_to_string(n / 10);
        s.append(digit_str(n % 10));
        proof {
            assert(s@ =~= dec_digits(n as nat));
        }
        s
    }
}

/// `text` prefixed with `n` right-aligned in `NUMBER_WIDTH` columns and a tab.
pub fn format_numbered(n: u64, text: &str) -> (out: String)
    ensures
        out@ == numbered_line(n as nat, text@),
{
    let digits = u64_to_string(n);
    let dlen = digits.as_str().unicode_len();
    let mut out = String::new();
    let mut i: usize = dlen;
    while i < NUMBER_WIDTH
        invariant
            dlen == dec_digits(n as nat).len(),
            dlen <= i,
            dlen < NUMBER_WIDTH ==> i <= NUMBER_WIDTH,
            dlen >= NUMBER_WIDTH ==> i == dlen,
            out@ =~= spaces((i - dlen) as nat),
        decreases NUMBER_WIDTH - i,
    {
        out.append(" ");
        proof {
            reveal_strlit(" ");
            assert(out@ =~= spaces((i + 1 - dlen) as nat));
        }
        i = i + 1;
    }
    out.append(digits.as_str());
    out.append("\t");
    out.append(text);
    proof {
        reveal_strlit("\t");
        assert(out@ =~= numbered_line(n as nat, text@));
    }
    out
}

/// The running counter's value when line `i` of a source is emitted under
/// the non-blank numbering mode: it starts at 1 for every new source and is
/// incremented once per line, whether or not the line is blank.
pub open spec fn counter_at(i: nat) -> nat
    decreases i,
{
    if i == 0 {
        1
    } else {
        counter_at((i - 1) as nat) + 1
    }
}

/// The counter never skips and never repeats: when line `i` is emitted it
/// holds exactly `i + 1`, because it is incremented once per line regardless
/// of blankness.
pub proof fn lemma_counter_is_position_plus_one(i: nat)
    ensures
        counter_at(i) == i + 1,
    decreases i,
{
    if i > 0 {
        lemma_counter_is_position_plus_one((i - 1) as nat);
    }
}

/// What is emitted for line `i` of one source whose text is `text`:
/// its 0-based position under `number_lines`, the running counter under
/// `number_nonblank_lines`, the text alone otherwise.
pub open spec fn line_output(number_lines: bool, number_nonblank_lines: bool, i: nat, text: Seq<char>) -> Seq<char> {
    if number_lines {
        numbered_line(i, text)
    } else if number_nonblank_lines {
        numbered_line(counter_at(i), text)
    } else {
        text
    }
}

/// Everything emitted for one source, line by line, in order.
pub open spec fn source_output(c: crate::config::Config, lines: Seq<Seq<char>>) -> Seq<Seq<char>> {
    Seq::new(lines.len(), |i: int| line_output(c.number_lines, c.number_nonblank_lines, i as nat, lines[i]))
}

/// The output for line `i` of a source, as one owned string.
pub fn format_line(c: &crate::config::Config, i: usize, text: &str) -> (out: String)
    requires
        i < usize::MAX,
    ensures
        out@ == line_output(c.number_lines, c.number_nonblank_lines, i as nat, text@),
{
    if c.number_lines {
        format_numbered(i as u64, text)
    } else if c.number_nonblank_lines {
        proof {
            lemma_counter_is_position_plus_one(i as nat);
        }
        format_numbered(i as u64 + 1, text)
    } else {
        text.to_owned()
    }
}

/// The whole output for one source: one formatted string per input line,
/// in the input's order.
pub fn format_source(c: &crate::config::Config, lines: &Vec<String>) -> (out: Vec<String>)
    ensures
        out.deep_view() == source_output(*c, lines.deep_view()),
        out@.len() == lines@.len(),
{
    let mut out: Vec<String> = Vec::new();
    let mut idx: usize = 0;
    while idx < lines.len()
        invariant
            idx <= lines@.len(),
            out@.len() == idx,
            forall|j: int|
                0 <= j < idx ==> out@[j]@ == line_output(
                    c.number_lines,
                    c.number_nonblank_lines,
                    j as nat,
                    lines@[j]@,
                ),
        decreases lines@.len() - idx,
    {
        let formatted = format_line(c, idx, lines[idx].as_str());
        out.push(formatted);
        idx = idx + 1;
    }
    proof {
        assert forall|j: int| 0 <= j < lines@.len() implies out.deep_view()[j] == source_output(
            *c,
            lines.deep_view(),
        )[j] by {
            assert(out.deep_view()[j] == out@[j]@);
            assert(lines.deep_view()[j] == lines@[j]@);
        }
        assert(out.deep_view() =~= source_output(*c, lines.deep_view()));
    }
    out
}

/// Everything emitted for a whole run: each source's output in turn, in the
/// order the sources were given.
pub open spec fn sources_output(c: crate::config::Config, sources: Seq<Seq<Seq<char>>>) -> Seq<Seq<char>>
    decreases sources.len(),
{
    if sources.len() == 0 {
        Seq::empty()
    } else {
        sources_output(c, sources.drop_last()) + source_output(c, sources.last())
    }
}

/// The number of lines over all sources together.
pub open spec fn total_lines(sources: Seq<Seq<Seq<char>>>) -> nat
    decreases sources.len(),
{
    if sources.len() == 0 {
        0
    } else {
        total_lines(sources.drop_last()) + sources.last().len()
    }
}

/// One output line is emitted per input line: over any list of sources, the
/// run's output holds exactly as many lines as the sources hold together.
pub proof fn lemma_output_line_count(c: crate::config::Config, sources: Seq<Seq<Seq<char>>>)
    ensures
        sources_output(c, sources).len() == total_lines(sources),
    decreases sources.len(),
{
    if sources.len() > 0 {
        lemma_output_line_count(c, sources.drop_last());
    }
}

/// The whole output of a run over the given sources' lines: one formatted
/// string per input line, sources in order, each line of a source before any
/// line of the next.
pub fn format_sources(c: &crate::config::Config, sources: &Vec<Vec<String>>) -> (out: Vec<String>)
    ensures
        out.deep_view() == sources_output(*c, sources.deep_view()),
        out@.len() == total_lines(sources.deep_view()),
{
    let mut out: Vec<String> = Vec::new();
    let mut k: usize = 0;
    while k < sources.len()
        invariant
            k <= sources@.len(),
            out.deep_view() == sources_output(*c, sources.deep_view().take(k as int)),
        decreases sources@.len() - k,
    {
        let mut formatted = format_source(c, &sources[k]);
        proof {
            let pre = sources.deep_view().take(k as int);
            let post = sources.deep_view().take(k + 1 as int);
            assert(post.drop_last() =~= pre);
            assert(post.last() == sources.deep_view()[k as int]);
            assert(sources.deep_view()[k as int] == sources@[k as int].deep_view());
            assert(out.deep_view() + formatted.deep_view() =~= sources_output(
                *c,
                sources.deep_view().take(k + 1 as int),
            ));
        }
        let ghost pre_out = out.deep_view();
        let ghost pre_formatted = formatted.deep_view();
        out.append(&mut formatted);
        proof {
            assert(out.deep_view() =~= pre_out + pre_formatted);
        }
        k = k + 1;
    }
    proof {
        assert(sources.deep_view().take(sources@.len() as int) =~= sources.deep_view());
        lemma_output_line_count(*c, sources.deep_view());
        assert(out@.len() == out.deep_view().len());
    }
    out
}

/// With no numbering mode chosen, the output of a source is its input,
/// line for line, character for character: nothing is added, dropped or
/// reordered.
pub proof fn lemma_plain_output_identity(c: crate::config::Config, lines: Seq<Seq<char>>)
    requires
        !c.number_lines,
        !c.number_nonblank_lines,
    ensures
        source_output(c, lines) == lines,
{
    assert(source_output(c, lines) =~= lines);
}

/// Under `number_lines`, line `i` (0-based) of a source comes out as `i`
/// right-aligned in `NUMBER_WIDTH` columns, a tab, then the line's text;
/// a number of at most `NUMBER_WIDTH` digits fills the field exactly.
pub proof fn lemma_numbered_output(c: crate::config::Config, lines: Seq<Seq<char>>, i: int)
    requires
        c.number_lines,
        0 <= i < lines.len(),
    ensures
        source_output(c, lines)[i] == aligned_number(i as nat) + seq!['\t'] + lines[i],
        dec_digits(i as nat).len() <= NUMBER_WIDTH ==> aligned_number(i as nat).len() == NUMBER_WIDTH,
{
}

/// Under `number_nonblank_lines`, the counter starts at 1 for every new
/// source and is incremented once per line whether or not the line is
/// blank, so line `i` (0-based) of a source is numbered `i + 1`.
pub proof fn lemma_nonblank_numbering(c: crate::config::Config, lines: Seq<Seq<char>>, i: int)
    requires
        c.number_nonblank_lines,
        !c.number_lines,
        0 <= i < lines.len(),
    ensures
        counter_at(0) == 1,
        counter_at(i as nat) == i + 1,
        source_output(c, lines)[i] == numbered_line((i + 1) as nat, lines[i]),
{
    lemma_counter_is_position_plus_one(i as nat);
}

/// The line reported when a source cannot be opened.
pub open spec fn open_failure_text(name: Seq<char>, err: Seq<char>) -> Seq<char> {
    "Failed to open "@ + name + ": "@ + err
}

/// The report for a source `name` that could not be opened, with the
/// underlying reason `err`.
pub fn open_failure_message(name: &str, err: &str) -> (out: String)
    ensures
        out@ == open_failure_text(name@, err@),
{
    let mut out = "Failed to open ".to_owned();
    out.append(name);
    out.append(": ");
    out.append(err);
    out
}

} // verus!
