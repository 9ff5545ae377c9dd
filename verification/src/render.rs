//! Rendering lines to the tool's output.
//!
//! The model: an input is a sequence of lines (each without its terminator).
//! Each line becomes one output record — the line followed by a newline,
//! prefixed with the right-aligned counter and a tab when the flags call for
//! it.  [`render`] gives the whole output of one input, [`render_all`] of a
//! run over several inputs; the counter restarts at every input boundary.
//! The executable functions are proved to produce exactly these sequences.

use crate::numeral::decimal;
use crate::numeral::right_aligned;
use vstd::prelude::*;
use vstd::string::StrSliceExecFns;
use vstd::string::StringExecFns;

verus! {

/// Whether a line is printed with a number prefix: always under `number_all`,
/// and under `number_nonblank` exactly when the line is nonblank.
pub open spec fn show_line_spec(number_all: bool, number_nonblank: bool, line: Seq<char>) -> bool {
    number_all || (number_nonblank && line.len() != 0)
}

/// The counter after one more line: under `number_nonblank` a blank line
/// leaves it untouched, any other line raises it by one.
pub open spec fn next_count_spec(number_nonblank: bool, count: nat, line: Seq<char>) -> nat {
    if number_nonblank && line.len() == 0 {
        count
    } else {
        count + 1
    }
}

/// One output record: the line followed by a newline, prefixed with the
/// aligned counter and a tab when `show` is set.
pub open spec fn rendered_line(count: nat, line: Seq<char>, show: bool) -> Seq<char> {
    if show {
        right_aligned(decimal(count)) + seq!['\t'] + line + seq!['\n']
    } else {
        line + seq!['\n']
    }
}

/// The counter after all of `lines`, starting from zero.
pub open spec fn count_after(number_nonblank: bool, lines: Seq<Seq<char>>) -> nat
    decreases lines.len(),
{
    if lines.len() == 0 {
        0
    } else {
        next_count_spec(
            number_nonblank,
            count_after(number_nonblank, lines.drop_last()),
            lines.last(),
        )
    }
}

/// The full output for one input: the concatenation of its records, each
/// line numbered with the counter it raised (or left) on arrival.
pub open spec fn render(number_all: bool, number_nonblank: bool, lines: Seq<Seq<char>>) -> Seq<
    char,
>
    decreases lines.len(),
{
    if lines.len() == 0 {
        Seq::empty()
    } else {
        render(number_all, number_nonblank, lines.drop_last()) + rendered_line(
            count_after(number_nonblank, lines),
            lines.last(),
            show_line_spec(number_all, number_nonblank, lines.last()),
        )
    }
}

/// The counter carried by the record at position `i`.
pub open spec fn line_number(number_nonblank: bool, lines: Seq<Seq<char>>, i: int) -> nat {
    count_after(number_nonblank, lines.take(i + 1))
}

/// The record at position `i` of an input's output.
pub open spec fn emitted_line(
    number_all: bool,
    number_nonblank: bool,
    lines: Seq<Seq<char>>,
    i: int,
) -> Seq<char> {
    rendered_line(
        line_number(number_nonblank, lines, i),
        lines[i],
        show_line_spec(number_all, number_nonblank, lines[i]),
    )
}

/// The output of a whole run: each input rendered with its own counter,
/// starting from zero again at every input boundary.
pub open spec fn render_all(
    number_all: bool,
    number_nonblank: bool,
    inputs: Seq<Seq<Seq<char>>>,
) -> Seq<char>
    decreases inputs.len(),
{
    if inputs.len() == 0 {
        Seq::empty()
    } else {
        render_all(number_all, number_nonblank, inputs.drop_last()) + render(
            number_all,
            number_nonblank,
            inputs.last(),
        )
    }
}

/// One record of output text: the line, its terminator, and — when
/// `show_line` is set — the counter right-aligned in a field of six
/// characters and a tab before it.
pub fn format_output(line_count: u64, line: &str, show_line: bool) -> (r: String)
    ensures
        r@ == rendered_line(line_count as nat, line@, show_line),
{
    if show_line {
        let mut s = crate::numeral::aligned_decimal(line_count);
        s.append("\t");
        s.append(line);
        s.append("\n");
        proof {
            reveal_strlit("\t");
            reveal_strlit("\n");
            assert(s@ =~= rendered_line(line_count as nat, line@, show_line));
        }
        s
    } else {
        let mut s = String::from_str(line);
        s.append("\n");
        proof {
            reveal_strlit("\n");
            assert(s@ =~= rendered_line(line_count as nat, line@, show_line));
        }
        s
    }
}

/// One step of the stream: raises the counter as the flags dictate and
/// returns it beside the record rendered for this line.
pub fn process_line(number_all: bool, number_nonblank: bool, line_count: u64, line: &str) -> (r: (
    u64,
    String,
))
    requires
        line_count < u64::MAX,
    ensures
        r.0 as nat == next_count_spec(number_nonblank, line_count as nat, line@),
        r.1@ == rendered_line(
            r.0 as nat,
            line@,
            show_line_spec(number_all, number_nonblank, line@),
        ),
{
    let count = if number_nonblank && line.is_empty() {
        line_count
    } else {
        line_count + 1
    };
    let show = number_all || (number_nonblank && !line.is_empty());
    let out = format_output(count, line, show);
    (count, out)
}

/// The whole output for one input, the counter starting at zero.
pub fn process_input(number_all: bool, number_nonblank: bool, lines: &Vec<String>) -> (r: String)
    ensures
        r@ == render(number_all, number_nonblank, lines.deep_view()),
{
    let ghost ldv = lines.deep_view();
    let mut out = String::new();
    let mut count: u64 = 0;
    let mut i: usize = 0;
    while i < lines.len()
        invariant
            ldv == lines.deep_view(),
            ldv.len() == lines.len(),
            i <= lines.len(),
            count <= i,
            count as nat == count_after(number_nonblank, ldv.take(i as int)),
            out@ == render(number_all, number_nonblank, ldv.take(i as int)),
        decreases lines.len() - i,
    {
        let (next, record) = process_line(number_all, number_nonblank, count, lines[i].as_str());
        proof {
            assert(ldv[i as int] == lines@[i as int]@);
            assert(ldv.take(i + 1).drop_last() =~= ldv.take(i as int));
            assert(ldv.take(i + 1).last() == ldv[i as int]);
        }
        count = next;
        out.append(record.as_str());
        i = i + 1;
    }
    proof {
        assert(ldv.take(lines.len() as int) =~= ldv);
    }
    out
}

/// The whole output for a run over several inputs, the counter restarting
/// at zero at each input boundary.
pub fn process_all(number_all: bool, number_nonblank: bool, inputs: &Vec<Vec<String>>) -> (r:
    String)
    ensures
        r@ == render_all(number_all, number_nonblank, inputs.deep_view()),
{
    let ghost idv = inputs.deep_view();
    let mut out = String::new();
    let mut i: usize = 0;
    while i < inputs.len()
        invariant
            idv == inputs.deep_view(),
            idv.len() == inputs.len(),
            i <= inputs.len(),
            out@ == render_all(number_all, number_nonblank, idv.take(i as int)),
        decreases inputs.len() - i,
    {
        let part = process_input(number_all, number_nonblank, &inputs[i]);
        proof {
            assert(idv[i as int] == inputs@[i as int].deep_view());
            assert(idv.take(i + 1).drop_last() =~= idv.take(i as int));
            assert(idv.take(i + 1).last() == idv[i as int]);
        }
        out.append(part.as_str());
        i = i + 1;
    }
    proof {
        assert(idv.take(inputs.len() as int) =~= idv);
    }
    out
}

} // verus!
