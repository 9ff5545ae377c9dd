//! Laws of the renderer, proved once and for all inputs.
//!
//! Each law is stated over the spec functions that the executable
//! functions' contracts use, so it carries over to every run of the
//! library.

use crate::numeral::decimal;
use crate::numeral::lemma_right_aligned_len;
use crate::numeral::right_aligned;
use crate::render::count_after;
use crate::render::emitted_line;
use crate::render::line_number;
use crate::render::render;
use crate::render::render_all;
use crate::render::rendered_line;
use crate::render::show_line_spec;
use vstd::prelude::*;

verus! {

/// The plain concatenation of `lines`, every line followed by a newline.
pub open spec fn plain_concat(lines: Seq<Seq<char>>) -> Seq<char>
    decreases lines.len(),
{
    if lines.len() == 0 {
        Seq::empty()
    } else {
        plain_concat(lines.drop_last()) + lines.last() + seq!['\n']
    }
}

/// The number of nonblank lines in `lines`.
pub open spec fn nonblank_count(lines: Seq<Seq<char>>) -> nat
    decreases lines.len(),
{
    if lines.len() == 0 {
        0
    } else {
        nonblank_count(lines.drop_last()) + if lines.last().len() != 0 {
            1nat
        } else {
            0nat
        }
    }
}

/// With `number_nonblank` off, every line raises the counter; with it on,
/// exactly the nonblank lines do.
pub proof fn lemma_count_after(number_nonblank: bool, lines: Seq<Seq<char>>)
    ensures
        !number_nonblank ==> count_after(number_nonblank, lines) == lines.len(),
        number_nonblank ==> count_after(number_nonblank, lines) == nonblank_count(lines),
    decreases lines.len(),
{
    if lines.len() > 0 {
        lemma_count_after(number_nonblank, lines.drop_last());
    }
}

/// An input whose every line raises the counter numbers its lines by
/// position: the record at `i` carries the number `i + 1`.
pub proof fn lemma_line_number_is_position(number_nonblank: bool, lines: Seq<Seq<char>>, i: int)
    requires
        0 <= i < lines.len(),
        number_nonblank ==> forall|j: int| 0 <= j < lines.len() ==> lines[j].len() != 0,
    ensures
        line_number(number_nonblank, lines, i) == i + 1,
{
    let prefix = lines.take(i + 1);
    if number_nonblank {
        lemma_count_after(number_nonblank, prefix);
        lemma_nonblank_count_full(prefix);
    } else {
        lemma_count_after(number_nonblank, prefix);
    }
}

proof fn lemma_nonblank_count_full(lines: Seq<Seq<char>>)
    requires
        forall|j: int| 0 <= j < lines.len() ==> lines[j].len() != 0,
    ensures
        nonblank_count(lines) == lines.len(),
    decreases lines.len(),
{
    if lines.len() > 0 {
        lemma_nonblank_count_full(lines.drop_last());
    }
}

/// The output of a nonempty input is the output of all but its last line,
/// followed by the last line's record.
pub proof fn lemma_render_decompose(number_all: bool, number_nonblank: bool, lines: Seq<Seq<char>>)
    requires
        lines.len() > 0,
    ensures
        render(number_all, number_nonblank, lines) == render(
            number_all,
            number_nonblank,
            lines.drop_last(),
        ) + emitted_line(number_all, number_nonblank, lines, lines.len() - 1),
{
    assert(lines.take(lines.len() as int) =~= lines);
}

/// With both flags off, the output is the plain concatenation of the
/// lines: faithful `cat` behaviour.
pub proof fn lemma_render_plain(lines: Seq<Seq<char>>)
    ensures
        render(false, false, lines) == plain_concat(lines),
    decreases lines.len(),
{
    if lines.len() > 0 {
        lemma_render_plain(lines.drop_last());
        assert(render(false, false, lines) =~= plain_concat(lines));
    }
}

/// With `number_all` set, the record at position `i` is the line prefixed
/// with the number `i + 1`, right-aligned in a field of at least six
/// characters and followed by a tab.  When `number_nonblank` is set too,
/// this holds of inputs without blank lines; a blank line is then shown
/// with the counter it left untouched.
pub proof fn lemma_number_all(number_nonblank: bool, lines: Seq<Seq<char>>)
    requires
        number_nonblank ==> forall|j: int| 0 <= j < lines.len() ==> lines[j].len() != 0,
    ensures
        forall|i: int|
            0 <= i < lines.len() ==> emitted_line(true, number_nonblank, lines, i)
                == right_aligned(decimal((i + 1) as nat)) + seq!['\t'] + lines[i] + seq!['\n'],
        forall|i: int|
            0 <= i < lines.len() ==> #[trigger] right_aligned(decimal((i + 1) as nat)).len() >= 6,
{
    assert forall|i: int| 0 <= i < lines.len() implies emitted_line(true, number_nonblank, lines, i)
        == right_aligned(decimal((i + 1) as nat)) + seq!['\t'] + lines[i] + seq!['\n'] by {
        lemma_line_number_is_position(number_nonblank, lines, i);
    }
    assert forall|i: int| 0 <= i < lines.len() implies #[trigger] right_aligned(
        decimal((i + 1) as nat),
    ).len() >= 6 by {
        lemma_right_aligned_len(decimal((i + 1) as nat));
    }
}

/// With only `number_nonblank` set: a blank line is emitted bare, with no
/// number and no tab, and the record at a nonblank position `i` carries
/// the count of nonblank lines up to and including `i`.
pub proof fn lemma_number_nonblank(lines: Seq<Seq<char>>)
    ensures
        forall|i: int|
            0 <= i < lines.len() && lines[i].len() == 0 ==> emitted_line(false, true, lines, i)
                == lines[i] + seq!['\n'],
        forall|i: int|
            0 <= i < lines.len() && lines[i].len() != 0 ==> emitted_line(false, true, lines, i)
                == right_aligned(decimal(nonblank_count(lines.take(i + 1)))) + seq!['\t']
                + lines[i] + seq!['\n'],
{
    assert forall|i: int| 0 <= i < lines.len() && lines[i].len() != 0 implies emitted_line(
        false,
        true,
        lines,
        i,
    ) == right_aligned(decimal(nonblank_count(lines.take(i + 1)))) + seq!['\t'] + lines[i]
        + seq!['\n'] by {
        lemma_count_after(true, lines.take(i + 1));
    }
}

/// Determinism: two outputs of the same lines under the same flags are the
/// same text, so a second unchanged run repeats the first byte for byte.
pub proof fn lemma_deterministic(
    number_all: bool,
    number_nonblank: bool,
    lines: Seq<Seq<char>>,
    first_run: Seq<char>,
    second_run: Seq<char>,
)
    requires
        first_run == render(number_all, number_nonblank, lines),
        second_run == render(number_all, number_nonblank, lines),
    ensures
        first_run == second_run,
{
}

/// Concatenating two inputs restarts the counter: the output of the run
/// over `[first, second]` is the output of `first` alone followed by the
/// output of `second` alone, however many lines `first` holds.
pub proof fn lemma_counter_reset(
    number_all: bool,
    number_nonblank: bool,
    first: Seq<Seq<char>>,
    second: Seq<Seq<char>>,
)
    ensures
        render_all(number_all, number_nonblank, seq![first, second]) == render(
            number_all,
            number_nonblank,
            first,
        ) + render(number_all, number_nonblank, second),
{
    let pair = seq![first, second];
    let one = seq![first];
    assert(pair.len() == 2 && pair[0] == first && pair[1] == second);
    assert(pair.drop_last() =~= one);
    assert(pair.last() == second);
    assert(one.len() == 1 && one[0] == first);
    assert(one.drop_last() =~= Seq::<Seq<Seq<char>>>::empty());
    assert(one.last() == first);
    assert(render_all(number_all, number_nonblank, one.drop_last()) == Seq::<char>::empty());
    assert(render_all(number_all, number_nonblank, one) =~= render(
        number_all,
        number_nonblank,
        first,
    ));
    assert(render_all(number_all, number_nonblank, pair) =~= render(
        number_all,
        number_nonblank,
        first,
    ) + render(number_all, number_nonblank, second));
}

} // verus!
