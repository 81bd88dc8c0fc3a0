//! The library's laws: what the numbering policy guarantees over whole
//! sources and whole runs, proved once and for all.

use vstd::prelude::*;
use crate::emitter::{
    outcome_lines, rendered_from, rendered_source, sources_output, FetchedSource,
};
use crate::numbering::{counter_after, numbered_line};

verus! {

/// How many of the lines are non-blank.
pub open spec fn count_nonblank(lines: Seq<Seq<char>>) -> nat
    decreases lines.len(),
{
    if lines.len() == 0 {
        0
    } else {
        (if lines[0].len() > 0 {
            1nat
        } else {
            0nat
        }) + count_nonblank(lines.drop_first())
    }
}

proof fn lemma_no_numbering_from(k: nat, lines: Seq<Seq<char>>)
    ensures
        rendered_from(false, false, k, lines) == lines,
    decreases lines.len(),
{
    if lines.len() == 0 {
        assert(rendered_from(false, false, k, lines) =~= lines);
    } else {
        lemma_no_numbering_from(counter_after(false, false, k, lines[0]), lines.drop_first());
        assert(rendered_from(false, false, k, lines) =~= lines);
    }
}

/// With neither numbering flag set, a source's output is its input: every
/// line passes through unmodified, with no prefix.
pub proof fn lemma_no_numbering_identity(lines: Seq<Seq<char>>)
    ensures
        rendered_source(false, false, lines) == lines,
{
    lemma_no_numbering_from(1, lines);
}

proof fn lemma_number_all_from(number_nonblank_lines: bool, k: nat, lines: Seq<Seq<char>>)
    ensures
        rendered_from(true, number_nonblank_lines, k, lines).len() == lines.len(),
        forall|j: int|
            0 <= j < lines.len() ==> rendered_from(true, number_nonblank_lines, k, lines)[j]
                == numbered_line((k + j) as nat, lines[j]),
    decreases lines.len(),
{
    if lines.len() > 0 {
        lemma_number_all_from(number_nonblank_lines, k + 1, lines.drop_first());
        assert forall|j: int| 0 <= j < lines.len() implies rendered_from(
            true,
            number_nonblank_lines,
            k,
            lines,
        )[j] == numbered_line((k + j) as nat, lines[j]) by {
            if j > 0 {
                assert(rendered_from(true, number_nonblank_lines, k, lines)[j] == rendered_from(
                    true,
                    number_nonblank_lines,
                    k + 1,
                    lines.drop_first(),
                )[j - 1]);
                assert(lines.drop_first()[j - 1] == lines[j]);
            }
        }
    }
}

/// With `number_lines` set, the line at (0-based) position j of a source is
/// printed as its text prefixed with the number j + 1, right-justified to
/// width six and followed by a tab; numbering starts at 1.
pub proof fn lemma_number_all(number_nonblank_lines: bool, lines: Seq<Seq<char>>)
    ensures
        rendered_source(true, number_nonblank_lines, lines).len() == lines.len(),
        forall|j: int|
            0 <= j < lines.len() ==> rendered_source(true, number_nonblank_lines, lines)[j]
                == numbered_line((j + 1) as nat, lines[j]),
{
    lemma_number_all_from(number_nonblank_lines, 1, lines);
}

proof fn lemma_number_nonblank_from(k: nat, lines: Seq<Seq<char>>)
    ensures
        rendered_from(false, true, k, lines).len() == lines.len(),
        forall|j: int|
            0 <= j < lines.len() && lines[j].len() == 0 ==> rendered_from(false, true, k, lines)[j]
                == lines[j],
        forall|j: int|
            0 <= j < lines.len() && lines[j].len() > 0 ==> rendered_from(false, true, k, lines)[j]
                == numbered_line((k + count_nonblank(lines.take(j))) as nat, lines[j]),
    decreases lines.len(),
{
    if lines.len() > 0 {
        let k1 = counter_after(false, true, k, lines[0]);
        lemma_number_nonblank_from(k1, lines.drop_first());
        assert forall|j: int| 0 <= j < lines.len() implies {
            &&& lines[j].len() == 0 ==> rendered_from(false, true, k, lines)[j] == lines[j]
            &&& lines[j].len() > 0 ==> rendered_from(false, true, k, lines)[j] == numbered_line(
                (k + count_nonblank(lines.take(j))) as nat,
                lines[j],
            )
        } by {
            if j == 0 {
                assert(lines.take(0) =~= Seq::<Seq<char>>::empty());
                assert(count_nonblank(lines.take(0)) == 0);
            } else {
                assert(rendered_from(false, true, k, lines)[j] == rendered_from(
                    false,
                    true,
                    k1,
                    lines.drop_first(),
                )[j - 1]);
                assert(lines.drop_first()[j - 1] == lines[j]);
                assert(lines.take(j)[0] == lines[0]);
                assert(lines.take(j).drop_first() =~= lines.drop_first().take(j - 1));
                assert(count_nonblank(lines.take(j)) == (if lines[0].len() > 0 {
                    1nat
                } else {
                    0nat
                }) + count_nonblank(lines.drop_first().take(j - 1)));
            }
        }
    }
}

/// With `number_nonblank_lines` set alone, a blank line is printed with no
/// prefix and consumes no counter value, while a non-blank line at (0-based)
/// position j is numbered with one plus the count of non-blank lines before
/// it: the counter advances exactly once per non-blank line.
pub proof fn lemma_number_nonblank(lines: Seq<Seq<char>>)
    ensures
        rendered_source(false, true, lines).len() == lines.len(),
        forall|j: int|
            0 <= j < lines.len() && lines[j].len() == 0 ==> rendered_source(false, true, lines)[j]
                == lines[j],
        forall|j: int|
            0 <= j < lines.len() && lines[j].len() > 0 ==> rendered_source(false, true, lines)[j]
                == numbered_line((count_nonblank(lines.take(j)) + 1) as nat, lines[j]),
{
    lemma_number_nonblank_from(1, lines);
}

/// Rendering is a function of the lines and the flags alone: the same lines
/// under the same flags render identically, so repeating a run on an
/// unchanged source reproduces its output exactly.
pub proof fn lemma_rendering_deterministic(
    number_lines: bool,
    number_nonblank_lines: bool,
    first: Seq<Seq<char>>,
    second: Seq<Seq<char>>,
)
    requires
        first == second,
    ensures
        rendered_source(number_lines, number_nonblank_lines, first) == rendered_source(
            number_lines,
            number_nonblank_lines,
            second,
        ),
{
}

/// Sources are processed in order and independently: the output of a run
/// over sources A then B is exactly the output for A followed by the output
/// for B, each numbered from 1 on its own.
pub proof fn lemma_two_sources(
    number_lines: bool,
    number_nonblank_lines: bool,
    a: FetchedSource,
    b: FetchedSource,
)
    ensures
        sources_output(number_lines, number_nonblank_lines, seq![a, b]) == rendered_source(
            number_lines,
            number_nonblank_lines,
            outcome_lines(a.outcome),
        ) + rendered_source(number_lines, number_nonblank_lines, outcome_lines(b.outcome)),
{
    let pair = seq![a, b];
    assert(pair[0] == a);
    assert(pair.drop_first() =~= seq![b]);
    assert(seq![b][0] == b);
    assert(seq![b].drop_first() =~= Seq::<FetchedSource>::empty());
    assert(sources_output(
        number_lines,
        number_nonblank_lines,
        Seq::<FetchedSource>::empty(),
    ) =~= Seq::<Seq<char>>::empty());
    assert(sources_output(number_lines, number_nonblank_lines, seq![b]) =~= rendered_source(
        number_lines,
        number_nonblank_lines,
        outcome_lines(b.outcome),
    ));
    assert(sources_output(number_lines, number_nonblank_lines, pair) =~= rendered_source(
        number_lines,
        number_nonblank_lines,
        outcome_lines(a.outcome),
    ) + rendered_source(number_lines, number_nonblank_lines, outcome_lines(b.outcome)));
}

} // verus!
