//! Processing whole sources: the per-source numbering loop, and the run over
//! an ordered list of sources with per-source failure isolation.

use vstd::prelude::*;
use crate::config::Config;
use crate::numbering::{counter_after, render_line, rendered_line};

verus! {

/// The lines printed for the lines `lines`, when the counter stands at k.
pub open spec fn rendered_from(
    number_lines: bool,
    number_nonblank_lines: bool,
    k: nat,
    lines: Seq<Seq<char>>,
) -> Seq<Seq<char>>
    decreases lines.len(),
{
    if lines.len() == 0 {
        Seq::empty()
    } else {
        seq![rendered_line(number_lines, number_nonblank_lines, k, lines[0])] + rendered_from(
            number_lines,
            number_nonblank_lines,
            counter_after(number_lines, number_nonblank_lines, k, lines[0]),
            lines.drop_first(),
        )
    }
}

/// The lines printed for one whole source: its counter starts at 1.
pub open spec fn rendered_source(
    number_lines: bool,
    number_nonblank_lines: bool,
    lines: Seq<Seq<char>>,
) -> Seq<Seq<char>> {
    rendered_from(number_lines, number_nonblank_lines, 1, lines)
}

/// The view of a sequence of owned lines.
pub open spec fn lines_view(lines: Seq<String>) -> Seq<Seq<char>> {
    lines.map_values(|l: String| l@)
}

/// The numbering loop for one source: every line of `lines`, rendered under
/// the configured policy with the counter starting at 1.
pub fn process_source(config: &Config, lines: &Vec<String>) -> (out: Vec<String>)
    requires
        lines@.len() < u64::MAX,
    ensures
        lines_view(out@) == rendered_source(
            config.number_lines,
            config.number_nonblank_lines,
            lines_view(lines@),
        ),
{
    let ghost all: Seq<Seq<char>> = lines_view(lines@);
    let ghost nl = config.number_lines;
    let ghost nb = config.number_nonblank_lines;
    let mut out: Vec<String> = Vec::new();
    let mut counter: u64 = 1;
    let mut i: usize = 0;
    proof {
        assert(all.skip(0) =~= all);
        assert(lines_view(out@) + rendered_from(nl, nb, 1, all) =~= rendered_source(nl, nb, all));
    }
    while i < lines.len()
        invariant
            i <= lines@.len(),
            lines@.len() < u64::MAX,
            all == lines_view(lines@),
            nl == config.number_lines,
            nb == config.number_nonblank_lines,
            1 <= counter <= 1 + i,
            lines_view(out@) + rendered_from(nl, nb, counter as nat, all.skip(i as int))
                == rendered_source(nl, nb, all),
        decreases lines@.len() - i,
    {
        proof {
            assert(all.skip(i as int)[0] == all[i as int]);
            assert(all.skip(i as int).drop_first() =~= all.skip(i as int + 1));
        }
        let (line, next) = render_line(config, counter, lines[i].as_str());
        let ghost prev_out = out@;
        out.push(line);
        proof {
            assert(lines_view(out@) =~= lines_view(prev_out) + seq![
                rendered_line(nl, nb, counter as nat, all[i as int]),
            ]);
            assert(lines_view(out@) + rendered_from(
                nl,
                nb,
                next as nat,
                all.skip(i as int + 1),
            ) =~= rendered_source(nl, nb, all));
        }
        counter = next;
        i = i + 1;
    }
    proof {
        assert(all.skip(all.len() as int) =~= Seq::<Seq<char>>::empty());
        assert(lines_view(out@) =~= rendered_source(nl, nb, all));
    }
    out
}

/// What the surrounding program got when it tried one source, handed to the
/// library as plain values: either the source could not be opened, or it was
/// opened and some lines were read, possibly cut short by a read failure.
/// Each failure carries its reason as text.
pub enum SourceOutcome {
    OpenFailed(String),
    Opened(Vec<String>, Option<String>),
}

/// One tried source: its name as given, and what came of it.
pub struct FetchedSource {
    pub name: String,
    pub outcome: SourceOutcome,
}

/// The lines an outcome contributes to standard output: none when the source
/// never opened, otherwise exactly the lines that were read.
pub open spec fn outcome_lines(o: SourceOutcome) -> Seq<Seq<char>> {
    match o {
        SourceOutcome::OpenFailed(_) => Seq::empty(),
        SourceOutcome::Opened(lines, _) => lines_view(lines@),
    }
}

/// The diagnostic for a source that could not be opened.
pub open spec fn open_failure_message(name: Seq<char>, reason: Seq<char>) -> Seq<char> {
    "Failed to open "@ + name + ": "@ + reason
}

/// The diagnostic for a source that failed while being read.
pub open spec fn read_failure_message(name: Seq<char>, reason: Seq<char>) -> Seq<char> {
    "Failed to read "@ + name + ": "@ + reason
}

/// The diagnostics one tried source contributes to standard error: exactly
/// one line when it failed to open or to read, none otherwise.
pub open spec fn source_diagnostics(s: FetchedSource) -> Seq<Seq<char>> {
    match s.outcome {
        SourceOutcome::OpenFailed(reason) => seq![open_failure_message(s.name@, reason@)],
        SourceOutcome::Opened(_, Some(reason)) => seq![read_failure_message(s.name@, reason@)],
        SourceOutcome::Opened(_, None) => Seq::empty(),
    }
}

/// Standard output for a whole run: each source's rendered lines in order,
/// each source numbered independently from 1.
pub open spec fn sources_output(
    number_lines: bool,
    number_nonblank_lines: bool,
    sources: Seq<FetchedSource>,
) -> Seq<Seq<char>>
    decreases sources.len(),
{
    if sources.len() == 0 {
        Seq::empty()
    } else {
        rendered_source(number_lines, number_nonblank_lines, outcome_lines(sources[0].outcome))
            + sources_output(number_lines, number_nonblank_lines, sources.drop_first())
    }
}

/// Standard error for a whole run: each failing source's diagnostic, in order.
pub open spec fn sources_diagnostics(sources: Seq<FetchedSource>) -> Seq<Seq<char>>
    decreases sources.len(),
{
    if sources.len() == 0 {
        Seq::empty()
    } else {
        source_diagnostics(sources[0]) + sources_diagnostics(sources.drop_first())
    }
}

/// The diagnostic line for a source that could not be opened.
pub fn open_error_line(name: &str, reason: &str) -> (r: String)
    ensures
        r@ == open_failure_message(name@, reason@),
{
    let mut s = String::from_str("Failed to open ");
    s.append(name);
    s.append(": ");
    s.append(reason);
    proof {
        assert(s@ =~= open_failure_message(name@, reason@));
    }
    s
}

/// The diagnostic line for a source that failed while being read.
pub fn read_error_line(name: &str, reason: &str) -> (r: String)
    ensures
        r@ == read_failure_message(name@, reason@),
{
    let mut s = String::from_str("Failed to read ");
    s.append(name);
    s.append(": ");
    s.append(reason);
    proof {
        assert(s@ =~= read_failure_message(name@, reason@));
    }
    s
}

/// The whole run over already-tried sources: the first result is everything
/// written to standard output, the second everything written to standard
/// error. A source that failed contributes no output beyond its read lines
/// and exactly one diagnostic; the run itself never fails.
pub fn run_on(config: &Config, sources: &Vec<FetchedSource>) -> (r: (Vec<String>, Vec<String>))
    requires
        forall|i: int|
            0 <= i < sources@.len() ==> outcome_lines(#[trigger] sources@[i].outcome).len()
                < u64::MAX,
    ensures
        lines_view(r.0@) == sources_output(
            config.number_lines,
            config.number_nonblank_lines,
            sources@,
        ),
        lines_view(r.1@) == sources_diagnostics(sources@),
{
    let ghost all: Seq<FetchedSource> = sources@;
    let ghost nl = config.number_lines;
    let ghost nb = config.number_nonblank_lines;
    let mut out: Vec<String> = Vec::new();
    let mut errs: Vec<String> = Vec::new();
    let mut i: usize = 0;
    proof {
        assert(all.skip(0) =~= all);
        assert(lines_view(out@) + sources_output(nl, nb, all) =~= sources_output(nl, nb, all));
        assert(lines_view(errs@) + sources_diagnostics(all) =~= sources_diagnostics(all));
    }
    while i < sources.len()
        invariant
            i <= sources@.len(),
            all == sources@,
            nl == config.number_lines,
            nb == config.number_nonblank_lines,
            forall|j: int|
                0 <= j < all.len() ==> outcome_lines(#[trigger] all[j].outcome).len() < u64::MAX,
            lines_view(out@) + sources_output(nl, nb, all.skip(i as int)) == sources_output(
                nl,
                nb,
                all,
            ),
            lines_view(errs@) + sources_diagnostics(all.skip(i as int)) == sources_diagnostics(
                all,
            ),
        decreases sources@.len() - i,
    {
        proof {
            assert(all.skip(i as int)[0] == all[i as int]);
            assert(all.skip(i as int).drop_first() =~= all.skip(i as int + 1));
        }
        let ghost prev_out = out@;
        let ghost prev_errs = errs@;
        let src = &sources[i];
        match &src.outcome {
            SourceOutcome::OpenFailed(reason) => {
                errs.push(open_error_line(src.name.as_str(), reason.as_str()));
            },
            SourceOutcome::Opened(lines, read_error) => {
                let mut rendered = process_source(config, lines);
                out.append(&mut rendered);
                match read_error {
                    Some(reason) => {
                        errs.push(read_error_line(src.name.as_str(), reason.as_str()));
                    },
                    None => {},
                }
            },
        }
        proof {
            assert(lines_view(out@) =~= lines_view(prev_out) + rendered_source(
                nl,
                nb,
                outcome_lines(all[i as int].outcome),
            ));
            assert(lines_view(errs@) =~= lines_view(prev_errs) + source_diagnostics(
                all[i as int],
            ));
            assert(lines_view(out@) + sources_output(nl, nb, all.skip(i as int + 1))
                =~= sources_output(nl, nb, all));
            assert(lines_view(errs@) + sources_diagnostics(all.skip(i as int + 1))
                =~= sources_diagnostics(all));
        }
        i = i + 1;
    }
    proof {
        assert(all.skip(all.len() as int) =~= Seq::<FetchedSource>::empty());
        assert(lines_view(out@) =~= sources_output(nl, nb, all));
        assert(lines_view(errs@) =~= sources_diagnostics(all));
    }
    (out, errs)
}

} // verus!
