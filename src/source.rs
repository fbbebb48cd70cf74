//! Whole inputs: the lines of one source formatted from a fresh state, and
//! several sources one after another.
use vstd::prelude::*;
use crate::escape::EscapeTable;
use crate::format::{Config, FormatterState, format_line, format_spec, is_blank, next_counter};

verus! {

/// The characters of each line.
pub open spec fn lines_view(lines: Seq<String>) -> Seq<Seq<char>> {
    lines.map_values(|s: String| s@)
}

/// The counter and the previous-blank flag after `lines`, from a fresh state.
pub open spec fn state_after(cfg: Config, lines: Seq<Seq<char>>) -> (nat, bool)
    decreases lines.len(),
{
    if lines.len() == 0 {
        (1, false)
    } else {
        let st = state_after(cfg, lines.drop_last());
        (next_counter(cfg, st.0, st.1, lines.last()), is_blank(lines.last()))
    }
}

/// The lines emitted for `lines`, from a fresh state, suppressed ones left out.
pub open spec fn emitted(cfg: Config, lines: Seq<Seq<char>>) -> Seq<Seq<char>>
    decreases lines.len(),
{
    if lines.len() == 0 {
        Seq::empty()
    } else {
        let st = state_after(cfg, lines.drop_last());
        let before = emitted(cfg, lines.drop_last());
        match format_spec(cfg, st.0, st.1, lines.last()) {
            Some(out) => before.push(out),
            None => before,
        }
    }
}

/// The input lines that are not suppressed, in order.
pub open spec fn kept(cfg: Config, lines: Seq<Seq<char>>) -> Seq<Seq<char>>
    decreases lines.len(),
{
    if lines.len() == 0 {
        Seq::empty()
    } else {
        let st = state_after(cfg, lines.drop_last());
        let before = kept(cfg, lines.drop_last());
        match format_spec(cfg, st.0, st.1, lines.last()) {
            Some(out) => before.push(lines.last()),
            None => before,
        }
    }
}

/// The lines emitted for each source in turn, each from a fresh state.
pub open spec fn emitted_all(cfg: Config, sources: Seq<Seq<Seq<char>>>) -> Seq<Seq<char>>
    decreases sources.len(),
{
    if sources.len() == 0 {
        Seq::empty()
    } else {
        emitted_all(cfg, sources.drop_last()) + emitted(cfg, sources.last())
    }
}

/// The counter never exceeds one more than the number of lines read.
pub proof fn lemma_counter_bound(cfg: Config, lines: Seq<Seq<char>>)
    ensures
        1 <= state_after(cfg, lines).0 <= lines.len() + 1,
    decreases lines.len(),
{
    if lines.len() > 0 {
        lemma_counter_bound(cfg, lines.drop_last());
    }
}

/// Formats the lines of one source, from a fresh state.
pub fn format_source(lines: &Vec<String>, config: &Config, lookup_table: &EscapeTable) -> (r: Vec<
    String,
>)
    requires
        lookup_table.wf(),
        lines.len() < u64::MAX,
    ensures
        lines_view(r@) == emitted(*config, lines_view(lines@)),
{
    let mut state = FormatterState::new();
    let mut out: Vec<String> = Vec::new();
    let mut i: usize = 0;
    while i < lines.len()
        invariant
            lookup_table.wf(),
            lines.len() < u64::MAX,
            i <= lines.len(),
            state.line_counter as nat == state_after(*config, lines_view(lines@.take(i as int))).0,
            state.previous_line_was_blank == state_after(
                *config,
                lines_view(lines@.take(i as int)),
            ).1,
            lines_view(out@) == emitted(*config, lines_view(lines@.take(i as int))),
        decreases lines.len() - i,
    {
        let ghost before = lines_view(lines@.take(i as int));
        let ghost upto = lines_view(lines@.take(i + 1));
        assert(upto.drop_last() =~= before);
        assert(upto.last() == lines@[i as int]@);
        proof {
            lemma_counter_bound(*config, before);
        }
        let r = format_line(lines[i].as_str(), config, lookup_table, &mut state);
        match r {
            Some(s) => {
                let ghost prev = out@;
                out.push(s);
                assert(lines_view(out@) =~= lines_view(prev).push(out@.last()@));
            },
            None => {},
        }
        i = i + 1;
    }
    assert(lines@.take(lines.len() as int) =~= lines@);
    out
}

/// Formats several sources one after another, each from a fresh state.
pub fn format_sources(sources: &Vec<Vec<String>>, config: &Config, lookup_table: &EscapeTable) -> (r:
    Vec<String>)
    requires
        lookup_table.wf(),
        forall|j: int| 0 <= j < sources.len() ==> #[trigger] sources@[j].len() < u64::MAX,
    ensures
        lines_view(r@) == emitted_all(
            *config,
            sources@.map_values(|src: Vec<String>| lines_view(src@)),
        ),
{
    let ghost view = sources@.map_values(|src: Vec<String>| lines_view(src@));
    let mut out: Vec<String> = Vec::new();
    let mut i: usize = 0;
    while i < sources.len()
        invariant
            lookup_table.wf(),
            forall|j: int| 0 <= j < sources.len() ==> #[trigger] sources@[j].len() < u64::MAX,
            view == sources@.map_values(|src: Vec<String>| lines_view(src@)),
            i <= sources.len(),
            lines_view(out@) == emitted_all(*config, view.take(i as int)),
        decreases sources.len() - i,
    {
        assert(view.take(i + 1).drop_last() =~= view.take(i as int));
        let mut part = format_source(&sources[i], config, lookup_table);
        let ghost prev = out@;
        out.append(&mut part);
        assert(lines_view(out@) =~= lines_view(prev) + emitted(*config, view[i as int]));
        i = i + 1;
    }
    assert(view.take(sources.len() as int) =~= view);
    out
}

} // verus!
