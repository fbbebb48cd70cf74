//! Properties of the formatter over all lines and all inputs.
use vstd::prelude::*;
use crate::escape::{escape_char, escape_str};
use crate::format::{
    Config, format_spec, is_blank, next_counter, numbers, suppressed, tab_char, tabs_shown,
    transform,
};
use crate::source::{emitted, emitted_all, kept, state_after};

verus! {

/// With every option off, each line comes out exactly as it went in.
pub proof fn lemma_plain_config_identity(
    cfg: Config,
    counter: nat,
    prev_blank: bool,
    line: Seq<char>,
)
    requires
        !cfg.show_ends && !cfg.show_line_numbers && !cfg.show_line_numbers_nonblank
            && !cfg.show_tabs && !cfg.squeeze_blank && !cfg.show_nonprinting,
    ensures
        format_spec(cfg, counter, prev_blank, line) == Some(line),
{
}

/// With every option off, a whole input comes out unchanged.
pub proof fn lemma_plain_config_source_identity(cfg: Config, lines: Seq<Seq<char>>)
    requires
        !cfg.show_ends && !cfg.show_line_numbers && !cfg.show_line_numbers_nonblank
            && !cfg.show_tabs && !cfg.squeeze_blank && !cfg.show_nonprinting,
    ensures
        emitted(cfg, lines) == lines,
    decreases lines.len(),
{
    if lines.len() > 0 {
        lemma_plain_config_source_identity(cfg, lines.drop_last());
        assert(lines.drop_last().push(lines.last()) =~= lines);
    }
}

/// The previous-blank flag after an input is whether its last line was blank.
pub proof fn lemma_previous_blank_flag(cfg: Config, lines: Seq<Seq<char>>)
    ensures
        state_after(cfg, lines).1 == (lines.len() > 0 && is_blank(lines.last())),
{
}

/// When every line is numbered, the emitted lines carry the numbers
/// 1, 2, 3, ... in order, one for each line that is not suppressed, and the
/// counter stands one past the last number given.
pub proof fn lemma_numbering_sequential(cfg: Config, lines: Seq<Seq<char>>)
    requires
        cfg.show_line_numbers,
        !cfg.show_line_numbers_nonblank,
    ensures
        kept(cfg, lines).len() == emitted(cfg, lines).len(),
        state_after(cfg, lines).0 == emitted(cfg, lines).len() + 1,
        forall|i: int|
            0 <= i < emitted(cfg, lines).len() ==> #[trigger] emitted(cfg, lines)[i] == transform(
                cfg,
                (i + 1) as nat,
                kept(cfg, lines)[i],
            ),
    decreases lines.len(),
{
    if lines.len() > 0 {
        lemma_numbering_sequential(cfg, lines.drop_last());
    }
}

/// With numbering of non-blank lines, a blank line gets no number and leaves
/// the counter as it was; a non-blank line is numbered with the counter,
/// which then advances by one.
pub proof fn lemma_nonblank_numbering(
    cfg: Config,
    counter: nat,
    prev_blank: bool,
    line: Seq<char>,
)
    requires
        cfg.show_line_numbers_nonblank,
    ensures
        is_blank(line) ==> next_counter(cfg, counter, prev_blank, line) == counter,
        is_blank(line) && !suppressed(cfg, prev_blank, line) ==> format_spec(
            cfg,
            counter,
            prev_blank,
            line,
        ) == Some(
            if cfg.show_ends {
                seq!['$']
            } else {
                Seq::<char>::empty()
            },
        ),
        !is_blank(line) ==> numbers(cfg, line) && next_counter(cfg, counter, prev_blank, line)
            == counter + 1,
{
    if is_blank(line) {
        assert(line =~= Seq::<char>::empty());
    }
    if is_blank(line) && cfg.show_ends {
        let s = seq!['$'];
        assert(s.drop_last() =~= Seq::<char>::empty());
        assert(tabs_shown(s) =~= s) by {
            reveal_with_fuel(tabs_shown, 2);
        }
        assert(escape_str(s) =~= s) by {
            reveal_with_fuel(escape_str, 2);
        }
    }
}

/// How many of `lines` are not blank.
pub open spec fn nonblank_count(lines: Seq<Seq<char>>) -> nat
    decreases lines.len(),
{
    if lines.len() == 0 {
        0
    } else {
        nonblank_count(lines.drop_last()) + if is_blank(lines.last()) {
            0nat
        } else {
            1nat
        }
    }
}

/// With numbering of non-blank lines, each emitted line is numbered with one
/// more than the count of non-blank lines emitted before it, and the counter
/// stands one past the count of non-blank lines emitted.
pub proof fn lemma_nonblank_numbering_sequential(cfg: Config, lines: Seq<Seq<char>>)
    requires
        cfg.show_line_numbers_nonblank,
    ensures
        kept(cfg, lines).len() == emitted(cfg, lines).len(),
        state_after(cfg, lines).0 == nonblank_count(kept(cfg, lines)) + 1,
        forall|i: int|
            0 <= i < emitted(cfg, lines).len() ==> #[trigger] emitted(cfg, lines)[i] == transform(
                cfg,
                nonblank_count(kept(cfg, lines).take(i)) + 1,
                kept(cfg, lines)[i],
            ),
    decreases lines.len(),
{
    if lines.len() > 0 {
        let prev = lines.drop_last();
        lemma_nonblank_numbering_sequential(cfg, prev);
        let k = kept(cfg, lines);
        let kp = kept(cfg, prev);
        if k.len() > kp.len() {
            assert(k.drop_last() =~= kp);
            assert forall|i: int| 0 <= i < kp.len() implies #[trigger] k.take(i) == kp.take(i) by {
                assert(k.take(i) =~= kp.take(i));
            }
            assert(k.take(kp.len() as int) =~= kp);
        }
    }
}

/// `n` blank lines.
pub open spec fn blank_run(n: nat) -> Seq<Seq<char>> {
    Seq::new(n, |i: int| Seq::<char>::empty())
}

/// With squeezing on, a run of one or more blank lines that starts the input
/// or follows a non-blank line gives exactly one emitted line.
pub proof fn lemma_blank_run_emits_one(cfg: Config, pre: Seq<Seq<char>>, n: nat)
    requires
        cfg.squeeze_blank,
        n >= 1,
        pre.len() == 0 || !is_blank(pre.last()),
    ensures
        emitted(cfg, pre + blank_run(n)).len() == emitted(cfg, pre).len() + 1,
    decreases n,
{
    let all = pre + blank_run(n);
    assert(all.drop_last() =~= pre + blank_run((n - 1) as nat));
    assert(all.last() == Seq::<char>::empty());
    if n == 1 {
        assert(pre + blank_run(0) =~= pre);
    } else {
        lemma_blank_run_emits_one(cfg, pre, (n - 1) as nat);
        let shorter = pre + blank_run((n - 1) as nat);
        assert(shorter.last() == Seq::<char>::empty());
    }
}

/// Tab display works character by character: it distributes over
/// concatenation.
pub proof fn lemma_tabs_shown_concat(a: Seq<char>, b: Seq<char>)
    ensures
        tabs_shown(a + b) == tabs_shown(a) + tabs_shown(b),
    decreases b.len(),
{
    if b.len() == 0 {
        assert(a + b =~= a);
        assert(tabs_shown(a) + tabs_shown(b) =~= tabs_shown(a));
    } else {
        lemma_tabs_shown_concat(a, b.drop_last());
        assert((a + b).drop_last() =~= a + b.drop_last());
        assert(tabs_shown(a) + tabs_shown(b) =~= tabs_shown(a) + tabs_shown(b.drop_last())
            + tab_char(b.last()));
    }
}

/// Escaping works character by character: it distributes over
/// concatenation.
pub proof fn lemma_escape_str_concat(a: Seq<char>, b: Seq<char>)
    ensures
        escape_str(a + b) == escape_str(a) + escape_str(b),
    decreases b.len(),
{
    if b.len() == 0 {
        assert(a + b =~= a);
        assert(escape_str(a) + escape_str(b) =~= escape_str(a));
    } else {
        lemma_escape_str_concat(a, b.drop_last());
        assert((a + b).drop_last() =~= a + b.drop_last());
        assert(escape_str(a) + escape_str(b) =~= escape_str(a) + escape_str(b.drop_last())
            + escape_char(b.last()));
    }
}

/// With both on, the end mark follows the line with its tabs shown: the
/// `$` stands at the very end, after every `^I`.
pub proof fn lemma_end_mark_after_tabs(cfg: Config, counter: nat, line: Seq<char>)
    requires
        cfg.show_ends,
        cfg.show_tabs,
        !cfg.show_nonprinting,
        !numbers(cfg, line),
    ensures
        transform(cfg, counter, line) == tabs_shown(line).push('$'),
{
    lemma_tabs_shown_concat(line, seq!['$']);
    assert(line.push('$') =~= line + seq!['$']);
    let s = seq!['$'];
    assert(s.drop_last() =~= Seq::<char>::empty());
    assert(tabs_shown(s) =~= s) by {
        reveal_with_fuel(tabs_shown, 2);
    }
}

/// Showing non-printing characters leaves a tab as it is and shows a bell
/// (0x07) as `^G`, wherever they stand in the line.
pub proof fn lemma_tab_kept_bell_escaped(a: Seq<char>, b: Seq<char>)
    ensures
        escape_str(a + seq!['\t'] + b) == escape_str(a) + seq!['\t'] + escape_str(b),
        escape_str(a + seq!['\x07'] + b) == escape_str(a) + seq!['^', 'G'] + escape_str(b),
        escape_char('\n') == seq!['\n'],
{
    let t = seq!['\t'];
    let g = seq!['\x07'];
    assert(t.drop_last() =~= Seq::<char>::empty());
    assert(g.drop_last() =~= Seq::<char>::empty());
    assert(escape_str(t) =~= t) by {
        reveal_with_fuel(escape_str, 2);
    }
    assert(escape_str(g) =~= seq!['^', 'G']) by {
        reveal_with_fuel(escape_str, 2);
    }
    lemma_escape_str_concat(a, t);
    lemma_escape_str_concat(a + t, b);
    lemma_escape_str_concat(a, g);
    lemma_escape_str_concat(a + g, b);
}

/// Sources are formatted independently: what is emitted for two sources in
/// sequence is what each gives alone, so numbering in the second starts
/// again at 1.
pub proof fn lemma_sources_independent(cfg: Config, a: Seq<Seq<char>>, b: Seq<Seq<char>>)
    ensures
        emitted_all(cfg, seq![a, b]) == emitted(cfg, a) + emitted(cfg, b),
        cfg.show_line_numbers && !cfg.show_line_numbers_nonblank && emitted(cfg, b).len() > 0
            ==> emitted_all(cfg, seq![a, b])[emitted(cfg, a).len() as int] == transform(
            cfg,
            1,
            kept(cfg, b)[0],
        ),
{
    let s = seq![a, b];
    assert(s.drop_last() =~= seq![a]);
    assert(seq![a].drop_last() =~= Seq::<Seq<Seq<char>>>::empty());
    assert(seq![a].last() == a);
    assert(emitted_all(cfg, Seq::empty()) == Seq::<Seq<char>>::empty());
    assert(Seq::<Seq<char>>::empty() + emitted(cfg, a) =~= emitted(cfg, a));
    assert(emitted_all(cfg, seq![a]) =~= emitted(cfg, a));
    if cfg.show_line_numbers && !cfg.show_line_numbers_nonblank && emitted(cfg, b).len() > 0 {
        lemma_numbering_sequential(cfg, b);
        assert(emitted(cfg, b)[0] == transform(cfg, 1, kept(cfg, b)[0]));
    }
}

} // verus!
