//! The line formatter: the configuration, the state kept between the lines
//! of one input, and the fixed order in which the options apply.
use vstd::prelude::*;
use crate::escape::{EscapeTable, escape_str, replace_nonprinting};
use crate::number::{line_number_prefix, number_prefix};
use vstd::string::*;
use crate::text::push_char;

verus! {

/// What a character becomes when tabs are shown.
pub open spec fn tab_char(c: char) -> Seq<char> {
    if c == '\t' {
        seq!['^', 'I']
    } else {
        seq![c]
    }
}

/// Every tab of `s` replaced by `^I`.
pub open spec fn tabs_shown(s: Seq<char>) -> Seq<char>
    decreases s.len(),
{
    if s.len() == 0 {
        Seq::empty()
    } else {
        tabs_shown(s.drop_last()) + tab_char(s.last())
    }
}

/// `line` with every horizontal tab replaced by `^I`.
pub fn replace_tabs(line: &str) -> (r: String)
    ensures
        r@ == tabs_shown(line@),
{
    let mut out = String::new();
    for c in it: line.chars()
        invariant
            it.seq() == line@,
            out@ == tabs_shown(line@.take(it.index() as int)),
    {
        assert(line@.take(it.index() + 1).drop_last() == line@.take(it.index() as int));
        if c == '\t' {
            push_char(&mut out, '^');
            push_char(&mut out, 'I');
        } else {
            push_char(&mut out, c);
        }
    }
    assert(line@.take(line@.len() as int) == line@);
    out
}

/// The resolved display options.
#[derive(Clone, Copy, Debug, PartialEq, Eq, Structural)]
pub struct Config {
    /// Append `$` to every line.
    pub show_ends: bool,
    /// Number every line.
    pub show_line_numbers: bool,
    /// Number the non-blank lines only; wins over `show_line_numbers`.
    pub show_line_numbers_nonblank: bool,
    /// Show tabs as `^I`.
    pub show_tabs: bool,
    /// Never emit two blank lines in a row.
    pub squeeze_blank: bool,
    /// Show control characters other than tab and line feed in caret notation.
    pub show_nonprinting: bool,
}

impl Config {
    /// The configuration with every option off.
    pub fn plain() -> (c: Config)
        ensures
            !c.show_ends && !c.show_line_numbers && !c.show_line_numbers_nonblank
                && !c.show_tabs && !c.squeeze_blank && !c.show_nonprinting,
    {
        Config {
            show_ends: false,
            show_line_numbers: false,
            show_line_numbers_nonblank: false,
            show_tabs: false,
            squeeze_blank: false,
            show_nonprinting: false,
        }
    }
}

/// The command-line flags as given, before the composite ones are
/// expanded.
#[derive(Clone, Copy, Debug, PartialEq, Eq, Structural)]
pub struct CommandFlags {
    /// `-A`, `--show-all`: equivalent to `-vET`.
    pub show_all: bool,
    /// `-b`, `--number-nonblank`.
    pub number_nonblank: bool,
    /// `-e`: equivalent to `-vE`.
    pub ends_and_nonprinting: bool,
    /// `-E`, `--show-ends`.
    pub show_ends: bool,
    /// `-n`: number all lines.
    pub number: bool,
    /// `-s`, `--squeeze-blank`.
    pub squeeze_blank: bool,
    /// `-t`: equivalent to `-vT`.
    pub tabs_and_nonprinting: bool,
    /// `-T`, `--show-tabs`.
    pub show_tabs: bool,
    /// `-v`, `--show-nonprinting`.
    pub show_nonprinting: bool,
}

impl Config {
    /// Expands the composite flags into the options they stand for.
    pub fn from_flags(flags: &CommandFlags) -> (c: Config)
        ensures
            c.show_ends == (flags.show_ends || flags.ends_and_nonprinting || flags.show_all),
            c.show_line_numbers == flags.number,
            c.show_line_numbers_nonblank == flags.number_nonblank,
            c.show_tabs == (flags.show_tabs || flags.show_all || flags.tabs_and_nonprinting),
            c.squeeze_blank == flags.squeeze_blank,
            c.show_nonprinting == (flags.show_nonprinting || flags.show_all
                || flags.ends_and_nonprinting || flags.tabs_and_nonprinting),
    {
        Config {
            show_ends: flags.show_ends || flags.ends_and_nonprinting || flags.show_all,
            show_line_numbers: flags.number,
            show_line_numbers_nonblank: flags.number_nonblank,
            show_tabs: flags.show_tabs || flags.show_all || flags.tabs_and_nonprinting,
            squeeze_blank: flags.squeeze_blank,
            show_nonprinting: flags.show_nonprinting || flags.show_all || flags.ends_and_nonprinting
                || flags.tabs_and_nonprinting,
        }
    }
}

/// What is kept from one line to the next of a single input.
#[derive(Clone, Copy, Debug, PartialEq, Eq, Structural)]
pub struct FormatterState {
    /// The number the next numbered line gets.
    pub line_counter: u64,
    /// Whether the previous input line was empty.
    pub previous_line_was_blank: bool,
}

impl FormatterState {
    /// The state at the start of an input.
    pub fn new() -> (s: FormatterState)
        ensures
            s.line_counter == 1,
            !s.previous_line_was_blank,
    {
        FormatterState { line_counter: 1, previous_line_was_blank: false }
    }
}

/// A line is blank when it holds no character.
pub open spec fn is_blank(line: Seq<char>) -> bool {
    line.len() == 0
}

/// The line is dropped: squeezing is on and it follows a blank line.
pub open spec fn suppressed(cfg: Config, prev_blank: bool, line: Seq<char>) -> bool {
    cfg.squeeze_blank && prev_blank && is_blank(line)
}

/// The line gets a number.
pub open spec fn numbers(cfg: Config, line: Seq<char>) -> bool {
    if cfg.show_line_numbers_nonblank {
        !is_blank(line)
    } else {
        cfg.show_line_numbers
    }
}

/// The output for a line that is not suppressed: numbering, then `$`, then
/// tabs, then control characters, each on the result of the one before.
pub open spec fn transform(cfg: Config, counter: nat, line: Seq<char>) -> Seq<char> {
    let numbered = if numbers(cfg, line) {
        number_prefix(counter) + line
    } else {
        line
    };
    let ended = if cfg.show_ends {
        numbered.push('$')
    } else {
        numbered
    };
    let tabbed = if cfg.show_tabs {
        tabs_shown(ended)
    } else {
        ended
    };
    if cfg.show_nonprinting {
        escape_str(tabbed)
    } else {
        tabbed
    }
}

/// What `format_line` returns for `line`, given the counter and whether
/// the previous input line was blank.
pub open spec fn format_spec(cfg: Config, counter: nat, prev_blank: bool, line: Seq<char>) -> Option<
    Seq<char>,
> {
    if suppressed(cfg, prev_blank, line) {
        None
    } else {
        Some(transform(cfg, counter, line))
    }
}

/// The counter after `line`.
pub open spec fn next_counter(cfg: Config, counter: nat, prev_blank: bool, line: Seq<char>) -> nat {
    if !suppressed(cfg, prev_blank, line) && numbers(cfg, line) {
        counter + 1
    } else {
        counter
    }
}

/// Formats one input line (its terminator already removed), or returns
/// `None` where squeezing drops it, and advances the state.
pub fn format_line(
    raw_line: &str,
    config: &Config,
    lookup_table: &EscapeTable,
    state: &mut FormatterState,
) -> (r: Option<String>)
    requires
        lookup_table.wf(),
        old(state).line_counter < u64::MAX,
    ensures
        match format_spec(
            *config,
            old(state).line_counter as nat,
            old(state).previous_line_was_blank,
            raw_line@,
        ) {
            Some(out) => r is Some && r->Some_0@ == out,
            None => r is None,
        },
        final(state).line_counter as nat == next_counter(
            *config,
            old(state).line_counter as nat,
            old(state).previous_line_was_blank,
            raw_line@,
        ),
        final(state).previous_line_was_blank == is_blank(raw_line@),
{
    let blank = raw_line.is_empty();
    if config.squeeze_blank && state.previous_line_was_blank && blank {
        state.previous_line_was_blank = true;
        return None;
    }
    let number = if config.show_line_numbers_nonblank {
        !blank
    } else {
        config.show_line_numbers
    };
    let mut l = String::new();
    if number {
        let prefix = line_number_prefix(state.line_counter);
        l.append(prefix.as_str());
        state.line_counter = state.line_counter + 1;
    }
    l.append(raw_line);
    if config.show_ends {
        push_char(&mut l, '$');
    }
    if config.show_tabs {
        l = replace_tabs(l.as_str());
    }
    if config.show_nonprinting {
        l = replace_nonprinting(l.as_str(), lookup_table);
    }
    state.previous_line_was_blank = blank;
    Some(l)
}

} // verus!
