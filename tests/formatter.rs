use mycat::escape::escape_char_lookup_table;
use mycat::format::{format_line, replace_tabs, CommandFlags, Config, FormatterState};
use mycat::number::line_number_prefix;
use mycat::source::{format_source, format_sources};

fn no_flags() -> CommandFlags {
    CommandFlags {
        show_all: false,
        number_nonblank: false,
        ends_and_nonprinting: false,
        show_ends: false,
        number: false,
        squeeze_blank: false,
        tabs_and_nonprinting: false,
        show_tabs: false,
        show_nonprinting: false,
    }
}

fn lines(v: &[&str]) -> Vec<String> {
    v.iter().map(|s| s.to_string()).collect()
}

#[test]
fn number_prefix_is_right_justified() {
    assert_eq!(line_number_prefix(1), "    1  ");
    assert_eq!(line_number_prefix(42), "   42  ");
    assert_eq!(line_number_prefix(12345), "12345  ");
    assert_eq!(line_number_prefix(1234567), "1234567  ");
    assert_eq!(line_number_prefix(0), "    0  ");
}

#[test]
fn tabs_are_replaced() {
    assert_eq!(replace_tabs("a\tb\t"), "a^Ib^I");
    assert_eq!(replace_tabs("none"), "none");
}

#[test]
fn plain_config_leaves_lines_unchanged() {
    let t = escape_char_lookup_table();
    let c = Config::plain();
    let mut s = FormatterState::new();
    for l in ["", "a\tb", "\x07x", "  ", "$^"] {
        assert_eq!(format_line(l, &c, &t, &mut s), Some(l.to_string()));
    }
    assert_eq!(s.line_counter, 1);
}

#[test]
fn numbering_counts_up_from_one() {
    let t = escape_char_lookup_table();
    let mut c = Config::plain();
    c.show_line_numbers = true;
    let out = format_source(&lines(&["a", "", "b", "\tc"]), &c, &t);
    assert_eq!(out, lines(&["    1  a", "    2  ", "    3  b", "    4  \tc"]));
}

#[test]
fn nonblank_numbering_skips_blank_lines() {
    let t = escape_char_lookup_table();
    let mut c = Config::plain();
    c.show_line_numbers_nonblank = true;
    let out = format_source(&lines(&["a", "", "b"]), &c, &t);
    assert_eq!(out, lines(&["    1  a", "", "    2  b"]));
}

#[test]
fn nonblank_numbering_wins_over_numbering() {
    let t = escape_char_lookup_table();
    let mut c = Config::plain();
    c.show_line_numbers = true;
    c.show_line_numbers_nonblank = true;
    let out = format_source(&lines(&["a", "", "b"]), &c, &t);
    assert_eq!(out, lines(&["    1  a", "", "    2  b"]));
}

#[test]
fn squeeze_collapses_blank_runs() {
    let t = escape_char_lookup_table();
    let mut c = Config::plain();
    c.squeeze_blank = true;
    let out = format_source(&lines(&["", "", "", "a", "", "b", "", ""]), &c, &t);
    assert_eq!(out, lines(&["", "a", "", "b", ""]));
}

#[test]
fn squeeze_with_numbering_does_not_count_dropped_lines() {
    let t = escape_char_lookup_table();
    let mut c = Config::plain();
    c.squeeze_blank = true;
    c.show_line_numbers = true;
    let out = format_source(&lines(&["a", "", "", "b"]), &c, &t);
    assert_eq!(out, lines(&["    1  a", "    2  ", "    3  b"]));
}

#[test]
fn squeeze_updates_state() {
    let t = escape_char_lookup_table();
    let mut c = Config::plain();
    c.squeeze_blank = true;
    let mut s = FormatterState::new();
    assert_eq!(format_line("", &c, &t, &mut s), Some(String::new()));
    assert!(s.previous_line_was_blank);
    assert_eq!(format_line("", &c, &t, &mut s), None);
    assert!(s.previous_line_was_blank);
    assert_eq!(format_line("x", &c, &t, &mut s), Some("x".to_string()));
    assert!(!s.previous_line_was_blank);
}

#[test]
fn end_mark_after_tab_display() {
    let t = escape_char_lookup_table();
    let mut c = Config::plain();
    c.show_ends = true;
    c.show_tabs = true;
    let mut s = FormatterState::new();
    assert_eq!(format_line("a\tb", &c, &t, &mut s), Some("a^Ib$".to_string()));
}

#[test]
fn nonprinting_keeps_tab_unless_shown() {
    let t = escape_char_lookup_table();
    let mut c = Config::plain();
    c.show_nonprinting = true;
    let mut s = FormatterState::new();
    assert_eq!(format_line("a\t\x07", &c, &t, &mut s), Some("a\t^G".to_string()));
    c.show_tabs = true;
    assert_eq!(format_line("a\t\x07", &c, &t, &mut s), Some("a^I^G".to_string()));
}

#[test]
fn show_all_expands_to_ends_tabs_nonprinting() {
    let t = escape_char_lookup_table();
    let mut f = no_flags();
    f.show_all = true;
    let c = Config::from_flags(&f);
    assert!(c.show_ends && c.show_tabs && c.show_nonprinting);
    assert!(!c.show_line_numbers && !c.show_line_numbers_nonblank && !c.squeeze_blank);
    let mut s = FormatterState::new();
    assert_eq!(format_line("x\ty", &c, &t, &mut s), Some("x^Iy$".to_string()));
    assert_eq!(format_line("\x01\t\x7f", &c, &t, &mut s), Some("^A^I^?$".to_string()));
}

#[test]
fn legacy_aliases_expand() {
    let mut f = no_flags();
    f.ends_and_nonprinting = true;
    let c = Config::from_flags(&f);
    assert!(c.show_ends && !c.show_tabs && c.show_nonprinting);
    let mut f = no_flags();
    f.tabs_and_nonprinting = true;
    let c = Config::from_flags(&f);
    assert!(!c.show_ends && c.show_tabs && c.show_nonprinting);
    let mut f = no_flags();
    f.number = true;
    f.number_nonblank = true;
    f.squeeze_blank = true;
    let c = Config::from_flags(&f);
    assert!(c.show_line_numbers && c.show_line_numbers_nonblank && c.squeeze_blank);
    assert!(!c.show_ends && !c.show_tabs && !c.show_nonprinting);
    assert_eq!(Config::from_flags(&no_flags()), Config::plain());
}

#[test]
fn all_steps_in_order() {
    let t = escape_char_lookup_table();
    let c = Config {
        show_ends: true,
        show_line_numbers: true,
        show_line_numbers_nonblank: false,
        show_tabs: true,
        squeeze_blank: true,
        show_nonprinting: true,
    };
    let out = format_source(&lines(&["\x1b[0m\tz", "", "", "end"]), &c, &t);
    assert_eq!(out, lines(&["    1  ^[[0m^Iz$", "    2  $", "    3  end$"]));
}

#[test]
fn each_source_numbers_from_one() {
    let t = escape_char_lookup_table();
    let mut c = Config::plain();
    c.show_line_numbers = true;
    let srcs = vec![lines(&["a", "b"]), lines(&["c"]), lines(&[])];
    let out = format_sources(&srcs, &c, &t);
    assert_eq!(out, lines(&["    1  a", "    2  b", "    1  c"]));
}

#[test]
fn squeeze_state_does_not_cross_sources() {
    let t = escape_char_lookup_table();
    let mut c = Config::plain();
    c.squeeze_blank = true;
    let srcs = vec![lines(&["a", ""]), lines(&["", "b"])];
    let out = format_sources(&srcs, &c, &t);
    assert_eq!(out, lines(&["a", "", "", "b"]));
}

#[test]
fn counter_advances_in_state() {
    let t = escape_char_lookup_table();
    let mut c = Config::plain();
    c.show_line_numbers = true;
    let mut s = FormatterState::new();
    s.line_counter = 99999;
    assert_eq!(format_line("x", &c, &t, &mut s), Some("99999  x".to_string()));
    assert_eq!(format_line("y", &c, &t, &mut s), Some("100000  y".to_string()));
    assert_eq!(s.line_counter, 100001);
}
