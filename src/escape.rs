//! The escape table: caret notation for the control characters
//! 0x00 to 0x08, 0x0B to 0x1F and 0x7F.
use std::collections::HashMap;
use vstd::prelude::*;
use vstd::string::*;
use crate::text::push_char;

verus! {

broadcast use vstd::std_specs::hash::group_hash_axioms;

/// The character shown after `^` for the control character with the given
/// code, if it has one. Tab (9) and line feed (10) have none: they are left
/// to their own options. For 0x00 to 0x1F the symbol's code is the control
/// code plus 64 (`^@`, `^A`, ..., `^_`); DEL (0x7F) is shown as `^?`.
pub open spec fn caret_symbol(code: u32) -> Option<char> {
    if code < 32 && code != 9 && code != 10 {
        Some(((code + 64) as u8) as char)
    } else if code == 127 {
        Some('?')
    } else {
        None
    }
}

/// The replacement of `c` in caret notation, if `c` is in the table.
pub open spec fn escape_spec(c: char) -> Option<Seq<char>> {
    match caret_symbol(c as u32) {
        Some(s) => Some(seq!['^', s]),
        None => None,
    }
}

/// What `c` becomes when non-printing characters are shown.
pub open spec fn escape_char(c: char) -> Seq<char> {
    match escape_spec(c) {
        Some(e) => e,
        None => seq![c],
    }
}

/// Every character of `s` replaced by `escape_char`, in order.
pub open spec fn escape_str(s: Seq<char>) -> Seq<char>
    decreases s.len(),
{
    if s.len() == 0 {
        Seq::empty()
    } else {
        escape_str(s.drop_last()) + escape_char(s.last())
    }
}

/// The fixed mapping from control-character codes to caret symbols.
pub struct EscapeTable {
    map: HashMap<u32, char>,
}

impl EscapeTable {
    /// The table holds exactly the codes that have a caret symbol, each
    /// mapped to that symbol.
    pub closed spec fn wf(&self) -> bool {
        forall|k: u32|
            #![trigger self.map@.contains_key(k)]
            #![trigger caret_symbol(k)]
            (self.map@.contains_key(k) <==> caret_symbol(k) is Some) && (self.map@.contains_key(k)
                ==> Some(self.map@[k]) == caret_symbol(k))
    }

    /// The caret-notation replacement of `c`, or `None` for a character
    /// that is shown as it is.
    pub fn lookup(&self, c: char) -> (r: Option<String>)
        requires
            self.wf(),
        ensures
            match escape_spec(c) {
                Some(e) => r is Some && r->Some_0@ == e,
                None => r is None,
            },
    {
        let code = c as u32;
        match self.map.get(&code) {
            Some(sym) => {
                let mut out = String::new();
                push_char(&mut out, '^');
                push_char(&mut out, *sym);
                Some(out)
            },
            None => None,
        }
    }
}

/// Builds the escape table: the 31 control characters 0x00 to 0x08,
/// 0x0B to 0x1F and 0x7F, each mapped to its caret notation.
pub fn escape_char_lookup_table() -> (t: EscapeTable)
    ensures
        t.wf(),
{
    let mut map: HashMap<u32, char> = HashMap::new();
    let mut code: u8 = 0;
    while code < 32
        invariant
            code <= 32,
            forall|k: u32|
                #![trigger map@.contains_key(k)]
                (map@.contains_key(k) <==> (k < code && caret_symbol(k) is Some)) && (
                map@.contains_key(k) ==> Some(map@[k]) == caret_symbol(k)),
        decreases 32 - code,
    {
        if code != 9 && code != 10 {
            map.insert(code as u32, (code + 64) as char);
        }
        code = code + 1;
    }
    map.insert(127, '?');
    let t = EscapeTable { map };
    assert forall|k: u32| #![trigger caret_symbol(k)] caret_symbol(k) is Some implies t.map@.contains_key(k) by {
        assert(k < 32 || k == 127);
    }
    t
}

/// `line` with every character of the escape table replaced by its caret
/// notation; all other characters, tab and `$` among them, are kept.
pub fn replace_nonprinting(line: &str, lookup_table: &EscapeTable) -> (r: String)
    requires
        lookup_table.wf(),
    ensures
        r@ == escape_str(line@),
{
    let mut out = String::new();
    for c in it: line.chars()
        invariant
            lookup_table.wf(),
            it.seq() == line@,
            out@ == escape_str(line@.take(it.index() as int)),
    {
        assert(line@.take(it.index() + 1).drop_last() == line@.take(it.index() as int));
        match lookup_table.lookup(c) {
            Some(e) => out.append(e.as_str()),
            None => push_char(&mut out, c),
        }
    }
    assert(line@.take(line@.len() as int) == line@);
    out
}

} // verus!
