//! The line-number prefix: the counter in decimal, right-justified in a
//! field of five, then two spaces.
use vstd::prelude::*;
use vstd::string::*;
use crate::text::push_char;

verus! {

/// The decimal digit character for `d < 10`.
pub open spec fn digit_char(d: nat) -> char {
    ((d + 48) as u8) as char
}

/// The decimal notation of `n`, without leading zeros.
pub open spec fn decimal(n: nat) -> Seq<char>
    decreases n,
{
    if n < 10 {
        seq![digit_char(n)]
    } else {
        decimal(n / 10).push(digit_char(n % 10))
    }
}

/// `s` with spaces in front, up to `width` characters in all.
pub open spec fn pad_left(s: Seq<char>, width: nat) -> Seq<char> {
    if s.len() >= width {
        s
    } else {
        Seq::new((width - s.len()) as nat, |i: int| ' ') + s
    }
}

/// The prefix put before a numbered line.
pub open spec fn number_prefix(n: nat) -> Seq<char> {
    pad_left(decimal(n), 5) + seq![' ', ' ']
}

/// Appends the decimal notation of `n` to `out`.
fn push_decimal(out: &mut String, n: u64)
    ensures
        final(out)@ == old(out)@ + decimal(n as nat),
    decreases n,
{
    if n >= 10 {
        push_decimal(out, n / 10);
    }
    let d: u8 = (n % 10) as u8;
    push_char(out, (d + 48) as char);
}

/// The prefix for line number `n`.
pub fn line_number_prefix(n: u64) -> (r: String)
    ensures
        r@ == number_prefix(n as nat),
{
    let mut digits = String::new();
    push_decimal(&mut digits, n);
    let len = digits.as_str().unicode_len();
    let mut out = String::new();
    let mut i: usize = len;
    while i < 5
        invariant
            len == decimal(n as nat).len(),
            len <= i,
            i <= 5 || i == len,
            out@ == Seq::new((i - len) as nat, |k: int| ' '),
        decreases 5 - i,
    {
        push_char(&mut out, ' ');
        i = i + 1;
        assert(out@ =~= Seq::new((i - len) as nat, |k: int| ' '));
    }
    out.append(digits.as_str());
    push_char(&mut out, ' ');
    push_char(&mut out, ' ');
    assert(out@ =~= number_prefix(n as nat));
    out
}

} // verus!
