//! Decimal numbers and fixed-width columns, as text.

use vstd::prelude::*;

verus! {

/// The character that shows the decimal digit `d`.
pub open spec fn digit(d: nat) -> char
    recommends
        d < 10,
{
    (('0' as u8) + d) as char
}

/// The decimal numeral of `n`: no sign, and no leading zero but for zero
/// itself.
pub open spec fn decimal(n: nat) -> Seq<char>
    decreases n,
{
    if n < 10 {
        seq![digit(n)]
    } else {
        decimal(n / 10).push(digit(n % 10))
    }
}

/// `count` copies of the character `c`.
pub open spec fn repeated(c: char, count: nat) -> Seq<char> {
    Seq::new(count, |i: int| c)
}

/// `s` at the right edge of a column of `width` characters, the room before
/// it taken by copies of `c`. A text wider than the column is kept whole.
pub open spec fn right_aligned(s: Seq<char>, width: nat, c: char) -> Seq<char> {
    if s.len() >= width {
        s
    } else {
        repeated(c, (width - s.len()) as nat) + s
    }
}

/// What takes the room that a column leaves free.
#[derive(Clone, Copy, Debug, PartialEq, Eq, Structural)]
pub enum Fill {
    /// The digit zero.
    Zero,
    /// The space.
    Space,
}

impl Fill {
    /// The character that fills the room.
    pub open spec fn glyph(self) -> char {
        match self {
            Fill::Zero => '0',
            Fill::Space => ' ',
        }
    }

    /// The character that fills the room, as a text of its own.
    fn text(self) -> (text: &'static str)
        ensures
            text@ == seq![self.glyph()],
    {
        proof {
            reveal_strlit("0");
            reveal_strlit(" ");
        }
        let text = match self {
            Fill::Zero => "0",
            Fill::Space => " ",
        };
        assert(text@ =~= seq![self.glyph()]);
        text
    }
}

/// Ten to the power `k`.
spec fn pow10(k: nat) -> nat
    decreases k,
{
    if k == 0 {
        1
    } else {
        10 * pow10((k - 1) as nat)
    }
}

/// A number below the `k`-th power of ten has at most `k` digits.
proof fn lemma_decimal_len_below_power(n: nat, k: nat)
    requires
        k >= 1,
        n < pow10(k),
    ensures
        decimal(n).len() <= k,
    decreases k,
{
    if n >= 10 {
        assert(k >= 2) by {
            reveal_with_fuel(pow10, 2);
        }
        assert(n / 10 < pow10((k - 1) as nat)) by {
            reveal_with_fuel(pow10, 1);
        }
        lemma_decimal_len_below_power(n / 10, (k - 1) as nat);
    }
}

/// A numeral has at least one digit, and that of a number of 64 bits has at
/// most twenty.
pub proof fn lemma_decimal_len(n: nat)
    ensures
        decimal(n).len() >= 1,
        n <= u64::MAX ==> decimal(n).len() <= 20,
{
    if n <= u64::MAX {
        assert(pow10(20) > u64::MAX) by {
            reveal_with_fuel(pow10, 21);
        }
        lemma_decimal_len_below_power(n, 20);
    }
}

/// The text of one decimal digit.
fn digit_text(d: usize) -> (text: &'static str)
    requires
        d < 10,
    ensures
        text@ == seq![digit(d as nat)],
{
    proof {
        reveal_strlit("0");
        reveal_strlit("1");
        reveal_strlit("2");
        reveal_strlit("3");
        reveal_strlit("4");
        reveal_strlit("5");
        reveal_strlit("6");
        reveal_strlit("7");
        reveal_strlit("8");
        reveal_strlit("9");
    }
    let text = match d {
        0 => "0",
        1 => "1",
        2 => "2",
        3 => "3",
        4 => "4",
        5 => "5",
        6 => "6",
        7 => "7",
        8 => "8",
        _ => "9",
    };
    assert(text@ =~= seq![digit(d as nat)]);
    text
}

/// How many digits the decimal numeral of `n` has.
pub fn decimal_width(n: usize) -> (width: usize)
    ensures
        width == decimal(n as nat).len(),
{
    proof {
        lemma_decimal_len(n as nat);
    }
    let mut rest: usize = n;
    let mut width: usize = 1;
    while rest >= 10
        invariant
            width + decimal(rest as nat).len() == decimal(n as nat).len() + 1,
            decimal(n as nat).len() <= 20,
        decreases rest,
    {
        rest = rest / 10;
        width = width + 1;
    }
    width
}

/// Appends the decimal numeral of `n` to `out`.
pub fn push_decimal(out: &mut String, n: usize)
    ensures
        final(out)@ == old(out)@ + decimal(n as nat),
    decreases n,
{
    if n >= 10 {
        push_decimal(out, n / 10);
    }
    out.append(digit_text(n % 10));
    assert(out@ =~= old(out)@ + decimal(n as nat));
}

/// Appends `count` copies of the character of `fill` to `out`.
pub fn push_fill(out: &mut String, fill: Fill, count: usize)
    ensures
        final(out)@ == old(out)@ + repeated(fill.glyph(), count as nat),
{
    let mut done: usize = 0;
    while done < count
        invariant
            done <= count,
            out@ == old(out)@ + repeated(fill.glyph(), done as nat),
        decreases count - done,
    {
        out.append(fill.text());
        done = done + 1;
        assert(out@ =~= old(out)@ + repeated(fill.glyph(), done as nat));
    }
}

/// Appends the decimal numeral of `n` to `out`, at the right edge of a column
/// of `width` characters; `fill` takes the room before it.
pub fn push_decimal_column(out: &mut String, n: usize, width: usize, fill: Fill)
    ensures
        final(out)@ == old(out)@ + right_aligned(decimal(n as nat), width as nat, fill.glyph()),
{
    let digits = decimal_width(n);
    if digits < width {
        push_fill(out, fill, width - digits);
    }
    push_decimal(out, n);
    assert(out@ =~= old(out)@ + right_aligned(decimal(n as nat), width as nat, fill.glyph()));
}

} // verus!
