use crate::color::{palette_index, Color};
use vstd::prelude::*;

verus! {

/// The character of a decimal digit.
pub open spec fn digit_char(d: nat) -> char {
    if d == 0 {
        '0'
    } else if d == 1 {
        '1'
    } else if d == 2 {
        '2'
    } else if d == 3 {
        '3'
    } else if d == 4 {
        '4'
    } else if d == 5 {
        '5'
    } else if d == 6 {
        '6'
    } else if d == 7 {
        '7'
    } else if d == 8 {
        '8'
    } else {
        '9'
    }
}

/// The decimal notation of `n`, most significant digit first, with no leading zero.
pub open spec fn decimal(n: nat) -> Seq<char>
    decreases n,
{
    if n < 10 {
        seq![digit_char(n)]
    } else {
        decimal(n / 10) + seq![digit_char(n % 10)]
    }
}

/// Whether `needle` occurs as a contiguous run inside `hay`.
pub open spec fn contains(hay: Seq<char>, needle: Seq<char>) -> bool {
    exists|i: int|
        0 <= i && i + needle.len() <= hay.len() && #[trigger] hay.subrange(i, i + needle.len())
            == needle
}

/// Anything framed on both sides contains what it frames.
pub proof fn lemma_contains_framed(a: Seq<char>, b: Seq<char>, c: Seq<char>)
    ensures
        contains(a + b + c, b),
{
    let s = a + b + c;
    assert(s.subrange(a.len() as int, (a.len() + b.len()) as int) =~= b);
}

/// What occurs inside a part of a text occurs in the text.
pub proof fn lemma_contains_trans(hay: Seq<char>, mid: Seq<char>, needle: Seq<char>)
    requires
        contains(hay, mid),
        contains(mid, needle),
    ensures
        contains(hay, needle),
{
    let i = choose|i: int|
        0 <= i && i + mid.len() <= hay.len() && #[trigger] hay.subrange(i, i + mid.len()) == mid;
    let j = choose|j: int|
        0 <= j && j + needle.len() <= mid.len() && #[trigger] mid.subrange(j, j + needle.len())
            == needle;
    assert(hay.subrange(i + j, i + j + needle.len()) =~= mid.subrange(j, j + needle.len()));
}

fn digit_str(d: u64) -> (r: &'static str)
    requires
        d < 10,
    ensures
        r@ == seq![digit_char(d as nat)],
{
    proof {
        reveal_strlit("0");
        reveal_strlit("1");
        reveal_strlit("2");
        reveal_strlit("3");
        reveal_strlit("4");
        reveal_strlit("5");
        reveal_strlit("6");
        reveal_strlit("7");
        reveal_strlit("8");
        reveal_strlit("9");
    }
    match d {
        0 => "0",
        1 => "1",
        2 => "2",
        3 => "3",
        4 => "4",
        5 => "5",
        6 => "6",
        7 => "7",
        8 => "8",
        _ => "9",
    }
}

/// Renders `n` in decimal.
pub fn decimal_string(n: u64) -> (r: String)
    ensures
        r@ == decimal(n as nat),
    decreases n,
{
    if n < 10 {
        String::from_str(digit_str(n))
    } else {
        let mut s = decimal_string(n / 10);
        s.append(digit_str(n % 10));
        s
    }
}

/// The escape sequence that switches the foreground to `c`: a palette entry is selected by its
/// index, a named colour by its code 30 to 37.
pub open spec fn color_prefix(c: Color) -> Seq<char> {
    match c {
        Color::Color256(n) => "\x1b[38;5;"@ + decimal(n as nat) + "m"@,
        _ => "\x1b["@ + decimal((30 + palette_index(c)) as nat) + "m"@,
    }
}

/// The escape sequence that restores the default style.
pub open spec fn reset_code() -> Seq<char> {
    "\x1b[0m"@
}

/// Whether `r` is `text` shown in colour `c`: bare when the terminal takes no colour, or
/// between the colour's escape sequence and the reset sequence.
pub open spec fn styled(r: Seq<char>, text: Seq<char>, c: Color) -> bool {
    r == text || r == color_prefix(c) + text + reset_code()
}

/// A styled text contains the text it shows.
pub proof fn lemma_styled_contains(r: Seq<char>, text: Seq<char>, c: Color)
    requires
        styled(r, text, c),
    ensures
        contains(r, text),
{
    if r == text {
        lemma_contains_framed(Seq::empty(), text, Seq::empty());
        assert(Seq::<char>::empty() + text + Seq::<char>::empty() =~= text);
    } else {
        lemma_contains_framed(color_prefix(c), text, reset_code());
    }
}

/// Relies on console::style, StyledObject::fg and StyledObject's Display: with colours off for
/// stdout the text comes out bare, else as the foreground code, the text and the reset code.
#[verifier::external_body]
pub(crate) fn paint(text: String, color: Color) -> (r: String)
    ensures
        styled(r@, text@, color),
{
    let fg = match color {
        Color::Black => console::Color::Black,
        Color::Red => console::Color::Red,
        Color::Green => console::Color::Green,
        Color::Yellow => console::Color::Yellow,
        Color::Blue => console::Color::Blue,
        Color::Magenta => console::Color::Magenta,
        Color::Cyan => console::Color::Cyan,
        Color::White => console::Color::White,
        Color::Color256(n) => console::Color::Color256(n),
    };
    console::style(text).fg(fg).to_string()
}

} // verus!
