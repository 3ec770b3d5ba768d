//! Text for readers: the trait by which a value says what it shows, the line
//! break, and what strings, characters, truth values and numbers show.

use vstd::prelude::*;

verus! {

/// What a value shows to a reader: the characters that stand for it in a
/// message.
pub trait Render {
    /// The characters that [`Render::render`] produces.
    spec fn text(&self) -> Seq<char>;

    /// Renders the value.
    fn render(&self) -> (out: String)
        ensures
            out@ == self.text(),
    ;
}

/// The line break that ends every rendered line.
pub open spec fn newline() -> Seq<char> {
    seq!['\n']
}

/// Ends the line that `out` holds so far.
pub(crate) fn end_line(out: &mut String)
    ensures
        final(out)@ == old(out)@ + newline(),
{
    proof {
        reveal_strlit("\n");
    }
    out.append("\n");
}

/// The character of one decimal digit.
pub open spec fn digit(d: int) -> char {
    if d == 0 {
        '0'
    } else if d == 1 {
        '1'
    } else if d == 2 {
        '2'
    } else if d == 3 {
        '3'
    } else if d == 4 {
        '4'
    } else if d == 5 {
        '5'
    } else if d == 6 {
        '6'
    } else if d == 7 {
        '7'
    } else if d == 8 {
        '8'
    } else {
        '9'
    }
}

/// A natural number in decimal, without leading zeros.
pub open spec fn decimal(n: nat) -> Seq<char>
    decreases n,
{
    if n < 10 {
        seq![digit(n as int)]
    } else {
        decimal(n / 10).push(digit((n % 10) as int))
    }
}

/// An integer in decimal, with a minus sign in front of a negative one.
pub open spec fn signed_decimal(n: int) -> Seq<char> {
    if n < 0 {
        seq!['-'] + decimal((-n) as nat)
    } else {
        decimal(n as nat)
    }
}

fn digit_str(d: u128) -> (s: &'static str)
    requires
        d < 10,
    ensures
        s@ == seq![digit(d as int)],
{
    proof {
        reveal_strlit("0");
        reveal_strlit("1");
        reveal_strlit("2");
        reveal_strlit("3");
        reveal_strlit("4");
        reveal_strlit("5");
        reveal_strlit("6");
        reveal_strlit("7");
        reveal_strlit("8");
        reveal_strlit("9");
    }
    if d == 0 {
        "0"
    } else if d == 1 {
        "1"
    } else if d == 2 {
        "2"
    } else if d == 3 {
        "3"
    } else if d == 4 {
        "4"
    } else if d == 5 {
        "5"
    } else if d == 6 {
        "6"
    } else if d == 7 {
        "7"
    } else if d == 8 {
        "8"
    } else {
        "9"
    }
}

/// Writes a natural number in decimal.
pub(crate) fn render_decimal(n: u128) -> (out: String)
    ensures
        out@ == decimal(n as nat),
    decreases n,
{
    if n < 10 {
        String::from_str(digit_str(n))
    } else {
        let mut out = render_decimal(n / 10);
        out.append(digit_str(n % 10));
        out
    }
}

/// Writes an integer in decimal.
pub(crate) fn render_signed(n: i128) -> (out: String)
    ensures
        out@ == signed_decimal(n as int),
{
    if n < 0 {
        let magnitude: u128 = if n == i128::MIN {
            170141183460469231731687303715884105728u128
        } else {
            (-n) as u128
        };
        let digits = render_decimal(magnitude);
        proof {
            reveal_strlit("-");
        }
        let mut out = String::from_str("-");
        out.append(digits.as_str());
        out
    } else {
        render_decimal(n as u128)
    }
}

/// `String::push`: appends the character to the end of the string.
#[verifier::external_body]
fn push_char(out: &mut String, c: char)
    ensures
        final(out)@ == old(out)@.push(c),
{
    out.push(c);
}

impl<'a> Render for &'a str {
    open spec fn text(&self) -> Seq<char> {
        (*self)@
    }

    fn render(&self) -> (out: String) {
        String::from_str(*self)
    }
}

impl Render for String {
    open spec fn text(&self) -> Seq<char> {
        self@
    }

    fn render(&self) -> (out: String) {
        self.clone()
    }
}

impl Render for char {
    open spec fn text(&self) -> Seq<char> {
        seq![*self]
    }

    fn render(&self) -> (out: String) {
        let mut out = String::new();
        push_char(&mut out, *self);
        out
    }
}

/// The word that shows a truth value.
pub open spec fn truth(b: bool) -> Seq<char> {
    if b {
        seq!['t', 'r', 'u', 'e']
    } else {
        seq!['f', 'a', 'l', 's', 'e']
    }
}

impl Render for bool {
    open spec fn text(&self) -> Seq<char> {
        truth(*self)
    }

    fn render(&self) -> (out: String) {
        proof {
            reveal_strlit("true");
            reveal_strlit("false");
        }
        if *self {
            String::from_str("true")
        } else {
            String::from_str("false")
        }
    }
}

impl Render for u8 {
    open spec fn text(&self) -> Seq<char> {
        decimal(*self as nat)
    }

    fn render(&self) -> (out: String) {
        render_decimal(*self as u128)
    }
}

impl Render for u16 {
    open spec fn text(&self) -> Seq<char> {
        decimal(*self as nat)
    }

    fn render(&self) -> (out: String) {
        render_decimal(*self as u128)
    }
}

impl Render for u32 {
    open spec fn text(&self) -> Seq<char> {
        decimal(*self as nat)
    }

    fn render(&self) -> (out: String) {
        render_decimal(*self as u128)
    }
}

impl Render for u64 {
    open spec fn text(&self) -> Seq<char> {
        decimal(*self as nat)
    }

    fn render(&self) -> (out: String) {
        render_decimal(*self as u128)
    }
}

impl Render for u128 {
    open spec fn text(&self) -> Seq<char> {
        decimal(*self as nat)
    }

    fn render(&self) -> (out: String) {
        render_decimal(*self)
    }
}

impl Render for usize {
    open spec fn text(&self) -> Seq<char> {
        decimal(*self as nat)
    }

    fn render(&self) -> (out: String) {
        render_decimal(*self as u128)
    }
}

impl Render for i8 {
    open spec fn text(&self) -> Seq<char> {
        signed_decimal(*self as int)
    }

    fn render(&self) -> (out: String) {
        render_signed(*self as i128)
    }
}

impl Render for i16 {
    open spec fn text(&self) -> Seq<char> {
        signed_decimal(*self as int)
    }

    fn render(&self) -> (out: String) {
        render_signed(*self as i128)
    }
}

impl Render for i32 {
    open spec fn text(&self) -> Seq<char> {
        signed_decimal(*self as int)
    }

    fn render(&self) -> (out: String) {
        render_signed(*self as i128)
    }
}

impl Render for i64 {
    open spec fn text(&self) -> Seq<char> {
        signed_decimal(*self as int)
    }

    fn render(&self) -> (out: String) {
        render_signed(*self as i128)
    }
}

impl Render for i128 {
    open spec fn text(&self) -> Seq<char> {
        signed_decimal(*self as int)
    }

    fn render(&self) -> (out: String) {
        render_signed(*self)
    }
}

impl Render for isize {
    open spec fn text(&self) -> Seq<char> {
        signed_decimal(*self as int)
    }

    fn render(&self) -> (out: String) {
        render_signed(*self as i128)
    }
}

} // verus!
