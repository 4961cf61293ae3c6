use vstd::prelude::*;

verus! {

/// The terminal colours that names are shown in.
#[derive(Clone, Copy, Debug, PartialEq, Eq, Structural)]
pub enum Tint {
    Red,
    Cyan,
}

/// The SGR foreground code of a colour.
pub open spec fn foreground_code(t: Tint) -> Seq<char> {
    match t {
        Tint::Red => seq!['3', '1'],
        Tint::Cyan => seq!['3', '6'],
    }
}

/// `s` between the escape sequence that selects the colour `t` and the one
/// that resets all styles.
pub open spec fn painted(t: Tint, s: Seq<char>) -> Seq<char> {
    seq!['\u{1b}', '['] + foreground_code(t) + seq!['m'] + s + seq!['\u{1b}', '[', '0', 'm']
}

/// Relies on `ansi_term::Colour::paint` and the `Display` impl of the painted
/// string: a colour with no other style writes `ESC [ <code> m`, the text,
/// then `ESC [ 0 m`.
#[verifier::external_body]
pub(crate) fn paint(t: Tint, s: &str) -> (r: String)
    ensures
        r@ == painted(t, s@),
{
    let colour = match t {
        Tint::Red => ansi_term::Colour::Red,
        Tint::Cyan => ansi_term::Colour::Cyan,
    };
    format!("{}", colour.paint(s))
}

} // verus!
