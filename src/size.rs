use vstd::prelude::*;
use vstd::string::*;

use crate::text::{decimal, digit_char, push_decimal, push_digit, push_signed_decimal, signed_decimal};

verus! {

/// Bytes in one kilobyte (KiB).
pub const KIB: usize = 1024;

/// Bytes in one megabyte (MiB).
pub const MIB: usize = 1048576;

/// A byte count in one of three display units.
///
/// The two fractional tiers keep the exact byte count they were made from, so
/// the magnitude (`bytes / 1024` or `bytes / 1048576`) is held at full
/// precision and rounded only when rendered.
#[derive(Clone, Copy, Debug, PartialEq, Eq, Structural)]
pub enum DisplaySize {
    /// A whole number of bytes; `-1` stands for a size that is unknown.
    Bytes(isize),
    /// `bytes / 1024` kilobytes.
    Kilobytes { bytes: usize },
    /// `bytes / 1048576` megabytes.
    Megabytes { bytes: usize },
}

/// The size that stands for an entry whose size could not be read.
pub open spec fn unreadable_size() -> DisplaySize {
    DisplaySize::Bytes(-1isize)
}

/// The tier that a byte count falls in. The three tiers leave gaps at
/// exactly 1024, 1048575 and 1048576 bytes; those counts get the unknown size.
pub open spec fn size_tier(n: nat) -> DisplaySize {
    if n < 1024 {
        DisplaySize::Bytes(n as isize)
    } else if 1024 < n < 1048575 {
        DisplaySize::Kilobytes { bytes: n as usize }
    } else if n > 1048576 {
        DisplaySize::Megabytes { bytes: n as usize }
    } else {
        unreadable_size()
    }
}

impl DisplaySize {
    /// The number that the magnitude is a multiple of one unit of.
    pub open spec fn numerator(self) -> int {
        match self {
            DisplaySize::Bytes(b) => b as int,
            DisplaySize::Kilobytes { bytes } => bytes as int,
            DisplaySize::Megabytes { bytes } => bytes as int,
        }
    }

    /// Bytes in one unit of this tier: the magnitude is
    /// `numerator() / unit_bytes()`.
    pub open spec fn unit_bytes(self) -> int {
        match self {
            DisplaySize::Bytes(_) => 1,
            DisplaySize::Kilobytes { .. } => 1024,
            DisplaySize::Megabytes { .. } => 1048576,
        }
    }
}

/// `num / unit` in hundredths, rounded to the nearest one; a tie goes to the
/// even neighbour.
pub open spec fn rounded_hundredths(num: nat, unit: nat) -> nat
    recommends
        unit > 0,
{
    let q = num * 100 / unit;
    let rem = num * 100 % unit;
    if 2 * rem > unit || (2 * rem == unit && q % 2 == 1) {
        q + 1
    } else {
        q
    }
}

/// A count of hundredths written with two decimal places, as in `12.05`.
pub open spec fn fixed_two(h: nat) -> Seq<char> {
    decimal(h / 100) + seq!['.', digit_char((h % 100) / 10), digit_char((h % 100) % 10)]
}

impl DisplaySize {
    /// The text of a size: a whole count of bytes as `500 B` (`-1 B` when
    /// unknown), a fractional magnitude to two decimals as `1.50 KB` or
    /// `3.25 MB`.
    pub open spec fn rendered(self) -> Seq<char> {
        match self {
            DisplaySize::Bytes(b) => signed_decimal(b as int) + seq![' ', 'B'],
            DisplaySize::Kilobytes { bytes } => fixed_two(rounded_hundredths(bytes as nat, 1024))
                + seq![' ', 'K', 'B'],
            DisplaySize::Megabytes { bytes } => fixed_two(
                rounded_hundredths(bytes as nat, 1048576),
            ) + seq![' ', 'M', 'B'],
        }
    }

    /// Renders the size as text.
    pub fn render(&self) -> (r: String)
        ensures
            r@ == self.rendered(),
    {
        let mut out = String::new();
        match *self {
            DisplaySize::Bytes(b) => {
                push_signed_decimal(&mut out, b as i128);
                out.append(" B");
                proof {
                    reveal_strlit(" B");
                }
            },
            DisplaySize::Kilobytes { bytes } => {
                push_fixed_two(&mut out, round_hundredths(bytes as u128, 1024));
                out.append(" KB");
                proof {
                    reveal_strlit(" KB");
                }
            },
            DisplaySize::Megabytes { bytes } => {
                push_fixed_two(&mut out, round_hundredths(bytes as u128, 1048576));
                out.append(" MB");
                proof {
                    reveal_strlit(" MB");
                }
            },
        }
        assert(out@ =~= self.rendered());
        out
    }
}

/// Computes `rounded_hundredths(num, unit)`.
fn round_hundredths(num: u128, unit: u128) -> (h: u128)
    requires
        num <= usize::MAX,
        0 < unit <= 1048576,
    ensures
        h == rounded_hundredths(num as nat, unit as nat),
{
    let scaled = num * 100;
    let q = scaled / unit;
    let rem = scaled % unit;
    if 2 * rem > unit || (2 * rem == unit && q % 2 == 1) {
        q + 1
    } else {
        q
    }
}

/// Appends `fixed_two(h)` to `out`.
fn push_fixed_two(out: &mut String, h: u128)
    ensures
        final(out)@ == old(out)@ + fixed_two(h as nat),
{
    push_decimal(out, h / 100);
    out.append(".");
    proof {
        reveal_strlit(".");
    }
    let frac = h % 100;
    push_digit(out, frac / 10);
    push_digit(out, frac % 10);
    assert(final(out)@ =~= old(out)@ + fixed_two(h as nat));
}

impl Default for DisplaySize {
    fn default() -> (r: DisplaySize)
        ensures
            r == DisplaySize::Bytes(0),
    {
        DisplaySize::Bytes(0)
    }
}

/// Converts a byte count into its display tier.
pub fn get_file_size(sz: usize) -> (r: DisplaySize)
    ensures
        r == size_tier(sz as nat),
        sz < 1024 ==> r == DisplaySize::Bytes(sz as isize),
        1024 < sz < 1048575 ==> r is Kilobytes && r.numerator() == sz && r.unit_bytes() == 1024,
        sz > 1048576 ==> r is Megabytes && r.numerator() == sz && r.unit_bytes() == 1048576,
        sz == 1024 || sz == 1048575 || sz == 1048576 ==> r == unreadable_size(),
{
    if sz < KIB {
        DisplaySize::Bytes(sz as isize)
    } else if sz > KIB && sz < MIB - 1 {
        DisplaySize::Kilobytes { bytes: sz }
    } else if sz > MIB {
        DisplaySize::Megabytes { bytes: sz }
    } else {
        DisplaySize::Bytes(-1isize)
    }
}

} // verus!
