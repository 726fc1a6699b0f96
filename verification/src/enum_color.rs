//! The colour enum that the C side passes by value, and its Rust mirror.
use vstd::prelude::*;

verus! {

/// The colour as the C side declares it (`RED = 0`, `GREEN = 1`, `BLUE = 2`).
#[derive(PartialEq, Eq, Structural, Debug, Clone, Copy)]
pub enum EColor {
    RED,
    GREEN,
    BLUE,
}

/// The colour as Rust code uses it.
#[derive(PartialEq, Eq, Structural, Debug, Clone, Copy)]
pub enum ColorRs {
    Red,
    Green,
    Blue,
}

/// The colour that a C colour names, variant by variant.
pub open spec fn color_of(c: EColor) -> ColorRs {
    match c {
        EColor::RED => ColorRs::Red,
        EColor::GREEN => ColorRs::Green,
        EColor::BLUE => ColorRs::Blue,
    }
}

/// The C colour that a colour names, variant by variant.
pub open spec fn ecolor_of(c: ColorRs) -> EColor {
    match c {
        ColorRs::Red => EColor::RED,
        ColorRs::Green => EColor::GREEN,
        ColorRs::Blue => EColor::BLUE,
    }
}

impl From<EColor> for ColorRs {
    fn from(c: EColor) -> (r: Self) {
        match c {
            EColor::RED => ColorRs::Red,
            EColor::GREEN => ColorRs::Green,
            EColor::BLUE => ColorRs::Blue,
        }
    }
}

impl vstd::std_specs::convert::FromSpecImpl<EColor> for ColorRs {
    open spec fn obeys_from_spec() -> bool {
        true
    }

    open spec fn from_spec(c: EColor) -> ColorRs {
        color_of(c)
    }
}

impl From<ColorRs> for EColor {
    fn from(c: ColorRs) -> (r: Self) {
        match c {
            ColorRs::Red => EColor::RED,
            ColorRs::Green => EColor::GREEN,
            ColorRs::Blue => EColor::BLUE,
        }
    }
}

impl vstd::std_specs::convert::FromSpecImpl<ColorRs> for EColor {
    open spec fn obeys_from_spec() -> bool {
        true
    }

    open spec fn from_spec(c: ColorRs) -> EColor {
        ecolor_of(c)
    }
}

/// Converts a colour received from C into its Rust form.
pub fn get_color(c: EColor) -> (r: ColorRs)
    ensures
        r == color_of(c),
{
    ColorRs::from(c)
}

/// Converting a C colour to Rust and back gives the C colour again.
pub proof fn lemma_ecolor_round_trip(c: EColor)
    ensures
        ecolor_of(color_of(c)) == c,
{
}

/// Converting a Rust colour to C and back gives the Rust colour again.
pub proof fn lemma_color_round_trip(c: ColorRs)
    ensures
        color_of(ecolor_of(c)) == c,
{
}

/// Distinct C colours stay distinct in Rust.
pub proof fn lemma_color_of_injective(a: EColor, b: EColor)
    ensures
        color_of(a) == color_of(b) ==> a == b,
{
}

} // verus!
