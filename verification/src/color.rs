use vstd::prelude::*;

verus! {

/// One pointer coordinate in physical pixels, held as the bit pattern of
/// the binary64 number that the window system reported. The pattern is
/// carried through unchanged; no arithmetic is done on it here.
#[derive(Clone, Copy, Debug, PartialEq, Eq, Structural)]
pub struct Coordinate {
    pub bits: u64,
}

/// One component of a colour, kept as the quantity it stands for rather
/// than as a rounded number.
#[derive(Clone, Copy, Debug, PartialEq, Eq, Structural)]
pub enum Channel {
    /// The component 0.
    Zero,
    /// The component 1.
    One,
    /// The quotient of a pointer coordinate by a window extent.
    Ratio { numerator: Coordinate, denominator: u32 },
}

/// The colour that a frame is cleared to before anything is drawn.
#[derive(Clone, Copy, Debug, PartialEq, Eq, Structural)]
pub struct ClearColor {
    pub red: Channel,
    pub green: Channel,
    pub blue: Channel,
    pub alpha: Channel,
}

impl ClearColor {
    /// Opaque black: the colour before the pointer has moved.
    pub open spec fn black_spec() -> ClearColor {
        ClearColor {
            red: Channel::Zero,
            green: Channel::Zero,
            blue: Channel::Zero,
            alpha: Channel::One,
        }
    }

    /// The colour that follows the pointer: red is `x` over the width,
    /// green is `y` over the height, blue and alpha are 1.
    pub open spec fn tracking_spec(x: Coordinate, y: Coordinate, width: u32, height: u32) -> ClearColor {
        ClearColor {
            red: Channel::Ratio { numerator: x, denominator: width },
            green: Channel::Ratio { numerator: y, denominator: height },
            blue: Channel::One,
            alpha: Channel::One,
        }
    }

    pub fn black() -> (color: ClearColor)
        ensures
            color == ClearColor::black_spec(),
    {
        ClearColor {
            red: Channel::Zero,
            green: Channel::Zero,
            blue: Channel::Zero,
            alpha: Channel::One,
        }
    }

    pub fn tracking(x: Coordinate, y: Coordinate, width: u32, height: u32) -> (color: ClearColor)
        ensures
            color == ClearColor::tracking_spec(x, y, width, height),
    {
        ClearColor {
            red: Channel::Ratio { numerator: x, denominator: width },
            green: Channel::Ratio { numerator: y, denominator: height },
            blue: Channel::One,
            alpha: Channel::One,
        }
    }
}

} // verus!
