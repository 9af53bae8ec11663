//! The symbol alphabet of the JJY bitstream.

use vstd::prelude::*;

verus! {

/// One classified pulse. `Short` encodes logical 1, `Long` logical 0,
/// `Marker` delimits frames, and `Unknown` is an out-of-tolerance width.
#[derive(Copy, Clone, Debug, Eq, PartialEq, Structural)]
pub enum BitWidth {
    Unknown,
    Marker,
    Short,
    Long,
}

/// A symbol that carries a data bit: `Short` or `Long`.
pub open spec fn is_data_bit(s: BitWidth) -> bool {
    s is Short || s is Long
}

/// The bit a data symbol carries: `Short` is 1, `Long` is 0.
pub open spec fn bit_val(s: BitWidth) -> bool {
    s is Short
}

/// What converting a symbol to a bit yields.
pub open spec fn bit_of(s: BitWidth) -> Option<bool> {
    match s {
        BitWidth::Short => Some(true),
        BitWidth::Long => Some(false),
        _ => None,
    }
}

impl BitWidth {
    /// The symbol's name, for diagnostics.
    pub fn as_str(&self) -> (r: &'static str)
        ensures
            self is Unknown ==> r@ == "Unknown"@,
            self is Marker ==> r@ == "Marker"@,
            self is Short ==> r@ == "Short"@,
            self is Long ==> r@ == "Long"@,
    {
        match self {
            BitWidth::Unknown => "Unknown",
            BitWidth::Marker => "Marker",
            BitWidth::Short => "Short",
            BitWidth::Long => "Long",
        }
    }

    /// Whether the symbol carries a data bit.
    pub fn is_data(&self) -> (r: bool)
        ensures
            r == is_data_bit(*self),
    {
        matches!(self, BitWidth::Short | BitWidth::Long)
    }

    /// The bit a data symbol carries.
    pub fn bit(&self) -> (r: bool)
        requires
            is_data_bit(*self),
        ensures
            r == bit_val(*self),
    {
        matches!(self, BitWidth::Short)
    }

    /// Convert to a bit: `Some(true)` for `Short`, `Some(false)` for `Long`,
    /// `None` for `Marker` and `Unknown`.
    pub fn try_as_bool(&self) -> (r: Option<bool>)
        ensures
            r == bit_of(*self),
    {
        match self {
            BitWidth::Unknown => None,
            BitWidth::Marker => None,
            BitWidth::Short => Some(true),
            BitWidth::Long => Some(false),
        }
    }
}

} // verus!
