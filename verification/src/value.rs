use vstd::prelude::*;

verus! {

/// A classified numeric operand, reduced to the plain data the comparison
/// logic reads of it.
///
/// The host's floating-point machinery produces these fields once, at
/// classification time; everything after that point works on them alone.
pub struct Numeric {
    /// The canonical decimal rendering of the number, exactly as the host
    /// formats it (`0.1` stays `0.1`, an integral value drops its `.0`).
    pub repr: String,
    /// An order key: the number's IEEE-754 binary64 bit pattern sent through
    /// `order_key`, so that unsigned comparison of keys agrees with the
    /// numeric comparison of the values they came from.
    pub key: u64,
    /// Whether the number is a NaN, which compares unequal to everything.
    pub nan: bool,
}

/// One command-line operand after classification: either it parsed as a
/// number, or it is kept as the exact original text.
pub enum Value {
    Number(Numeric),
    Text(String),
}

/// The mathematical model of a `Numeric`: its rendering as a sequence of
/// characters, with the order key and the NaN flag.
pub struct NumericModel {
    pub repr: Seq<char>,
    pub key: u64,
    pub nan: bool,
}

/// The mathematical model of a `Value`.
pub enum ValueModel {
    Number(NumericModel),
    Text(Seq<char>),
}

impl View for Numeric {
    type V = NumericModel;

    open spec fn view(&self) -> NumericModel {
        NumericModel { repr: self.repr@, key: self.key, nan: self.nan }
    }
}

impl View for Value {
    type V = ValueModel;

    open spec fn view(&self) -> ValueModel {
        match self {
            Value::Number(n) => ValueModel::Number(n@),
            Value::Text(t) => ValueModel::Text(t@),
        }
    }
}

/// The key that `order_key` assigns to a 64-bit pattern: patterns with a
/// clear sign bit are shifted above all patterns with a set sign bit, and
/// those with a set sign bit are reversed, so that for patterns of IEEE-754
/// binary64 values the unsigned order of keys agrees with the numeric order.
/// The two zero patterns (all zeros, and the sign bit alone) share one key,
/// as the two zeros are numerically equal.
pub open spec fn order_key_of(bits: u64) -> u64 {
    if bits == 0x8000_0000_0000_0000u64 {
        0x8000_0000_0000_0000u64
    } else if bits < 0x8000_0000_0000_0000u64 {
        (bits + 0x8000_0000_0000_0000) as u64
    } else {
        !bits
    }
}

/// Computes the order key of a 64-bit pattern.
pub fn order_key(bits: u64) -> (k: u64)
    ensures
        k == order_key_of(bits),
{
    if bits == 0x8000_0000_0000_0000u64 {
        bits
    } else if bits < 0x8000_0000_0000_0000u64 {
        bits + 0x8000_0000_0000_0000u64
    } else {
        !bits
    }
}

/// Distinct patterns keep distinct keys, except the two zero patterns,
/// which share one on purpose.
pub proof fn lemma_order_key_injective(a: u64, b: u64)
    requires
        order_key_of(a) == order_key_of(b),
        a != b,
    ensures
        a == 0 && b == 0x8000_0000_0000_0000u64 || a == 0x8000_0000_0000_0000u64 && b == 0,
{
    assert((if a == 0x8000_0000_0000_0000u64 {
        0x8000_0000_0000_0000u64
    } else if a < 0x8000_0000_0000_0000u64 {
        (a + 0x8000_0000_0000_0000) as u64
    } else {
        !a
    }) == (if b == 0x8000_0000_0000_0000u64 {
        0x8000_0000_0000_0000u64
    } else if b < 0x8000_0000_0000_0000u64 {
        (b + 0x8000_0000_0000_0000) as u64
    } else {
        !b
    }) && a != b ==> a == 0 && b == 0x8000_0000_0000_0000u64 || a == 0x8000_0000_0000_0000u64
        && b == 0) by (bit_vector);
}

} // verus!
