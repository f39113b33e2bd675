use vstd::prelude::*;

verus! {

/// The bit pattern of the quiet NaN that the library produces.
pub const NAN_BITS: u64 = 0x7ff8_0000_0000_0000;

/// True when the bit pattern encodes a NaN: every exponent bit set and a
/// non-zero fraction.
pub open spec fn is_nan(bits: u64) -> bool {
    (bits >> 52u64) & 0x7ffu64 == 0x7ffu64 && bits & 0xf_ffff_ffff_ffffu64 != 0
}

/// The library's NaN is a NaN.
pub proof fn lemma_nan_bits_is_nan()
    ensures
        is_nan(NAN_BITS),
{
    assert(((0x7ff8_0000_0000_0000u64 >> 52u64) & 0x7ffu64 == 0x7ffu64)
        && (0x7ff8_0000_0000_0000u64 & 0xf_ffff_ffff_ffffu64 != 0)) by (bit_vector);
}

/// Tests a bit pattern for NaN.
pub fn is_nan_bits(bits: u64) -> (r: bool)
    ensures
        r == is_nan(bits),
{
    (bits >> 52u64) & 0x7ffu64 == 0x7ffu64 && bits & 0xf_ffff_ffff_ffffu64 != 0
}

/// A 64-bit float: its bit pattern and the decimal text the host renders for
/// it (integral values without a fraction, others in their shortest
/// round-tripping form, NaN as `NaN`).
pub struct Numeric {
    pub bits: u64,
    pub text: String,
}

impl Numeric {
    /// The number with the given bit pattern and rendering.
    pub fn new(bits: u64, text: String) -> (r: Numeric)
        ensures
            r.bits == bits,
            r.text@ == text@,
    {
        Numeric { bits, text }
    }

    /// The library's NaN.
    pub fn nan() -> (r: Numeric)
        ensures
            r.bits == NAN_BITS,
            r.text@ == "NaN"@,
    {
        proof {
            reveal_strlit("NaN");
        }
        Numeric { bits: NAN_BITS, text: String::from_str("NaN") }
    }
}

/// An ordered list of values.
pub struct Array(pub Vec<WeakType>);

/// Named entries; `Object::wf` keeps the names unique.
pub struct Object(pub Vec<(String, WeakType)>);

/// A value of the dynamic language.
pub enum WeakType {
    String(String),
    Number(Numeric),
    Object(Object),
    Array(Array),
    Undefined,
}

} // verus!
