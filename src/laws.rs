use vstd::prelude::*;
use crate::value::{WeakType, Numeric, Object, Array, lemma_nan_bits_is_nan};
use crate::coerce::display;
use crate::addition::{Addition, addition_of, gives_text, gives_nan};

verus! {

/// Two strings add by plain concatenation, whatever they read as numbers.
pub proof fn law_text_plus_text(a: String, b: String, lp: u64, rp: u64, out: Addition)
    requires
        addition_of(WeakType::String(a), WeakType::String(b), lp, rp, out),
    ensures
        gives_text(out, a@ + b@),
{
}

/// An object plus a number is NaN, whatever the object holds and whatever
/// the number is.
pub proof fn law_object_plus_number(m: Object, n: Numeric, lp: u64, rp: u64, out: Addition)
    requires
        addition_of(WeakType::Object(m), WeakType::Number(n), lp, rp, out),
    ensures
        gives_nan(out),
{
}

/// A number plus an object is the number's text followed by
/// `[object Object]`.
pub proof fn law_number_plus_object(n: Numeric, m: Object, lp: u64, rp: u64, out: Addition)
    requires
        addition_of(WeakType::Number(n), WeakType::Object(m), lp, rp, out),
    ensures
        gives_text(out, n.text@ + "[object Object]"@),
{
    lemma_nan_bits_is_nan();
}

/// The two orders of an object and a number disagree: one gives NaN, the
/// other a string.
pub proof fn law_object_number_asymmetry(
    m: Object,
    n: Numeric,
    lp: u64,
    rp: u64,
    forward: Addition,
    backward: Addition,
)
    requires
        addition_of(WeakType::Object(m), WeakType::Number(n), lp, rp, forward),
        addition_of(WeakType::Number(n), WeakType::Object(m), rp, lp, backward),
    ensures
        forward->Value_0 is Number,
        backward->Value_0 is String,
        forward != backward,
{
    lemma_nan_bits_is_nan();
}

/// An array plus any value concatenates the texts of both.
pub proof fn law_array_plus_any(s: Array, x: WeakType, lp: u64, rp: u64, out: Addition)
    requires
        addition_of(WeakType::Array(s), x, lp, rp, out),
    ensures
        gives_text(out, display(WeakType::Array(s)) + display(x)),
{
}

/// Coercing to text a second time changes nothing: the string that holds a
/// value's text has that same text.
pub proof fn law_text_coercion_idempotent(v: WeakType, s: String)
    requires
        s@ == display(v),
    ensures
        display(WeakType::String(s)) == display(v),
{
}

} // verus!
