//! A model of the value space of a dynamically typed language: five kinds of
//! value, their coercions to number and to text, property lookup, and the
//! asymmetric `+` operator.
//!
//! Numbers are IEEE 754 doubles held as their bit pattern together with the
//! decimal text that the host renders for them. Reading a double out of text,
//! rendering one and adding two are left to the host: the library decides
//! everything else and says, for each addition, whether the host must add.

mod value;
mod coerce;
mod addition;
mod object;
mod lift;
mod laws;

pub use value::{WeakType, Numeric, Array, Object, NAN_BITS, is_nan_bits, is_nan, lemma_nan_bits_is_nan};
pub use coerce::{display, joined, to_number};
pub use addition::{Addition, addition_of, gives_text, gives_nan};
pub use object::{lookup, names_unique, UNDEFINED};
pub use lift::{IntoWeakType, FromValues};
pub use laws::{
    law_text_plus_text,
    law_object_plus_number,
    law_number_plus_object,
    law_object_number_asymmetry,
    law_array_plus_any,
    law_text_coercion_idempotent,
};
