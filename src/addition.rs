use vstd::prelude::*;
use vstd::string::StringExecFns;
use crate::value::{WeakType, Numeric, NAN_BITS, is_nan, is_nan_bits};
use crate::coerce::{display, to_number};

verus! {

/// What `+` yields: a value the library built, or a sum of two numbers that
/// the host computes.
pub enum Addition {
    /// The result is this value.
    Value(WeakType),
    /// The result is the number `a + b`, for two bit patterns neither of
    /// which is NaN.
    Sum(u64, u64),
}

/// The outcome is the string value `s`.
pub open spec fn gives_text(out: Addition, s: Seq<char>) -> bool {
    &&& out is Value
    &&& out->Value_0 is String
    &&& out->Value_0->String_0@ == s
}

/// The outcome is the library's NaN.
pub open spec fn gives_nan(out: Addition) -> bool {
    &&& out is Value
    &&& out->Value_0 is Number
    &&& out->Value_0->Number_0.bits == NAN_BITS
    &&& out->Value_0->Number_0.text@ == "NaN"@
}

/// The outcome of `l + r`, where `lp` and `rp` are the host's readings of
/// `l` and `r` as doubles when they are strings.
///
/// The left operand decides first. A string concatenates the other side's
/// text, except that before a number it is read as one and, where that reading
/// is no NaN, the two are added. A number adds the other side coerced to a
/// number, or, where that is NaN, concatenates both texts. An object or the
/// absent value gives NaN before a number, and the absent value also before
/// itself; otherwise both concatenate. An array always concatenates both
/// texts.
pub open spec fn addition_of(l: WeakType, r: WeakType, lp: u64, rp: u64, out: Addition) -> bool {
    match l {
        WeakType::String(a) => match r {
            WeakType::Number(n) => if is_nan(lp) {
                gives_text(out, a@ + n.text@)
            } else {
                out == Addition::Sum(lp, n.bits)
            },
            _ => gives_text(out, a@ + display(r)),
        },
        WeakType::Number(n) => if is_nan(to_number(r, rp)) {
            gives_text(out, n.text@ + display(r))
        } else {
            out == Addition::Sum(n.bits, to_number(r, rp))
        },
        WeakType::Object(_) => match r {
            WeakType::Number(_) => gives_nan(out),
            _ => gives_text(out, display(l) + display(r)),
        },
        WeakType::Undefined => match r {
            WeakType::Number(_) => gives_nan(out),
            WeakType::Undefined => gives_nan(out),
            _ => gives_text(out, display(l) + display(r)),
        },
        WeakType::Array(_) => gives_text(out, display(l) + display(r)),
    }
}

fn text_value(mut head: String, tail: &String) -> (out: Addition)
    ensures
        gives_text(out, head@ + tail@),
{
    head.append(tail.as_str());
    Addition::Value(WeakType::String(head))
}

fn nan_value() -> (out: Addition)
    ensures
        gives_nan(out),
{
    Addition::Value(WeakType::Number(Numeric::nan()))
}

impl WeakType {
    /// `self + rhs`. `lhs_parsed` and `rhs_parsed` are the host's readings of
    /// the operands' texts as doubles, consulted only for string operands.
    pub fn add(&self, rhs: &WeakType, lhs_parsed: u64, rhs_parsed: u64) -> (out: Addition)
        ensures
            addition_of(*self, *rhs, lhs_parsed, rhs_parsed, out),
    {
        match self {
            WeakType::String(a) => match rhs {
                WeakType::Number(n) => if is_nan_bits(lhs_parsed) {
                    text_value(a.clone(), &n.text)
                } else {
                    Addition::Sum(lhs_parsed, n.bits)
                },
                _ => text_value(a.clone(), &rhs.coerce_to_string()),
            },
            WeakType::Number(n) => {
                let q = rhs.coerce_to_number(rhs_parsed);
                if is_nan_bits(q) {
                    text_value(n.text.clone(), &rhs.coerce_to_string())
                } else {
                    Addition::Sum(n.bits, q)
                }
            },
            WeakType::Object(_) => match rhs {
                WeakType::Number(_) => nan_value(),
                _ => text_value(self.coerce_to_string(), &rhs.coerce_to_string()),
            },
            WeakType::Undefined => match rhs {
                WeakType::Number(_) => nan_value(),
                WeakType::Undefined => nan_value(),
                _ => text_value(self.coerce_to_string(), &rhs.coerce_to_string()),
            },
            WeakType::Array(_) => text_value(self.coerce_to_string(), &rhs.coerce_to_string()),
        }
    }
}

} // verus!
