use vstd::prelude::*;
use vstd::string::StringExecFns;
use crate::value::{WeakType, Array, NAN_BITS};

verus! {

/// The text a value coerces to: strings as they are, numbers as rendered,
/// every object as `[object Object]`, `undefined` for the absent value, and an
/// array as the texts of its elements joined by `", "` (nested arrays add no
/// brackets, so their elements join the outer list; the empty array gives the
/// empty text).
pub open spec fn display(v: WeakType) -> Seq<char>
    decreases v, 0nat,
{
    match v {
        WeakType::String(s) => s@,
        WeakType::Number(n) => n.text@,
        WeakType::Object(_) => "[object Object]"@,
        WeakType::Undefined => "undefined"@,
        WeakType::Array(a) => joined(a.0@, a.0@.len()),
    }
}

/// The texts of the first `n` items, joined by `", "`.
pub open spec fn joined(items: Seq<WeakType>, n: nat) -> Seq<char>
    decreases items, n,
{
    if n == 0 || n > items.len() {
        Seq::empty()
    } else if n == 1 {
        display(items[0])
    } else {
        joined(items, (n - 1) as nat) + ", "@ + display(items[n - 1])
    }
}

/// The number a value coerces to, where `parsed` is the host's reading of a
/// string value's text as a double (NaN where the text is no number): a
/// number is itself, every other kind is NaN.
pub open spec fn to_number(v: WeakType, parsed: u64) -> u64 {
    match v {
        WeakType::String(_) => parsed,
        WeakType::Number(n) => n.bits,
        _ => NAN_BITS,
    }
}

impl WeakType {
    /// The value coerced to text.
    pub fn coerce_to_string(&self) -> (r: String)
        ensures
            r@ == display(*self),
        decreases self,
    {
        match self {
            WeakType::String(s) => s.clone(),
            WeakType::Number(n) => n.text.clone(),
            WeakType::Object(_) => {
                proof {
                    reveal_strlit("[object Object]");
                }
                String::from_str("[object Object]")
            },
            WeakType::Undefined => {
                proof {
                    reveal_strlit("undefined");
                }
                String::from_str("undefined")
            },
            WeakType::Array(a) => {
                let mut out = String::new();
                let mut i: usize = 0;
                while i < a.0.len()
                    invariant
                        i <= a.0@.len(),
                        *self == WeakType::Array(*a),
                        out@ == joined(a.0@, i as nat),
                    decreases a.0@.len() - i,
                {
                    proof {
                        reveal_strlit(", ");
                        assert(decreases_to!(*self => self->Array_0));
                        assert(decreases_to!(a.0@ => a.0@[i as int]));
                    }
                    let part = a.0[i].coerce_to_string();
                    if i > 0 {
                        out.append(", ");
                    }
                    out.append(part.as_str());
                    i += 1;
                }
                out
            },
        }
    }

    /// The value coerced to a number, as a bit pattern; `parsed` is consulted
    /// only for a string and is the host's reading of its text.
    pub fn coerce_to_number(&self, parsed: u64) -> (r: u64)
        ensures
            r == to_number(*self, parsed),
    {
        match self {
            WeakType::String(_) => parsed,
            WeakType::Number(n) => n.bits,
            _ => NAN_BITS,
        }
    }
}

} // verus!
