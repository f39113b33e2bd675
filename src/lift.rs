use vstd::prelude::*;
use vstd::string::StringExecFns;
use crate::value::{WeakType, Numeric, Array, Object};
use crate::coerce::{display, to_number};
use crate::object::lookup;

verus! {

/// Plain values that wrap directly into a `WeakType`, with no coercion.
pub trait IntoWeakType: Sized {
    /// `v` is what this value wraps into.
    spec fn lifts_to(&self, v: WeakType) -> bool;

    fn into(self) -> (r: WeakType)
        ensures
            self.lifts_to(r),
    ;
}

impl IntoWeakType for String {
    open spec fn lifts_to(&self, v: WeakType) -> bool {
        v == WeakType::String(*self)
    }

    fn into(self) -> (r: WeakType) {
        WeakType::String(self)
    }
}

impl<'a> IntoWeakType for &'a str {
    open spec fn lifts_to(&self, v: WeakType) -> bool {
        v is String && v->String_0@ == self@
    }

    fn into(self) -> (r: WeakType) {
        WeakType::String(String::from_str(self))
    }
}

impl IntoWeakType for Numeric {
    open spec fn lifts_to(&self, v: WeakType) -> bool {
        v == WeakType::Number(*self)
    }

    fn into(self) -> (r: WeakType) {
        WeakType::Number(self)
    }
}

impl IntoWeakType for Object {
    open spec fn lifts_to(&self, v: WeakType) -> bool {
        v == WeakType::Object(*self)
    }

    fn into(self) -> (r: WeakType) {
        WeakType::Object(self)
    }
}

impl IntoWeakType for Vec<WeakType> {
    open spec fn lifts_to(&self, v: WeakType) -> bool {
        v == WeakType::Array(Array(*self))
    }

    fn into(self) -> (r: WeakType) {
        WeakType::Array(Array(self))
    }
}

impl IntoWeakType for Array {
    open spec fn lifts_to(&self, v: WeakType) -> bool {
        v == WeakType::Array(*self)
    }

    fn into(self) -> (r: WeakType) {
        WeakType::Array(self)
    }
}

/// Builds an object value out of named entries.
pub trait FromValues<T>: Sized {
    /// `r` is the object value built from `value`.
    spec fn builds(value: T, r: WeakType) -> bool;

    fn from_values(value: T) -> (r: WeakType)
        ensures
            Self::builds(value, r),
    ;
}

impl FromValues<Vec<(String, WeakType)>> for Object {
    /// An object that stores, under each name, the last value given for it.
    open spec fn builds(value: Vec<(String, WeakType)>, r: WeakType) -> bool {
        &&& r is Object
        &&& r->Object_0.wf()
        &&& forall|k: Seq<char>| r->Object_0.get(k) == lookup(value@, k)
    }

    fn from_values(value: Vec<(String, WeakType)>) -> (r: WeakType) {
        WeakType::Object(Object::from_entries(value))
    }
}

impl Array {
    /// The array value holding `items`.
    pub fn from(items: Vec<WeakType>) -> (r: WeakType)
        ensures
            r == WeakType::Array(Array(items)),
    {
        WeakType::Array(Array(items))
    }
}

impl WeakType {
    /// Wraps a plain value, with no coercion.
    pub fn from<T: IntoWeakType>(value: T) -> (r: WeakType)
        ensures
            value.lifts_to(r),
    {
        value.into()
    }

    /// The absent value.
    pub fn undefined() -> (r: WeakType)
        ensures
            r is Undefined,
    {
        WeakType::Undefined
    }

    /// A string value holding the text of `x`.
    pub fn string_of(x: &WeakType) -> (r: WeakType)
        ensures
            r is String,
            r->String_0@ == display(*x),
    {
        WeakType::String(x.coerce_to_string())
    }

    /// A number value holding `x` coerced to a number; `parsed` is the host's
    /// reading of the text of a string `x`, and is used for nothing else.
    pub fn number_of(x: &WeakType, parsed: Numeric) -> (r: WeakType)
        ensures
            r is Number,
            r->Number_0.bits == to_number(*x, parsed.bits),
            r->Number_0.text@ == match *x {
                WeakType::String(_) => parsed.text@,
                WeakType::Number(n) => n.text@,
                _ => "NaN"@,
            },
    {
        match x {
            WeakType::String(_) => WeakType::Number(parsed),
            WeakType::Number(n) => WeakType::Number(Numeric::new(n.bits, n.text.clone())),
            _ => WeakType::Number(Numeric::nan()),
        }
    }

    /// The text shown for the value: its coercion to text.
    pub fn to_display_string(&self) -> (r: String)
        ensures
            r@ == display(*self),
    {
        self.coerce_to_string()
    }
}

} // verus!
