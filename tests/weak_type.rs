use weak_type::{is_nan_bits, Addition, Array, FromValues, IntoWeakType, Numeric, Object, WeakType, NAN_BITS};

fn num(x: f64) -> Numeric {
    Numeric::new(x.to_bits(), x.to_string())
}

fn number(x: f64) -> WeakType {
    WeakType::Number(num(x))
}

fn text(s: &str) -> WeakType {
    WeakType::String(s.to_string())
}

fn read(v: &WeakType) -> u64 {
    match v {
        WeakType::String(s) => s.parse::<f64>().unwrap_or(f64::NAN).to_bits(),
        _ => f64::NAN.to_bits(),
    }
}

fn plus(l: &WeakType, r: &WeakType) -> WeakType {
    match l.add(r, read(l), read(r)) {
        Addition::Value(v) => v,
        Addition::Sum(a, b) => number(f64::from_bits(a) + f64::from_bits(b)),
    }
}

fn as_number(v: &WeakType) -> f64 {
    match v {
        WeakType::Number(n) => f64::from_bits(n.bits),
        _ => panic!("not a number"),
    }
}

fn as_text(v: &WeakType) -> String {
    match v {
        WeakType::String(s) => s.clone(),
        _ => panic!("not a string"),
    }
}

fn planets() -> WeakType {
    Object::from_values(vec![
        ("Mercury".to_string(), number(0.4)),
        ("Venus".to_string(), number(0.7)),
        ("Earth".to_string(), number(1.0)),
        ("Mars".to_string(), number(1.5)),
    ])
}

#[test]
fn text_coerces_to_number() {
    let five = text("5");
    assert_eq!(f64::from_bits(five.coerce_to_number(read(&five))), 5.0);
    let abc = text("abc");
    assert!(f64::from_bits(abc.coerce_to_number(read(&abc))).is_nan());
    assert!(is_nan_bits(abc.coerce_to_number(read(&abc))));
}

#[test]
fn other_kinds_coerce_to_number() {
    assert_eq!(f64::from_bits(number(2.5).coerce_to_number(0)), 2.5);
    assert!(is_nan_bits(WeakType::Undefined.coerce_to_number(0)));
    assert!(is_nan_bits(planets().coerce_to_number(0)));
    assert!(is_nan_bits(Array::from(vec![number(1.0)]).coerce_to_number(0)));
}

#[test]
fn nan_bits() {
    assert!(f64::from_bits(NAN_BITS).is_nan());
    assert!(is_nan_bits(f64::NAN.to_bits()));
    assert!(!is_nan_bits(1.0f64.to_bits()));
    assert!(!is_nan_bits(f64::INFINITY.to_bits()));
    assert!(Numeric::nan().text == "NaN");
}

#[test]
fn coerce_to_string_of_each_kind() {
    assert_eq!(number(5.0).coerce_to_string(), "5");
    assert_eq!(number(0.4).coerce_to_string(), "0.4");
    assert_eq!(planets().coerce_to_string(), "[object Object]");
    assert_eq!(WeakType::Undefined.coerce_to_string(), "undefined");
    assert_eq!(text("hi").coerce_to_string(), "hi");
}

#[test]
fn arrays_flatten_to_text() {
    let inner = Array::from(vec![planets(), text("x")]);
    let outer = Array::from(vec![number(1.0), inner, WeakType::Undefined]);
    assert_eq!(outer.coerce_to_string(), "1, [object Object], x, undefined");
    assert_eq!(Array::from(vec![]).coerce_to_string(), "");
    assert_eq!(Array::from(vec![text("a")]).to_display_string(), "a");
}

#[test]
fn text_plus_text_concatenates() {
    assert_eq!(as_text(&plus(&text("1"), &text("2"))), "12");
    assert_eq!(as_text(&plus(&text(""), &text("ab"))), "ab");
}

#[test]
fn text_plus_number() {
    assert_eq!(as_number(&plus(&text("2"), &number(3.0))), 5.0);
    assert_eq!(as_text(&plus(&text("abc"), &number(5.0))), "abc5");
}

#[test]
fn text_plus_other_kinds() {
    assert_eq!(as_text(&plus(&text("a"), &planets())), "a[object Object]");
    assert_eq!(as_text(&plus(&text("a"), &WeakType::Undefined)), "aundefined");
    let arr = Array::from(vec![number(1.0), number(2.0)]);
    assert_eq!(as_text(&plus(&text("a"), &arr)), "a1, 2");
}

#[test]
fn number_plus_values() {
    assert_eq!(as_number(&plus(&number(1.5), &number(2.0))), 3.5);
    assert_eq!(as_number(&plus(&number(1.0), &text("4"))), 5.0);
    assert_eq!(as_text(&plus(&number(5.0), &text("x"))), "5x");
    assert_eq!(as_text(&plus(&number(5.0), &WeakType::Undefined)), "5undefined");
    let nan = WeakType::Number(Numeric::nan());
    assert_eq!(as_text(&plus(&number(1.0), &nan)), "1NaN");
}

#[test]
fn object_plus_number_is_nan() {
    assert!(as_number(&plus(&planets(), &number(3.0))).is_nan());
    let empty = Object::from_values(vec![]);
    assert!(as_number(&plus(&empty, &number(0.0))).is_nan());
}

#[test]
fn number_plus_object_concatenates() {
    assert_eq!(as_text(&plus(&number(3.0), &planets())), "3[object Object]");
}

#[test]
fn object_and_undefined_on_the_left() {
    assert_eq!(as_text(&plus(&planets(), &text("s"))), "[object Object]s");
    assert_eq!(as_text(&plus(&planets(), &planets())), "[object Object][object Object]");
    assert_eq!(as_text(&plus(&planets(), &WeakType::Undefined)), "[object Object]undefined");
    assert_eq!(as_text(&plus(&WeakType::Undefined, &text("s"))), "undefineds");
    assert!(as_number(&plus(&WeakType::Undefined, &number(1.0))).is_nan());
    assert!(as_number(&plus(&WeakType::Undefined, &WeakType::Undefined)).is_nan());
    assert_eq!(as_text(&plus(&WeakType::Undefined, &planets())), "undefined[object Object]");
}

#[test]
fn array_plus_anything_concatenates() {
    let arr = Array::from(vec![number(1.0), text("b")]);
    assert_eq!(as_text(&plus(&arr, &number(2.0))), "1, b2");
    assert_eq!(as_text(&plus(&arr, &text("3"))), "1, b3");
    assert_eq!(as_text(&plus(&arr, &WeakType::Undefined)), "1, bundefined");
    assert_eq!(as_text(&plus(&arr, &arr)), "1, b1, b");
}

#[test]
fn index_lookups() {
    let earth = Object::from_values(vec![("Earth".to_string(), number(1.0))]);
    assert_eq!(as_number(earth.index("Earth")), 1.0);
    let empty = Object::from_values(vec![]);
    assert!(matches!(empty.index("Mars"), WeakType::Undefined));
    assert!(matches!(number(3.0).index("x"), WeakType::Undefined));
    assert!(matches!(WeakType::Undefined.index("x"), WeakType::Undefined));
    assert!(matches!(text("abc").index("length"), WeakType::Undefined));
    assert_eq!(as_number(planets().index("Mars")), 1.5);
}

#[test]
fn repeated_names_keep_the_last_value() {
    let o = Object::from_entries(vec![
        ("a".to_string(), number(1.0)),
        ("b".to_string(), number(2.0)),
        ("a".to_string(), number(3.0)),
    ]);
    assert_eq!(o.0.len(), 2);
    let v = WeakType::Object(o);
    assert_eq!(as_number(v.index("a")), 3.0);
    assert_eq!(as_number(v.index("b")), 2.0);
}

#[test]
fn insert_replaces() {
    let mut o = Object::new();
    o.insert("k".to_string(), number(1.0));
    o.insert("k".to_string(), text("v"));
    o.insert("j".to_string(), WeakType::Undefined);
    assert_eq!(o.0.len(), 2);
    let v = WeakType::Object(o);
    assert_eq!(as_text(v.index("k")), "v");
}

#[test]
fn planets_scenario() {
    let obj = planets();
    let copy = planets();
    let twenty = WeakType::string_of(&number(20.0));
    let five = text("5");
    let parsed = num(f64::from_bits(read(&five)));
    let arr = Array::from(vec![
        WeakType::string_of(&number(1.0)),
        WeakType::number_of(&five, parsed),
        Array::from(vec![copy, twenty]),
    ]);
    assert_eq!(as_text(&plus(&arr, &obj)), "1, 5, [object Object], 20[object Object]");
}

#[test]
fn number_text_round_trip() {
    let t = text("42");
    let n = number(f64::from_bits(t.coerce_to_number(read(&t))));
    let back = WeakType::string_of(&n);
    assert_eq!(as_text(&back), "42");
    assert_eq!(f64::from_bits(back.coerce_to_number(read(&back))), 42.0);
}

#[test]
fn text_coercion_is_idempotent() {
    let values = vec![
        number(0.7),
        planets(),
        WeakType::Undefined,
        text("x y"),
        Array::from(vec![number(1.0), Array::from(vec![text("a")])]),
    ];
    for v in values.iter() {
        let once = v.coerce_to_string();
        let twice = WeakType::String(once.clone()).coerce_to_string();
        assert_eq!(once, twice);
    }
}

#[test]
fn coercing_constructors() {
    assert_eq!(as_text(&WeakType::string_of(&number(5.0))), "5");
    assert_eq!(as_text(&WeakType::string_of(&planets())), "[object Object]");
    assert!(as_number(&WeakType::number_of(&planets(), num(0.0))).is_nan());
    assert!(as_number(&WeakType::number_of(&WeakType::Undefined, num(0.0))).is_nan());
    assert_eq!(as_number(&WeakType::number_of(&number(2.0), num(9.0))), 2.0);
    assert_eq!(as_number(&WeakType::number_of(&text("7"), num(7.0))), 7.0);
}

#[test]
fn lifting_wraps_without_coercion() {
    assert_eq!(as_text(&WeakType::from("5")), "5");
    assert_eq!(as_text(&IntoWeakType::into("x".to_string())), "x");
    assert_eq!(as_number(&WeakType::from(num(2.0))), 2.0);
    assert!(matches!(WeakType::from(vec![number(1.0)]), WeakType::Array(_)));
    assert!(matches!(WeakType::from(Object::new()), WeakType::Object(_)));
}
