use valq::{
    evaluate, evaluate_and_convert, evaluate_and_deserialize, zip_options2, zip_options3,
    zip_results2, zip_results3, Error, IndexKey, Kind, Mapping, Narrowed, Number, Step, Value,
};

fn s(x: &str) -> Value {
    Value::String(x.to_string())
}

fn num(x: u64) -> Value {
    Value::Number(Number::PosInt(x))
}

fn obj(entries: Vec<(&str, Value)>) -> Value {
    let mut m = Mapping::new();
    for (k, v) in entries {
        m.insert(k.to_string(), v);
    }
    Value::Object(m)
}

fn f(name: &str) -> Step {
    Step::Field(name.to_string())
}

fn at(i: usize) -> Step {
    Step::Index(IndexKey::ByPosition(i))
}

fn text<'a>(root: &'a Value, path: &[Step]) -> Option<Narrowed<'a>> {
    evaluate_and_convert(root, path, Kind::Str).ok()
}

fn unsigned(root: &Value, path: &[Step]) -> Option<u64> {
    evaluate_and_deserialize::<u64>(root, path).ok()
}

#[test]
fn test_option_variant_all_some() {
    let data = obj(vec![("name", s("valq")), ("version", s("0.2.0")), ("stars", num(100))]);
    let result = zip_options3(
        text(&data, &[f("name")]),
        text(&data, &[f("version")]),
        unsigned(&data, &[f("stars")]),
    );
    assert_eq!(result, Some((Narrowed::Str("valq"), Narrowed::Str("0.2.0"), 100u64)));
}

#[test]
fn test_option_variant_with_none() {
    let data = obj(vec![("name", s("valq")), ("version", s("0.2.0"))]);
    let result = zip_options3(
        text(&data, &[f("name")]),
        text(&data, &[f("nonexistent")]),
        text(&data, &[f("version")]),
    );
    assert_eq!(result, None);
}

#[test]
fn test_option_variant_explicit_option_prefix() {
    let data = obj(vec![("a", num(1)), ("b", num(2)), ("c", num(3))]);
    let result = zip_options3(
        unsigned(&data, &[f("a")]),
        unsigned(&data, &[f("b")]),
        unsigned(&data, &[f("c")]),
    );
    assert_eq!(result, Some((1u64, 2u64, 3u64)));
}

#[test]
fn test_option_variant_many_elements() {
    let data = obj(vec![
        ("v1", num(1)),
        ("v2", num(2)),
        ("v3", num(3)),
        ("v4", num(4)),
        ("v5", num(5)),
        ("v6", num(6)),
    ]);
    let result = zip_options2(
        zip_options3(
            unsigned(&data, &[f("v1")]),
            unsigned(&data, &[f("v2")]),
            unsigned(&data, &[f("v3")]),
        ),
        zip_options3(
            unsigned(&data, &[f("v4")]),
            unsigned(&data, &[f("v5")]),
            unsigned(&data, &[f("v6")]),
        ),
    )
    .map(|((a, b, c), (d, e, g))| (a, b, c, d, e, g));
    assert_eq!(result, Some((1u64, 2u64, 3u64, 4u64, 5u64, 6u64)));
}

#[test]
fn test_option_variant_trailing_comma() {
    let data = obj(vec![("a", s("foo")), ("b", s("bar"))]);
    let result = zip_options2(text(&data, &[f("a")]), text(&data, &[f("b")]));
    assert_eq!(result, Some((Narrowed::Str("foo"), Narrowed::Str("bar"))));
}

#[test]
fn test_result_variant_all_ok() {
    let data = obj(vec![
        ("name", s("valq")),
        ("keywords", Value::Array(vec![s("macro"), s("query"), s("serde")])),
        ("author", obj(vec![("name", s("jiftechnify")), ("age", num(31))])),
    ]);
    let result = zip_results3(
        evaluate_and_convert(&data, &[f("name")], Kind::Str),
        evaluate_and_convert(&data, &[f("keywords"), at(1)], Kind::Str),
        evaluate_and_convert(&data, &[f("author"), f("age")], Kind::U64),
    );
    assert!(result.is_ok());
    assert_eq!(
        result.unwrap(),
        (Narrowed::Str("valq"), Narrowed::Str("query"), Narrowed::U64(31))
    );
}

#[test]
fn test_result_variant_with_error() {
    let data = obj(vec![("name", s("valq")), ("version", s("0.2.0"))]);
    let result = zip_results2(
        evaluate_and_convert(&data, &[f("name")], Kind::Str),
        evaluate(&data, &[f("nonexistent")]),
    );
    assert!(result.is_err());
    assert!(matches!(result.unwrap_err(), Error::ValueNotFoundAtPath(_)));
}

#[test]
fn test_result_variant_type_mismatch_error() {
    let data = obj(vec![("value", s("not a number")), ("other", num(123))]);
    let result = zip_results2(
        evaluate_and_convert(&data, &[f("value")], Kind::U64),
        evaluate_and_convert(&data, &[f("other")], Kind::U64),
    );
    assert!(result.is_err());
}

#[test]
fn test_result_variant_array_out_of_bounds() {
    let data = obj(vec![("items", Value::Array(vec![num(1), num(2), num(3)]))]);
    let result = zip_results2(
        evaluate_and_convert(&data, &[f("items"), at(0)], Kind::U64),
        evaluate_and_convert(&data, &[f("items"), at(10)], Kind::U64),
    );
    assert!(result.is_err());
}

#[test]
fn test_nested_object_access() {
    let data = obj(vec![(
        "level1",
        obj(vec![(
            "level2",
            obj(vec![("level3", obj(vec![("value", s("deep")), ("number", num(99))]))]),
        )]),
    )]);
    let result = zip_results2(
        evaluate_and_convert(&data, &[f("level1"), f("level2"), f("level3"), f("value")], Kind::Str),
        evaluate_and_convert(
            &data,
            &[f("level1"), f("level2"), f("level3"), f("number")],
            Kind::U64,
        ),
    );
    assert!(result.is_ok());
    assert_eq!(result.unwrap(), (Narrowed::Str("deep"), Narrowed::U64(99)));
}
