use valq::{
    apply_default, apply_fallback, evaluate, evaluate_and_convert, evaluate_and_deserialize,
    evaluate_as_array_mut, evaluate_as_object_mut, evaluate_mut, zip_results2, Error, IndexKey,
    Kind, Mapping, Narrowed, Number, Step, Value,
};

fn s(x: &str) -> Value {
    Value::String(x.to_string())
}

fn num(x: i64) -> Value {
    if x >= 0 {
        Value::Number(Number::PosInt(x as u64))
    } else {
        Value::Number(Number::NegInt(x))
    }
}

fn float(x: f64) -> Value {
    Value::Number(Number::Float(x.to_bits()))
}

fn obj(entries: Vec<(&str, Value)>) -> Value {
    let mut m = Mapping::new();
    for (k, v) in entries {
        m.insert(k.to_string(), v);
    }
    Value::Object(m)
}

fn arr(items: Vec<Value>) -> Value {
    Value::Array(items)
}

fn f(name: &str) -> Step {
    Step::Field(name.to_string())
}

fn key(name: &str) -> Step {
    Step::Index(IndexKey::ByName(name.to_string()))
}

fn at(i: usize) -> Step {
    Step::Index(IndexKey::ByPosition(i))
}

fn sample() -> Value {
    obj(vec![
        ("str", s("s")),
        (
            "nums",
            obj(vec![("u64", num(123)), ("i64", num(-123)), ("f64", float(1.23))]),
        ),
        ("bool", Value::Bool(true)),
        ("null", Value::Null),
        ("obj", obj(vec![("inner", s("value")), ("more", s("item"))])),
        (
            "arr",
            arr(vec![
                s("first"),
                num(42),
                obj(vec![("hidden", s("tale"))]),
                arr(vec![num(0)]),
            ]),
        ),
        ("num_arr", arr(vec![num(0), num(1), num(2)])),
        ("1st", s("prop starts with digit!")),
    ])
}

#[test]
fn query_value_result_test_query_with_dot_syntax() {
    let j = sample();
    let tests = vec![
        (evaluate(&j, &[f("str")]), s("s")),
        (evaluate(&j, &[f("nums"), f("u64")]), num(123)),
        (evaluate(&j, &[f("nums"), f("i64")]), num(-123)),
        (evaluate(&j, &[f("nums"), f("f64")]), float(1.23)),
        (evaluate(&j, &[f("bool")]), Value::Bool(true)),
        (evaluate(&j, &[f("null")]), Value::Null),
        (
            evaluate(&j, &[f("obj")]),
            obj(vec![("inner", s("value")), ("more", s("item"))]),
        ),
        (evaluate(&j, &[f("obj"), f("inner")]), s("value")),
        (
            evaluate(&j, &[f("arr")]),
            arr(vec![
                s("first"),
                num(42),
                obj(vec![("hidden", s("tale"))]),
                arr(vec![num(0)]),
            ]),
        ),
        (evaluate(&j, &[key("1st")]), s("prop starts with digit!")),
    ];
    for (res, exp) in tests {
        assert_eq!(res.unwrap(), &exp);
    }
}

#[test]
fn query_value_result_test_query_with_bracket_syntax() {
    let j = sample();
    let tests = vec![
        (evaluate(&j, &[key("str")]), s("s")),
        (evaluate(&j, &[key("nums"), key("u64")]), num(123)),
        (evaluate(&j, &[key("nums"), f("i64")]), num(-123)),
        (evaluate(&j, &[key("1st")]), s("prop starts with digit!")),
    ];
    for (res, exp) in tests {
        assert_eq!(res.unwrap(), &exp);
    }
}

#[test]
fn query_value_result_test_indexing_array() {
    let j = sample();
    let tests = vec![
        (evaluate(&j, &[f("arr"), at(0)]), s("first")),
        (evaluate(&j, &[f("arr"), at(1)]), num(42)),
        (evaluate(&j, &[f("arr"), at(2), f("hidden")]), s("tale")),
        (evaluate(&j, &[f("arr"), at(3), at(0)]), num(0)),
    ];
    for (res, exp) in tests {
        assert_eq!(res.unwrap(), &exp);
    }
}

#[test]
fn query_value_result_test_query_mut() {
    let mut j = sample();
    {
        let inner = evaluate_mut(&mut j, &[f("obj"), f("inner")]).unwrap();
        *inner = s("just woke up!");
    }
    assert_eq!(
        evaluate(&j, &[f("obj")]).unwrap(),
        &obj(vec![("inner", s("just woke up!")), ("more", s("item"))])
    );
    {
        let m = evaluate_as_object_mut(&mut j, &[f("obj")]).unwrap();
        m.insert("new_prop".to_string(), s("yeah"));
    }
    assert_eq!(
        evaluate_and_convert(&j, &[f("obj"), f("new_prop")], Kind::Str).unwrap(),
        Narrowed::Str("yeah")
    );
    {
        let a = evaluate_as_array_mut(&mut j, &[f("arr")]).unwrap();
        a.push(s("appended!"));
    }
    assert_eq!(
        evaluate_and_convert(&j, &[f("arr"), at(4)], Kind::Str).unwrap(),
        Narrowed::Str("appended!")
    );
}

#[test]
fn query_value_result_test_query_and_convert() {
    let j = sample();
    let inner = match evaluate_and_convert(&j, &[f("obj")], Kind::Object).unwrap() {
        Narrowed::Object(m) => m.get(&"inner".to_string()) == Some(&s("value")),
        _ => false,
    };
    let elements = vec![
        s("first"),
        num(42),
        obj(vec![("hidden", s("tale"))]),
        arr(vec![num(0)]),
    ];
    let tests = [
        evaluate_and_convert(&j, &[f("str")], Kind::Str).unwrap() == Narrowed::Str("s"),
        evaluate_and_convert(&j, &[f("nums"), f("u64")], Kind::U64).unwrap()
            == Narrowed::U64(123),
        evaluate_and_convert(&j, &[f("nums"), f("i64")], Kind::I64).unwrap()
            == Narrowed::I64(-123),
        evaluate_and_convert(&j, &[f("bool")], Kind::Bool).unwrap() == Narrowed::Bool(true),
        evaluate_and_convert(&j, &[f("null")], Kind::Null).unwrap() == Narrowed::Null,
        inner,
        evaluate_and_convert(&j, &[f("arr")], Kind::Array).unwrap()
            == Narrowed::Array(&elements),
    ];
    if let Some(failed_idx) = tests.iter().position(|&r| !r) {
        panic!("test idx: {} failed", failed_idx)
    }
}

#[test]
fn query_value_result_test_query_and_deserialize() {
    let j = sample();
    let tests = [
        evaluate_and_deserialize::<String>(&j, &[f("str")]).unwrap() == "s",
        evaluate_and_deserialize::<u8>(&j, &[f("nums"), f("u64")]).unwrap() == 123u8,
        evaluate_and_deserialize::<i8>(&j, &[f("nums"), f("i64")]).unwrap() == -123i8,
        evaluate_and_deserialize::<()>(&j, &[f("null")]).unwrap() == (),
    ];
    if let Some(failed_idx) = tests.iter().position(|&r| !r) {
        panic!("test idx: {} failed", failed_idx)
    }
}

#[test]
fn query_value_result_test_deserialize_into_custom_struct() {
    let j = obj(vec![("author", obj(vec![("name", s("jiftechnify")), ("age", num(31))]))]);
    let person = zip_results2(
        evaluate_and_deserialize::<String>(&j, &[f("author"), f("name")]),
        evaluate_and_deserialize::<u8>(&j, &[f("author"), f("age")]),
    );
    assert_eq!(person.unwrap(), ("jiftechnify".to_string(), 31u8));
}

#[test]
fn query_value_result_test_query_with_unwrapping() {
    let j = sample();
    let default_str = s("default");

    assert_eq!(apply_fallback(evaluate(&j, &[f("str")]), &default_str), &s("s"));
    assert_eq!(apply_fallback(evaluate(&j, &[f("unknown")]), &default_str), &s("default"));

    assert_eq!(
        apply_default::<u64>(evaluate_and_deserialize(&j, &[f("nums"), f("u64")])),
        123u64
    );
    assert_eq!(apply_default::<u64>(evaluate_and_deserialize(&j, &[f("unknown")])), 0u64);
    assert_eq!(apply_default::<String>(evaluate_and_deserialize(&j, &[f("unknown")])), "");

    assert_eq!(
        apply_fallback(evaluate_and_convert(&j, &[f("str")], Kind::Str), Narrowed::Str("default")),
        Narrowed::Str("s")
    );
    assert_eq!(
        apply_fallback(
            evaluate_and_convert(&j, &[f("nums"), f("u64")], Kind::Str),
            Narrowed::Str("not a string")
        ),
        Narrowed::Str("not a string")
    );
    assert_eq!(
        apply_fallback(
            evaluate_and_convert(&j, &[f("unknown")], Kind::Str),
            Narrowed::Str("default")
        ),
        Narrowed::Str("default")
    );

    assert_eq!(
        apply_default::<Vec<u8>>(evaluate_and_deserialize(&j, &[f("num_arr")])),
        vec![0, 1, 2]
    );
    assert_eq!(
        apply_default::<Vec<u8>>(evaluate_and_deserialize(&j, &[f("arr")])),
        Vec::<u8>::new()
    );
    assert_eq!(
        apply_fallback(evaluate_and_deserialize::<Vec<u8>>(&j, &[f("arr")]), vec![42]),
        vec![42]
    );
}

#[test]
fn query_value_result_test_deserialize_into_vec() {
    let j = sample();
    let tests = [
        evaluate_and_deserialize::<Vec<u8>>(&j, &[f("num_arr")]).unwrap() == vec![0, 1, 2],
        apply_default::<Vec<u8>>(evaluate_and_deserialize(&j, &[f("num_arr")])) == vec![0, 1, 2],
        apply_default::<Vec<u8>>(evaluate_and_deserialize(&j, &[f("arr")])) == Vec::<u8>::new(),
        apply_fallback(evaluate_and_deserialize::<Vec<u8>>(&j, &[f("arr")]), vec![42]) == vec![42],
    ];
    if let Some(failed_idx) = tests.iter().position(|&r| !r) {
        panic!("test idx: {} failed", failed_idx)
    }
}

#[test]
fn query_value_result_test_query_complex_expressions() {
    fn gen_value() -> Value {
        obj(vec![("x", num(1))])
    }
    let tuple = (obj(vec![("x", num(1))]),);
    let v = vec![obj(vec![("x", num(1))])];
    let mut immediate = obj(vec![("x", num(1))]);

    let tests = [
        evaluate(&obj(vec![("x", num(1))]), &[f("x")]).unwrap() == &num(1),
        evaluate_and_convert(&obj(vec![("x", num(1))]), &[f("x")], Kind::U64).unwrap()
            == Narrowed::U64(1),
        apply_fallback(
            evaluate_and_convert(&obj(vec![("x", num(1))]), &[f("x")], Kind::Str),
            Narrowed::Str("not str"),
        ) == Narrowed::Str("not str"),
        evaluate_mut(&mut immediate, &[f("x")]).unwrap() == &mut num(1),
        evaluate(&gen_value(), &[f("x")]).unwrap() == &num(1),
        evaluate_and_convert(&gen_value(), &[f("x")], Kind::U64).unwrap() == Narrowed::U64(1),
        evaluate(&tuple.0, &[f("x")]).unwrap() == &num(1),
        evaluate_and_convert(&tuple.0, &[f("x")], Kind::U64).unwrap() == Narrowed::U64(1),
        evaluate(&v[0], &[f("x")]).unwrap() == &num(1),
        evaluate_and_convert(&v[0], &[f("x")], Kind::U64).unwrap() == Narrowed::U64(1),
        apply_fallback(
            evaluate_and_convert(&v[0], &[f("x")], Kind::Str),
            Narrowed::Str("not str"),
        ) == Narrowed::Str("not str"),
    ];
    if let Some(failed_idx) = tests.iter().position(|&r| !r) {
        panic!("test idx: {} failed", failed_idx)
    }
}

#[test]
fn query_value_result_test_query_with_dynamic_indices() {
    let j = sample();

    let k = "str";
    assert_eq!(evaluate(&j, &[key(k)]).unwrap(), &s("s"));

    let obj_key = "obj";
    let inner_key = "inner";
    assert_eq!(evaluate(&j, &[key(obj_key), key(inner_key)]).unwrap(), &s("value"));

    let index = 0;
    assert_eq!(evaluate(&j, &[f("arr"), at(index)]).unwrap(), &s("first"));

    let arr_index = 1;
    assert_eq!(evaluate(&j, &[f("arr"), at(arr_index)]).unwrap(), &num(42));

    let key2 = "nums";
    assert_eq!(evaluate(&j, &[key(key2), f("u64")]).unwrap(), &num(123));

    let base_index = 1;
    assert_eq!(
        evaluate(&j, &[f("arr"), at(base_index + 1), f("hidden")]).unwrap(),
        &s("tale")
    );

    assert_eq!(evaluate_and_convert(&j, &[key(k)], Kind::Str).unwrap(), Narrowed::Str("s"));
    assert_eq!(
        evaluate_and_convert(&j, &[f("arr"), at(index)], Kind::Str).unwrap(),
        Narrowed::Str("first")
    );

    let missing_key = "missing";
    let fallback = s("fallback");
    assert_eq!(apply_fallback(evaluate(&j, &[key(missing_key)]), &fallback), &s("fallback"));

    let out_of_bounds = 999;
    let oob_val = s("oob");
    assert_eq!(
        apply_fallback(evaluate(&j, &[f("arr"), at(out_of_bounds)]), &oob_val),
        &s("oob")
    );
}

#[test]
fn query_value_result_test_query_with_dynamic_indices_mut() {
    let mut j = sample();

    let k = "str";
    {
        let val = evaluate_mut(&mut j, &[key(k)]).unwrap();
        *val = s("modified");
    }
    assert_eq!(evaluate(&j, &[f("str")]).unwrap(), &s("modified"));

    let index = 1;
    {
        let val = evaluate_mut(&mut j, &[f("arr"), at(index)]).unwrap();
        *val = num(100);
    }
    assert_eq!(evaluate(&j, &[f("arr"), at(1)]).unwrap(), &num(100));

    let obj_key = "obj";
    let dynamic_key = "dynamic_key";
    {
        let m = evaluate_as_object_mut(&mut j, &[key(obj_key)]).unwrap();
        m.insert("dynamic_key".to_string(), s("added"));
    }
    assert_eq!(evaluate(&j, &[f("obj"), key(dynamic_key)]).unwrap(), &s("added"));
}

#[test]
fn query_value_result_test_error_value_not_found() {
    let j = sample();
    let tests = [
        (evaluate(&j, &[f("unknown")]), ".unknown"),
        (evaluate(&j, &[f("nums"), f("i128")]), ".nums.i128"),
        (evaluate(&j, &[f("obj"), at(0)]), ".obj[0]"),
        (evaluate(&j, &[f("arr"), at(100)]), ".arr[100]"),
        (
            evaluate(
                &j,
                &[
                    f("obj"),
                    f("inner"),
                    f("not_here"),
                    f("oh"),
                    f("nothing"),
                    f("but"),
                    f("pain"),
                ],
            ),
            ".obj.inner.not_here",
        ),
    ];
    for (result, expected_path) in tests {
        if let Err(Error::ValueNotFoundAtPath(path)) = result {
            assert_eq!(path, expected_path);
        } else {
            panic!("expected ValueNotFoundAtPath error, but got: {:?}", result);
        }
    }
}

#[test]
fn query_value_result_test_error_as_cast_failed() {
    let j = sample();
    let tests = [
        (evaluate_and_convert(&j, &[f("str")], Kind::U64).unwrap_err(), "as_u64"),
        (evaluate_and_convert(&j, &[f("nums"), f("u64")], Kind::Str).unwrap_err(), "as_str"),
        (evaluate_and_convert(&j, &[f("obj")], Kind::Array).unwrap_err(), "as_array"),
        (evaluate_and_convert(&j, &[f("arr")], Kind::Object).unwrap_err(), "as_object"),
    ];
    for (result, expected_conv_name) in tests {
        if let Error::AsCastFailed(conv_name) = result {
            assert_eq!(conv_name, expected_conv_name);
        } else {
            panic!("expected AsCastFailed error, but got: {:?}", result);
        }
    }
}

#[test]
fn test_error_as_cast_failed_mut() {
    let mut j = sample();
    let tests = [
        (evaluate_as_array_mut(&mut j, &[f("obj")]).unwrap_err(), "as_array_mut"),
        (evaluate_as_object_mut(&mut j, &[f("arr")]).unwrap_err(), "as_object_mut"),
    ];
    for (result, expected_conv_name) in tests {
        if let Error::AsCastFailed(conv_name) = result {
            assert_eq!(conv_name, expected_conv_name);
        } else {
            panic!("expected AsCastFailed error, but got: {:?}", result);
        }
    }
}

#[test]
fn query_value_result_test_error_deserialization_failed() {
    let j = sample();
    let tests = [
        evaluate_and_deserialize::<u8>(&j, &[f("nums"), f("i64")]).unwrap_err(),
        evaluate_and_deserialize::<u8>(&j, &[f("str")]).unwrap_err(),
        evaluate_and_deserialize::<Vec<u8>>(&j, &[f("arr")]).unwrap_err(),
        evaluate_and_deserialize::<Vec<u8>>(&j, &[f("obj")]).unwrap_err(),
    ];
    for result in tests {
        assert!(matches!(result, Error::DeserializationFailed(_)));
    }
}

#[test]
fn test_error_display() {
    let j = sample();

    let err = evaluate(&j, &[f("unknown")]).unwrap_err();
    assert_eq!(err.message(), "value not found at the path: .unknown");

    let err = evaluate_and_convert(&j, &[f("str")], Kind::U64).unwrap_err();
    assert_eq!(err.message(), "casting with as_u64() failed");

    let err = evaluate_and_deserialize::<u8>(&j, &[f("nums"), f("i64")]).unwrap_err();
    assert!(err.message().starts_with("failed to deserialize the queried value:"));
}
