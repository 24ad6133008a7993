use log_bridge::json::to_json;
use log_bridge::json::JsonVal;
use log_bridge::message::format_message;
use log_bridge::message::LogArg;
use log_bridge::text::write_i64;
use log_bridge::text::write_u64;

#[test]
fn unsigned_decimal_digits() {
    let mut s = String::new();
    write_u64(0, &mut s);
    assert_eq!(s, "0");
    let mut s = String::new();
    write_u64(9, &mut s);
    assert_eq!(s, "9");
    let mut s = String::new();
    write_u64(10, &mut s);
    assert_eq!(s, "10");
    let mut s = String::new();
    write_u64(90210, &mut s);
    assert_eq!(s, "90210");
    let mut s = String::new();
    write_u64(u64::MAX, &mut s);
    assert_eq!(s, "18446744073709551615");
}

#[test]
fn signed_decimal_digits() {
    let mut s = String::new();
    write_i64(42, &mut s);
    assert_eq!(s, "42");
    let mut s = String::new();
    write_i64(-7, &mut s);
    assert_eq!(s, "-7");
    let mut s = String::new();
    write_i64(i64::MIN, &mut s);
    assert_eq!(s, "-9223372036854775808");
    let mut s = String::new();
    write_i64(i64::MAX, &mut s);
    assert_eq!(s, "9223372036854775807");
}

#[test]
fn json_scalars() {
    assert_eq!(to_json(&JsonVal::Null), "null");
    assert_eq!(to_json(&JsonVal::Bool(true)), "true");
    assert_eq!(to_json(&JsonVal::Bool(false)), "false");
    assert_eq!(to_json(&JsonVal::Int(-3)), "-3");
    assert_eq!(to_json(&JsonVal::Str(String::from("ab"))), "\"ab\"");
}

#[test]
fn json_string_escapes() {
    let v = JsonVal::Str(String::from("a\"b\\c\nd\te\r"));
    assert_eq!(to_json(&v), "\"a\\\"b\\\\c\\nd\\te\\r\"");
    let ctl = JsonVal::Str(String::from("\u{0008}\u{000c}\u{000b}\u{001f}\u{0000}"));
    assert_eq!(to_json(&ctl), "\"\\b\\f\\u000b\\u001f\\u0000\"");
}

#[test]
fn json_compound_values() {
    let arr = JsonVal::Arr(vec![JsonVal::Int(1), JsonVal::Null, JsonVal::Str(String::from("x"))]);
    assert_eq!(to_json(&arr), "[1,null,\"x\"]");
    assert_eq!(to_json(&JsonVal::Arr(vec![])), "[]");
    let obj = JsonVal::Obj(vec![
        (String::from("x"), JsonVal::Int(1)),
        (String::from("y"), JsonVal::Arr(vec![JsonVal::Bool(false)])),
    ]);
    assert_eq!(to_json(&obj), "{\"x\":1,\"y\":[false]}");
    assert_eq!(to_json(&JsonVal::Obj(vec![])), "{}");
}

#[test]
fn message_joins_with_single_spaces() {
    let args = vec![
        LogArg::Text(String::from("hi")),
        LogArg::Num(42),
        LogArg::Bool(true),
        LogArg::Null,
    ];
    assert_eq!(format_message(&args), Some(String::from("hi 42 true null")));
}

#[test]
fn message_of_captured_call_preserves_arguments() {
    // A captured call with arguments (1, "a", {x:1}).
    let args = vec![
        LogArg::Num(1),
        LogArg::Text(String::from("a")),
        LogArg::Obj(JsonVal::Obj(vec![(String::from("x"), JsonVal::Int(1))])),
    ];
    assert_eq!(format_message(&args), Some(String::from("1 a {\"x\":1}")));
}

#[test]
fn empty_call_gives_empty_message() {
    let args: Vec<LogArg> = vec![];
    assert_eq!(format_message(&args), Some(String::new()));
}

#[test]
fn unserializable_argument_skips_the_message() {
    let args = vec![LogArg::Num(1), LogArg::Unserializable, LogArg::Num(2)];
    assert_eq!(format_message(&args), None);
    let args = vec![LogArg::Unserializable];
    assert_eq!(format_message(&args), None);
}
