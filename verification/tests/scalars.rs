use gbln_ffi::accessors::{
    gbln_value_as_bool, gbln_value_as_f32, gbln_value_as_f64, gbln_value_as_i16,
    gbln_value_as_i32, gbln_value_as_i64, gbln_value_as_i8, gbln_value_as_string,
    gbln_value_as_u16, gbln_value_as_u32, gbln_value_as_u64, gbln_value_as_u8,
    gbln_value_is_null,
};
use gbln_ffi::constructors::{
    gbln_value_free, gbln_value_new_bool, gbln_value_new_f32, gbln_value_new_f64,
    gbln_value_new_i16, gbln_value_new_i32, gbln_value_new_i64, gbln_value_new_i8,
    gbln_value_new_null, gbln_value_new_u16, gbln_value_new_u32, gbln_value_new_u64,
    gbln_value_new_u8,
};
use gbln_ffi::containers::gbln_value_type;
use gbln_ffi::{GblnValue, GblnValueType, Value};

#[test]
fn signed_integers_read_back() {
    let mut ok = false;
    let v = gbln_value_new_i8(-128);
    assert_eq!(gbln_value_as_i8(Some(v.inner()), Some(&mut ok)), -128);
    assert!(ok);
    ok = false;
    let v = gbln_value_new_i16(i16::MIN);
    assert_eq!(gbln_value_as_i16(Some(v.inner()), Some(&mut ok)), i16::MIN);
    assert!(ok);
    ok = false;
    let v = gbln_value_new_i32(-42);
    assert_eq!(gbln_value_as_i32(Some(v.inner()), Some(&mut ok)), -42);
    assert!(ok);
    ok = false;
    let v = gbln_value_new_i64(i64::MAX);
    assert_eq!(gbln_value_as_i64(Some(v.inner()), Some(&mut ok)), i64::MAX);
    assert!(ok);
}

#[test]
fn unsigned_integers_read_back() {
    let mut ok = false;
    let v = gbln_value_new_u8(255);
    assert_eq!(gbln_value_as_u8(Some(v.inner()), Some(&mut ok)), 255);
    assert!(ok);
    ok = false;
    let v = gbln_value_new_u16(65535);
    assert_eq!(gbln_value_as_u16(Some(v.inner()), Some(&mut ok)), 65535);
    assert!(ok);
    ok = false;
    let v = gbln_value_new_u32(7);
    assert_eq!(gbln_value_as_u32(Some(v.inner()), Some(&mut ok)), 7);
    assert!(ok);
    ok = false;
    let v = gbln_value_new_u64(u64::MAX);
    assert_eq!(gbln_value_as_u64(Some(v.inner()), Some(&mut ok)), u64::MAX);
    assert!(ok);
}

#[test]
fn floats_read_back_bit_for_bit() {
    let mut ok = false;
    let v = gbln_value_new_f32(1.5f32.to_bits());
    let bits = gbln_value_as_f32(Some(v.inner()), Some(&mut ok));
    assert!(ok);
    assert_eq!(f32::from_bits(bits), 1.5f32);

    ok = false;
    let v = gbln_value_new_f64((-0.25f64).to_bits());
    let bits = gbln_value_as_f64(Some(v.inner()), Some(&mut ok));
    assert!(ok);
    assert_eq!(f64::from_bits(bits), -0.25f64);

    ok = false;
    let nan = f64::NAN.to_bits();
    let v = gbln_value_new_f64(nan);
    assert_eq!(gbln_value_as_f64(Some(v.inner()), Some(&mut ok)), nan);
    assert!(ok);
}

#[test]
fn bool_reads_back() {
    let mut ok = false;
    let v = gbln_value_new_bool(true);
    assert!(gbln_value_as_bool(Some(v.inner()), Some(&mut ok)));
    assert!(ok);
    ok = false;
    let v = gbln_value_new_bool(false);
    assert!(!gbln_value_as_bool(Some(v.inner()), Some(&mut ok)));
    assert!(ok);
}

#[test]
fn no_numeric_coercion_between_widths() {
    let v = gbln_value_new_i32(5);
    let mut ok = true;
    assert_eq!(gbln_value_as_i64(Some(v.inner()), Some(&mut ok)), 0);
    assert!(!ok);
    ok = true;
    assert_eq!(gbln_value_as_i16(Some(v.inner()), Some(&mut ok)), 0);
    assert!(!ok);
    ok = true;
    assert_eq!(gbln_value_as_u32(Some(v.inner()), Some(&mut ok)), 0);
    assert!(!ok);
}

#[test]
fn mismatch_gives_zero_of_the_asked_type() {
    let v = gbln_value_new_bool(true);
    let h = Some(v.inner());
    let mut ok = true;
    assert_eq!(gbln_value_as_i8(h, Some(&mut ok)), 0);
    assert!(!ok);
    ok = true;
    assert_eq!(gbln_value_as_u8(h, Some(&mut ok)), 0);
    assert!(!ok);
    ok = true;
    assert_eq!(gbln_value_as_u16(h, Some(&mut ok)), 0);
    assert!(!ok);
    ok = true;
    assert_eq!(gbln_value_as_u64(h, Some(&mut ok)), 0);
    assert!(!ok);
    ok = true;
    assert_eq!(f32::from_bits(gbln_value_as_f32(h, Some(&mut ok))), 0.0f32);
    assert!(!ok);
    ok = true;
    assert_eq!(f64::from_bits(gbln_value_as_f64(h, Some(&mut ok))), 0.0f64);
    assert!(!ok);
    ok = true;
    assert_eq!(gbln_value_as_string(h, Some(&mut ok)), None);
    assert!(!ok);

    let n = gbln_value_new_u8(9);
    ok = true;
    assert!(!gbln_value_as_bool(Some(n.inner()), Some(&mut ok)));
    assert!(!ok);
}

#[test]
fn absent_handle_gives_defaults() {
    let mut ok = true;
    assert_eq!(gbln_value_as_i8(None, Some(&mut ok)), 0);
    assert!(!ok);
    ok = true;
    assert_eq!(gbln_value_as_i16(None, Some(&mut ok)), 0);
    assert!(!ok);
    ok = true;
    assert_eq!(gbln_value_as_i32(None, Some(&mut ok)), 0);
    assert!(!ok);
    ok = true;
    assert_eq!(gbln_value_as_i64(None, Some(&mut ok)), 0);
    assert!(!ok);
    ok = true;
    assert_eq!(gbln_value_as_u8(None, Some(&mut ok)), 0);
    assert!(!ok);
    ok = true;
    assert_eq!(gbln_value_as_u16(None, Some(&mut ok)), 0);
    assert!(!ok);
    ok = true;
    assert_eq!(gbln_value_as_u32(None, Some(&mut ok)), 0);
    assert!(!ok);
    ok = true;
    assert_eq!(gbln_value_as_u64(None, Some(&mut ok)), 0);
    assert!(!ok);
    ok = true;
    assert_eq!(gbln_value_as_f32(None, Some(&mut ok)), 0);
    assert!(!ok);
    ok = true;
    assert_eq!(gbln_value_as_f64(None, Some(&mut ok)), 0);
    assert!(!ok);
    ok = true;
    assert!(!gbln_value_as_bool(None, Some(&mut ok)));
    assert!(!ok);
    ok = true;
    assert_eq!(gbln_value_as_string(None, Some(&mut ok)), None);
    assert!(!ok);
    assert!(gbln_value_is_null(None));
    assert_eq!(gbln_value_type(None), GblnValueType::Null);
}

#[test]
fn accessors_work_without_a_place_for_the_flag() {
    let v = gbln_value_new_i32(11);
    assert_eq!(gbln_value_as_i32(Some(v.inner()), None), 11);
    assert_eq!(gbln_value_as_i64(Some(v.inner()), None), 0);
    assert_eq!(gbln_value_as_i32(None, None), 0);
    assert_eq!(gbln_value_as_string(Some(v.inner()), None), None);
}

#[test]
fn null_probe_tells_null_from_other_values() {
    let null = gbln_value_new_null();
    assert!(gbln_value_is_null(Some(null.inner())));
    assert_eq!(gbln_value_type(Some(null.inner())), GblnValueType::Null);
    let zero = gbln_value_new_i32(0);
    assert!(!gbln_value_is_null(Some(zero.inner())));
    let no = gbln_value_new_bool(false);
    assert!(!gbln_value_is_null(Some(no.inner())));
}

#[test]
fn type_tag_follows_the_variant() {
    assert_eq!(gbln_value_type(Some(gbln_value_new_i8(0).inner())), GblnValueType::I8);
    assert_eq!(gbln_value_type(Some(gbln_value_new_i16(0).inner())), GblnValueType::I16);
    assert_eq!(gbln_value_type(Some(gbln_value_new_i32(0).inner())), GblnValueType::I32);
    assert_eq!(gbln_value_type(Some(gbln_value_new_i64(0).inner())), GblnValueType::I64);
    assert_eq!(gbln_value_type(Some(gbln_value_new_u8(0).inner())), GblnValueType::U8);
    assert_eq!(gbln_value_type(Some(gbln_value_new_u16(0).inner())), GblnValueType::U16);
    assert_eq!(gbln_value_type(Some(gbln_value_new_u32(0).inner())), GblnValueType::U32);
    assert_eq!(gbln_value_type(Some(gbln_value_new_u64(0).inner())), GblnValueType::U64);
    assert_eq!(gbln_value_type(Some(gbln_value_new_f32(0).inner())), GblnValueType::F32);
    assert_eq!(gbln_value_type(Some(gbln_value_new_f64(0).inner())), GblnValueType::F64);
    assert_eq!(gbln_value_type(Some(gbln_value_new_bool(true).inner())), GblnValueType::Bool);
    assert_eq!(gbln_value_type(Some(&Value::Str(String::from("x")))), GblnValueType::Str);
    assert_eq!(gbln_value_type(Some(&Value::Object(Vec::new()))), GblnValueType::Object);
    assert_eq!(gbln_value_type(Some(&Value::Array(Vec::new()))), GblnValueType::Array);
    assert_eq!(GblnValueType::from(&Value::U16(3)), GblnValueType::U16);
}

#[test]
fn type_tag_numbers_are_stable() {
    let expected = [
        (GblnValueType::I8, 0),
        (GblnValueType::I16, 1),
        (GblnValueType::I32, 2),
        (GblnValueType::I64, 3),
        (GblnValueType::U8, 4),
        (GblnValueType::U16, 5),
        (GblnValueType::U32, 6),
        (GblnValueType::U64, 7),
        (GblnValueType::F32, 8),
        (GblnValueType::F64, 9),
        (GblnValueType::Str, 10),
        (GblnValueType::Bool, 11),
        (GblnValueType::Null, 12),
        (GblnValueType::Object, 13),
        (GblnValueType::Array, 14),
    ];
    for (tag, number) in expected {
        assert_eq!(tag.code(), number);
    }
}

#[test]
fn handle_wraps_and_unwraps_a_value() {
    let handle = GblnValue::new(Value::U32(77));
    assert_eq!(handle.inner(), &Value::U32(77));
    assert_eq!(handle.into_inner(), Value::U32(77));
    let mut handle = GblnValue::new(Value::Null);
    *handle.inner_mut() = Value::Bool(true);
    assert_eq!(handle.inner(), &Value::Bool(true));
    gbln_value_free(Some(handle));
    gbln_value_free(None);
}
