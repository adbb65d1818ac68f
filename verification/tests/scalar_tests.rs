use graphql_core::scalar::{f64_bits_of_big_u64, f64_bits_of_i32, MyScalarValue, MyScalarValueVisitor};

#[test]
fn visit_bool_and_back() {
    let v = MyScalarValueVisitor.visit_bool(true);
    assert_eq!(v, MyScalarValue::Boolean(true));
    assert_eq!(v.as_boolean(), Some(true));
    assert_eq!(v.as_int(), None);
}

#[test]
fn visit_i32_and_back() {
    let v = MyScalarValueVisitor.visit_i32(-7);
    assert_eq!(v, MyScalarValue::Int(-7));
    assert_eq!(v.as_int(), Some(-7));
    assert_eq!(v.as_boolean(), None);
}

#[test]
fn visit_i64_narrows_small_values() {
    assert_eq!(MyScalarValueVisitor.visit_i64(42), MyScalarValue::Int(42));
    assert_eq!(
        MyScalarValueVisitor.visit_i64(i64::from(i32::MIN)),
        MyScalarValue::Int(i32::MIN)
    );
    assert_eq!(
        MyScalarValueVisitor.visit_i64(4294967297),
        MyScalarValue::Long(4294967297)
    );
    assert_eq!(
        MyScalarValueVisitor.visit_i64(i64::from(i32::MAX) + 1),
        MyScalarValue::Long(i64::from(i32::MAX) + 1)
    );
}

#[test]
fn visit_u32_widens_when_needed() {
    assert_eq!(MyScalarValueVisitor.visit_u32(7), MyScalarValue::Int(7));
    assert_eq!(
        MyScalarValueVisitor.visit_u32(i32::MAX as u32),
        MyScalarValue::Int(i32::MAX)
    );
    assert_eq!(
        MyScalarValueVisitor.visit_u32(i32::MAX as u32 + 1),
        MyScalarValue::Long(i64::from(i32::MAX) + 1)
    );
    assert_eq!(
        MyScalarValueVisitor.visit_u32(u32::MAX),
        MyScalarValue::Long(u32::MAX as i64)
    );
}

#[test]
fn visit_u64_within_signed_range_equals_visit_i64() {
    // A value fitting the signed 64-bit range decodes exactly as the
    // signed value would.
    let n: u64 = 4294967297;
    assert_eq!(
        MyScalarValueVisitor.visit_u64(n),
        MyScalarValueVisitor.visit_i64(n as i64)
    );
    assert_eq!(
        MyScalarValueVisitor.visit_u64(n),
        MyScalarValue::Long(4294967297)
    );
    assert_eq!(
        MyScalarValueVisitor.visit_u64(i64::MAX as u64),
        MyScalarValue::Long(i64::MAX)
    );
}

#[test]
fn visit_u64_beyond_signed_range_is_lossy_float() {
    // Beyond the signed 64-bit range the decoder falls back to the
    // float the value rounds to, exactly as the hardware cast does.
    for v in [
        i64::MAX as u64 + 1,
        u64::MAX,
        u64::MAX - 1,
        (1u64 << 63) + 1,
        (1u64 << 63) + 1024,
        (1u64 << 63) + 1025,
        (1u64 << 63) + 2048 + 1024,
        (1u64 << 63) + 4095,
    ] {
        assert_eq!(
            MyScalarValueVisitor.visit_u64(v),
            MyScalarValue::Float((v as f64).to_bits()),
            "decoding {} as float",
            v
        );
    }
}

#[test]
fn visit_f64_keeps_bits() {
    let bits = (1.5f64).to_bits();
    let v = MyScalarValueVisitor.visit_f64(bits);
    assert_eq!(v, MyScalarValue::Float(bits));
    assert_eq!(v.as_float(), Some(bits));
}

#[test]
fn visit_str_and_string_round_trip() {
    let v = MyScalarValueVisitor.visit_str("hello");
    assert_eq!(v, MyScalarValue::String("hello".to_owned()));
    assert_eq!(v.as_str(), Some("hello"));
    assert_eq!(v.as_string(), Some("hello".to_owned()));
    let v2 = MyScalarValueVisitor.visit_string("world".to_owned());
    assert_eq!(v2.into_string(), Some("world".to_owned()));
}

#[test]
fn accessors_reject_wrong_variants() {
    assert_eq!(MyScalarValue::Long(1).as_int(), None);
    assert_eq!(MyScalarValue::Int(1).as_long(), None);
    assert_eq!(MyScalarValue::Boolean(true).as_string(), None);
    assert_eq!(MyScalarValue::Int(1).as_str(), None);
    assert_eq!(MyScalarValue::Long(1).as_float(), None);
    assert_eq!(MyScalarValue::String("x".to_owned()).as_boolean(), None);
    assert_eq!(MyScalarValue::Int(3).into_string(), None);
}

#[test]
fn as_float_widens_int_exactly() {
    for i in [0i32, 1, -1, 5, -5, 1023, i32::MAX, i32::MIN, i32::MIN + 1] {
        assert_eq!(
            MyScalarValue::Int(i).as_float(),
            Some((i as f64).to_bits()),
            "widening {} to float",
            i
        );
    }
}

#[test]
fn integer_float_bits_match_hardware_casts() {
    for i in [0i32, 1, -1, 2, 3, -3, 255, -256, 65537, i32::MAX, i32::MIN] {
        assert_eq!(f64_bits_of_i32(i), (i as f64).to_bits(), "bits of {}", i);
    }
    for v in [
        1u64 << 63,
        (1u64 << 63) + 1,
        (1u64 << 63) + 1024,
        (1u64 << 63) + 1025,
        (1u64 << 63) + 2048,
        (1u64 << 63) + 2048 + 1024,
        u64::MAX,
        u64::MAX - 2047,
    ] {
        assert_eq!(f64_bits_of_big_u64(v), (v as f64).to_bits(), "bits of {}", v);
    }
}
