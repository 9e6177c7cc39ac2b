use value_layouts::nan_tagged::{
    combine, inputs, kernel, nils, operand, DomainViolation, Value, ValueKind, DATA_MASK,
    EXTERNAL_TYPE, NAN_MASK, NIL_TYPE, NUMBER_TYPE, TYPE_MASK,
};

fn ieee_sum(x: u64, y: u64) -> u64 {
    (f64::from_bits(x) + f64::from_bits(y)).to_bits()
}

fn ramp(i: usize) -> u64 {
    (i as f64 * 1.92).to_bits()
}

fn boxed(x: f64) -> Value {
    Value::from_number(x.to_bits())
}

fn kinds_of(v: &Value) -> usize {
    [v.is_nil(), v.is_number(), v.is_external()].iter().filter(|k| **k).count()
}

fn ordinary_patterns() -> Vec<u64> {
    vec![
        0.0f64.to_bits(),
        (-0.0f64).to_bits(),
        1.5f64.to_bits(),
        (-2.75f64).to_bits(),
        f64::MAX.to_bits(),
        f64::MIN.to_bits(),
        f64::MIN_POSITIVE.to_bits(),
        f64::EPSILON.to_bits(),
        1u64,
        0x000F_FFFF_FFFF_FFFF,
        f64::INFINITY.to_bits(),
        f64::NEG_INFINITY.to_bits(),
        f64::NAN.to_bits(),
        (-f64::NAN).to_bits(),
        0x7FF8_0000_0000_0000,
        0xFFF8_0000_0000_0000,
        0x7FF8_0000_0000_0001,
        0x7FF8_FFFF_FFFF_FFFF,
        0x7FF0_0000_0000_0001,
        0x7FF7_FFFF_FFFF_FFFF,
    ]
}

#[test]
fn nan_masks_are_the_documented_bits() {
    assert_eq!(NAN_MASK, 0b0_11111111111_1_000_000000000000000000000000000000000000000000000000);
    assert_eq!(TYPE_MASK, 0b0_00000000000_0_111_000000000000000000000000000000000000000000000000);
    assert_eq!(DATA_MASK, 0b0_00000000000_0_000_111111111111111111111111111111111111111111111111);
    assert_eq!(NAN_MASK & TYPE_MASK, 0);
    assert_eq!(NAN_MASK & DATA_MASK, 0);
    assert_eq!(TYPE_MASK & DATA_MASK, 0);
    assert_eq!(NAN_MASK | TYPE_MASK | DATA_MASK, 0x7FFF_FFFF_FFFF_FFFF);
    assert_eq!(NUMBER_TYPE, 0u64 << 48);
    assert_eq!(NIL_TYPE, 1u64 << 48);
    assert_eq!(EXTERNAL_TYPE, 2u64 << 48);
}

#[test]
fn nan_kind_segments() {
    assert_eq!(ValueKind::Number.type_segment(), 0);
    assert_eq!(ValueKind::Nil.type_segment(), 0x0001_0000_0000_0000);
    assert_eq!(ValueKind::External.type_segment(), 0x0002_0000_0000_0000);
}

#[test]
fn nan_value_is_one_word() {
    assert_eq!(std::mem::size_of::<Value>(), 8);
    let v = vec![Value::from_nil(), boxed(1.0), Value::from_external(1).unwrap()];
    assert_eq!(std::mem::size_of_val(&v[..]), 24);
}

#[test]
fn nan_nil_is_the_signature_with_the_nil_type() {
    let nil = Value::from_nil();
    assert_eq!(nil.get_nan_segment(), NAN_MASK);
    assert_eq!(nil.get_type_segment(), NIL_TYPE);
    assert_eq!(nil.get_data_segment(), 0);
    assert!(nil.is_nan());
    assert!(nil.is_nil());
    assert!(!nil.is_number());
    assert!(!nil.is_external());
    assert_eq!(nil, Value::from_number(0x7FF9_0000_0000_0000));
    assert!(nil.compare_type_segment(ValueKind::Nil));
    assert!(!nil.compare_type_segment(ValueKind::Number));
    assert!(!nil.compare_type_segment(ValueKind::External));
    assert_eq!(nil.as_number(), None);
    assert_eq!(nil.as_external(), None);
}

#[test]
fn nan_external_keeps_the_handle_in_the_data_segment() {
    for handle in [0u64, 1, 0x2A, 0x0000_8000_0000_0000, DATA_MASK] {
        let v = Value::from_external(handle).unwrap();
        assert_eq!(v.get_nan_segment(), NAN_MASK);
        assert_eq!(v.get_type_segment(), EXTERNAL_TYPE);
        assert_eq!(v.get_data_segment(), handle);
        assert!(v.is_external());
        assert!(!v.is_nil());
        assert!(!v.is_number());
        assert_eq!(v.as_external_unchecked(), handle);
        assert_eq!(v.as_external(), Some(handle));
        assert_eq!(v.as_number(), None);
    }
    assert_eq!(Value::from_external(0x2A), Ok(Value::from_number(0x7FFA_0000_0000_002A)));
}

#[test]
fn nan_external_too_wide_is_refused() {
    assert_eq!(Value::from_external(DATA_MASK + 1), Err(DomainViolation::HandleTooWide));
    assert_eq!(Value::from_external(1u64 << 48), Err(DomainViolation::HandleTooWide));
    assert_eq!(Value::from_external(1u64 << 63), Err(DomainViolation::HandleTooWide));
    assert_eq!(Value::from_external(u64::MAX), Err(DomainViolation::HandleTooWide));
    assert!(Value::from_external(DATA_MASK).is_ok());
}

#[test]
fn nan_number_round_trip_is_bit_exact() {
    for bits in ordinary_patterns() {
        let v = Value::from_number(bits);
        assert!(v.is_number());
        assert!(!v.is_nil());
        assert!(!v.is_external());
        assert_eq!(v.as_number_unchecked(), bits);
        assert_eq!(v.as_number(), Some(bits));
        assert_eq!(v.as_external(), None);
    }
    let zero = boxed(-0.0).as_number().map(f64::from_bits).unwrap();
    assert!(zero == 0.0 && zero.is_sign_negative());
}

#[test]
fn nan_results_of_arithmetic_are_numbers() {
    let produced = [
        0.1 + 0.2,
        1.0 / 3.0,
        1.0e308 * 10.0,
        -1.0e308 * 10.0,
        1.0 / f64::INFINITY,
        f64::MIN_POSITIVE / 4.0,
        (2.0f64).sqrt(),
        f64::INFINITY - f64::INFINITY,
        0.0 * f64::INFINITY,
        (0.0f64 / 0.0) + 1.0,
    ];
    for x in produced {
        let v = boxed(x);
        assert!(v.is_number());
        assert!(!v.is_nil());
        assert!(!v.is_external());
        assert_eq!(v.as_number(), Some(x.to_bits()));
    }
}

#[test]
fn nan_is_nan_tests_the_signature_only() {
    assert!(!boxed(1.0).is_nan());
    assert!(!boxed(f64::INFINITY).is_nan());
    assert!(!Value::from_number(0x7FF0_0000_0000_0001).is_nan());
    assert!(!Value::from_number(0x7FF7_FFFF_FFFF_FFFF).is_nan());
    assert!(Value::from_number(0x7FF8_0000_0000_0000).is_nan());
    assert!(Value::from_number(0xFFF8_0000_0000_0000).is_nan());
    assert!(Value::from_nil().is_nan());
    assert_eq!(boxed(1.0).get_nan_segment(), 0x3FF0_0000_0000_0000);
}

#[test]
fn nan_reserved_patterns_are_taken_for_what_the_type_says() {
    let as_nil = Value::from_number(0x7FF9_0000_0000_0000);
    assert!(as_nil.is_nil());
    assert_eq!(as_nil.as_number(), None);
    let as_nil_with_data = Value::from_number(0xFFF9_0000_0000_0007);
    assert!(as_nil_with_data.is_nil());
    let as_external = Value::from_number(0x7FFA_0000_0000_002A);
    assert!(as_external.is_external());
    assert_eq!(as_external.as_external(), Some(0x2A));
    assert_eq!(as_external.as_number(), None);
}

#[test]
fn nan_with_another_type_segment_is_a_number() {
    for segment in [0u64, 3, 4, 5, 6, 7] {
        for sign in [0u64, 1 << 63] {
            let bits = sign | NAN_MASK | (segment << 48) | 0x11;
            let v = Value::from_number(bits);
            assert!(v.is_nan());
            assert!(v.is_number());
            assert!(!v.is_nil());
            assert!(!v.is_external());
            assert_eq!(kinds_of(&v), 1);
            assert_eq!(v.as_number(), Some(bits));
            assert_eq!(v.as_number_unchecked(), bits);
            assert_eq!(v.as_external(), None);
            assert_eq!(v.get_type_segment(), segment << 48);
            assert_eq!(v.get_data_segment(), 0x11);
        }
    }
    let v = Value::from_number(0x7FFB_0000_0000_0000);
    assert!(v.is_number() && !v.is_nil() && !v.is_external());
    assert_eq!(v.as_number(), Some(0x7FFB_0000_0000_0000));
}

#[test]
fn nan_every_value_is_of_one_kind() {
    let mut values = vec![
        Value::from_nil(),
        Value::from_external(0).unwrap(),
        Value::from_external(DATA_MASK).unwrap(),
        Value::from_number(0x7FF9_0000_0000_0000),
        Value::from_number(0x7FFA_0000_0000_0000),
    ];
    for bits in ordinary_patterns() {
        values.push(Value::from_number(bits));
    }
    for exponent_and_quiet in [0u64, 0x3FF0_0000_0000_0000, 0x7FF0_0000_0000_0000, NAN_MASK] {
        for segment in 0u64..8 {
            for data in [0u64, 1, DATA_MASK] {
                for sign in [0u64, 1 << 63] {
                    values.push(Value::from_number(sign | exponent_and_quiet | (segment << 48) | data));
                }
            }
        }
    }
    for v in values {
        assert_eq!(kinds_of(&v), 1);
        assert_eq!(v.is_number(), v.as_number().is_some());
        assert_eq!(v.is_external(), v.as_external().is_some());
    }
}

#[test]
fn nan_copies_keep_their_kind() {
    let source = boxed(4.5);
    let copy = source;
    assert_eq!(copy, source);
    assert!(copy.is_number() && source.is_number());
    let nil = Value::from_nil();
    let nil_copy = nil;
    assert!(nil.is_nil() && nil_copy.is_nil());
}

#[test]
fn nan_combine_table() {
    let handle = Value::from_external(4).unwrap();
    assert_eq!(combine(&boxed(2.0), &boxed(3.0), &ieee_sum), boxed(5.0));
    assert_eq!(combine(&Value::from_nil(), &boxed(1.0), &ieee_sum), Value::from_nil());
    assert_eq!(combine(&boxed(1.0), &Value::from_nil(), &ieee_sum), Value::from_nil());
    assert_eq!(combine(&Value::from_nil(), &Value::from_nil(), &ieee_sum), Value::from_nil());
    assert_eq!(combine(&handle, &boxed(1.0), &ieee_sum), Value::from_nil());
    assert_eq!(combine(&boxed(1.0), &handle, &ieee_sum), Value::from_nil());
    assert_eq!(combine(&boxed(2.0), &boxed(3.0), &ieee_sum).as_number(), Some(5.0f64.to_bits()));
    let not_a_number = combine(&boxed(f64::INFINITY), &boxed(f64::NEG_INFINITY), &ieee_sum);
    assert!(not_a_number.is_number());
    assert!(f64::from_bits(not_a_number.as_number().unwrap()).is_nan());
}

#[test]
fn nan_combine_takes_a_nan_with_another_type_segment_for_a_number() {
    let first = |x: u64, _y: u64| x;
    let second = |_x: u64, y: u64| y;
    let other = Value::from_number(0x7FFB_0000_0000_0000);
    assert_eq!(combine(&other, &boxed(1.0), &first), other);
    assert_eq!(combine(&boxed(1.0), &other, &second), other);
    assert_eq!(combine(&other, &boxed(1.0), &second), boxed(1.0));
    assert_eq!(combine(&other, &Value::from_nil(), &first), Value::from_nil());
    let sum = combine(&other, &boxed(1.0), &ieee_sum);
    assert_eq!(kinds_of(&sum), 1);
    assert!(sum.as_number().map_or(true, |bits| f64::from_bits(bits).is_nan()));
}

#[test]
fn nan_combine_stores_a_colliding_sum_as_it_is() {
    let to_nil_pattern = |_x: u64, _y: u64| 0x7FF9_0000_0000_0000u64;
    let r = combine(&boxed(1.0), &boxed(2.0), &to_nil_pattern);
    assert_eq!(r.get_nan_segment() | r.get_type_segment() | r.get_data_segment(), 0x7FF9_0000_0000_0000);
    assert!(r.is_nil());
    assert!(!r.is_number());
    let to_external_pattern = |_x: u64, _y: u64| 0x7FFA_0000_0000_0005u64;
    let r = combine(&boxed(1.0), &boxed(2.0), &to_external_pattern);
    assert!(r.is_external());
    assert_eq!(r.as_external(), Some(5));
}

#[test]
fn nan_combine_hands_the_operands_to_the_addition_in_order() {
    let first = |x: u64, _y: u64| x;
    let second = |_x: u64, y: u64| y;
    assert_eq!(combine(&Value::from_number(10), &Value::from_number(20), &first).as_number(), Some(10));
    assert_eq!(combine(&Value::from_number(10), &Value::from_number(20), &second).as_number(), Some(20));
}

#[test]
fn nan_operand_is_nil_at_multiples_of_the_rate() {
    assert!(operand(0, 13, &ramp).is_nil());
    assert!(operand(13, 13, &ramp).is_nil());
    assert_eq!(operand(2, 13, &ramp).as_number(), Some(3.84f64.to_bits()));
    assert_eq!(operand(14, 13, &ramp).as_number(), Some((14.0f64 * 1.92).to_bits()));
}

#[test]
fn nan_inputs_follow_the_rule_at_every_index() {
    let v = inputs(40, 13, &ramp);
    assert_eq!(v.len(), 40);
    for i in 0..40 {
        if i % 13 == 0 {
            assert_eq!(v[i], Value::from_nil());
        } else {
            assert_eq!(v[i].as_number(), Some((i as f64 * 1.92).to_bits()));
        }
    }
    assert!(inputs(0, 13, &ramp).is_empty());
}

#[test]
fn nan_nils_is_nil_throughout() {
    let v = nils(17);
    assert_eq!(v.len(), 17);
    assert!(v.iter().all(|e| *e == Value::from_nil()));
    assert!(nils(0).is_empty());
}

#[test]
fn nan_kernel_combines_elementwise() {
    let handle = Value::from_external(8).unwrap();
    let x = vec![boxed(2.0), Value::from_nil(), boxed(1.0), handle, boxed(0.5)];
    let y = vec![boxed(3.0), boxed(1.0), Value::from_nil(), boxed(1.0), boxed(0.25)];
    let mut results = vec![boxed(99.0); 5];
    kernel(&x, &y, &mut results, &ieee_sum);
    let expected = vec![boxed(5.0), Value::from_nil(), Value::from_nil(), Value::from_nil(), boxed(0.75)];
    assert_eq!(results, expected);
    kernel(&x, &y, &mut results, &ieee_sum);
    assert_eq!(results, expected);
}
