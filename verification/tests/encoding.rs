use sentinel_int::int_sentinel::IntSentinel;

#[test]
fn sentinel_is_the_largest_u64() {
    assert_eq!(IntSentinel::sentinel(), 18446744073709551615u64);
}

#[test]
fn max_value_is_one_below_the_sentinel() {
    assert_eq!(IntSentinel::max_value(), 18446744073709551614u64);
    assert_eq!(IntSentinel::max_value(), IntSentinel::sentinel() - 1);
}

#[test]
fn present_values_round_trip() {
    let values: Vec<u64> = vec![0, 1, 42, 1 << 32, u64::MAX / 2, u64::MAX - 1];
    for v in values {
        assert_eq!(IntSentinel::new_with_some(v).to_option(), Some(v));
        assert_eq!(IntSentinel::from(Some(v)).to_option(), Some(v));
    }
}

#[test]
fn max_value_can_be_stored() {
    let sentinel = IntSentinel::new_with_some(IntSentinel::max_value());
    assert_eq!(sentinel.to_option(), Some(18446744073709551614u64));
    assert_eq!(sentinel.to_u64_unchecked(), 18446744073709551614u64);
}

#[test]
fn absent_round_trips() {
    assert_eq!(IntSentinel::new_none().to_option(), None);
    assert_eq!(IntSentinel::from(None).to_option(), None);
}

#[test]
fn unchecked_new_of_the_sentinel_reads_as_none() {
    let sentinel = IntSentinel::unchecked_new(IntSentinel::sentinel());
    assert_eq!(sentinel.to_option(), None);
}

#[test]
fn unchecked_new_of_another_value_reads_as_some() {
    let sentinel = IntSentinel::unchecked_new(42);
    assert_eq!(sentinel.to_option(), Some(42u64));
}

#[test]
fn raw_value_of_none_is_the_sentinel() {
    assert_eq!(IntSentinel::new_none().to_u64_unchecked(), IntSentinel::sentinel());
    assert_eq!(IntSentinel::from(None).to_u64_unchecked(), 18446744073709551615u64);
}

#[test]
fn raw_value_of_some_is_the_value() {
    assert_eq!(IntSentinel::new_with_some(42).to_u64_unchecked(), 42);
    assert_eq!(IntSentinel::from(Some(42)).to_u64_unchecked(), 42);
    assert_eq!(IntSentinel::new_with_some(0).to_u64_unchecked(), 0);
}

#[test]
fn decoding_then_encoding_keeps_the_raw_value() {
    let raws: Vec<u64> = vec![0, 1, 42, u64::MAX - 1, u64::MAX];
    for raw in raws {
        let decoded = IntSentinel::unchecked_new(raw).to_option();
        let again = IntSentinel::from(decoded);
        assert_eq!(again.to_u64_unchecked(), raw);
        assert_eq!(again.to_option(), decoded);
    }
}

#[test]
fn into_option_agrees_with_to_option() {
    let some: Option<u64> = IntSentinel::new_with_some(7).into();
    assert_eq!(some, Some(7));
    let none: Option<u64> = IntSentinel::new_none().into();
    assert_eq!(none, None);
}

#[test]
fn debug_output_names_the_type() {
    let text = format!("{:?}", IntSentinel::new_with_some(42));
    assert!(text.contains("IntSentinel"));
    assert!(text.contains("42"));
}
