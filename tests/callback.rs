use samp_timers::amx_manager::{marshal_params, AmxManager};
use samp_timers::callback::{
    is_blank, is_slow_callback, is_valid_callback_name, route_callback, validate_data,
    CallbackData, CallbackParam, DispatchRoute,
};
use samp_timers::error::TimerError;

#[test]
fn test_callback_name_validation() {
    assert!(is_valid_callback_name("ValidCallback"));
    assert!(is_valid_callback_name("_private_callback"));
    assert!(is_valid_callback_name("callback123"));
    assert!(is_valid_callback_name("OnPlayerConnect"));

    assert!(!is_valid_callback_name(""));
    assert!(!is_valid_callback_name("123invalid"));
    assert!(!is_valid_callback_name("invalid-name"));
    assert!(!is_valid_callback_name("invalid name"));
    assert!(!is_valid_callback_name("   "));
}

#[test]
fn test_callback_data_creation() {
    let mut data = CallbackData::new();
    assert_eq!(data.params.len(), 0);

    data.add_param(CallbackParam::Integer(42)).expect("Failed to add integer param");
    data.add_param(CallbackParam::Float(3.14f32.to_bits())).expect("Failed to add float param");
    data.add_param(CallbackParam::String("test".to_string())).expect("Failed to add string param");

    assert_eq!(data.params.len(), 3);
}

#[test]
fn test_callback_data_with_capacity() {
    let mut data = CallbackData::with_capacity(2);
    assert_eq!(data.params.len(), 0);
    assert!(data.params.capacity() >= 2);

    data.add_param(CallbackParam::Integer(100)).expect("Failed to add integer param");
    data.add_param(CallbackParam::String("capacity_test".to_string())).expect("Failed to add string param");

    assert_eq!(data.params.len(), 2);

    let data_new = CallbackData::new();
    assert_eq!(data_new.params.len(), 0);
}

#[test]
fn test_edge_case_callback_names() {
    let long_name = "a".repeat(65);
    assert!(!is_valid_callback_name(&long_name));

    let exact_name = "a".repeat(64);
    assert!(is_valid_callback_name(&exact_name));

    assert!(is_valid_callback_name("a"));
    assert!(is_valid_callback_name("_"));
    assert!(!is_valid_callback_name("1abc"));
    assert!(!is_valid_callback_name("-abc"));
    assert!(!is_valid_callback_name(" abc"));
    assert!(!is_valid_callback_name("abc "));
    assert!(!is_valid_callback_name(" abc "));
}

#[test]
fn callback_name_grammar_examples() {
    assert!(is_valid_callback_name("OnPlayerConnect"));
    assert!(!is_valid_callback_name(""));
    assert!(!is_valid_callback_name("123x"));
    assert!(!is_valid_callback_name(" abc"));
    assert!(!is_valid_callback_name("abc "));
    assert!(is_valid_callback_name(&"b".repeat(64)));
    assert!(!is_valid_callback_name(&"b".repeat(65)));
    assert!(!is_valid_callback_name("tab\tname"));
    assert!(!is_valid_callback_name("abc\n"));
    assert!(is_valid_callback_name("_1"));
}

#[test]
fn string_parameter_length_is_counted_in_bytes() {
    assert!(CallbackParam::String("x".repeat(1024)).validate().is_ok());
    let too_long = CallbackParam::String("x".repeat(1025)).validate();
    assert!(matches!(too_long, Err(TimerError::ParameterValidation(_))));
    // 342 chars of three bytes each make 1026 bytes.
    let wide = CallbackParam::String("\u{20ac}".repeat(342)).validate();
    assert!(matches!(wide, Err(TimerError::ParameterValidation(_))));
    assert!(CallbackParam::String("\u{20ac}".repeat(341)).validate().is_ok());
}

#[test]
fn non_finite_floats_are_rejected() {
    for f in [f32::NAN, f32::INFINITY, f32::NEG_INFINITY] {
        let r = CallbackParam::Float(f.to_bits()).validate();
        assert!(matches!(r, Err(TimerError::ParameterValidation(_))));
    }
    for f in [0.0f32, -1.5, f32::MAX, f32::MIN_POSITIVE, 1.0e-45] {
        assert!(CallbackParam::Float(f.to_bits()).validate().is_ok());
    }
}

#[test]
fn seventeenth_parameter_is_rejected() {
    let mut data = CallbackData::new();
    for i in 0..16 {
        data.add_param(CallbackParam::Integer(i)).unwrap();
    }
    let r = data.add_param(CallbackParam::Integer(16));
    assert!(matches!(r, Err(TimerError::ParameterValidation(_))));
    assert_eq!(data.params.len(), 16);
    assert!(data.validate().is_ok());
}

#[test]
fn invalid_parameter_is_not_added() {
    let mut data = CallbackData::new();
    let r = data.add_param(CallbackParam::Float(f32::NAN.to_bits()));
    assert!(matches!(r, Err(TimerError::ParameterValidation(_))));
    assert_eq!(data.params.len(), 0);
}

#[test]
fn validation_of_a_whole_set() {
    let mut data = CallbackData::new();
    data.params.push(CallbackParam::Integer(1));
    data.params.push(CallbackParam::String("y".repeat(2000)));
    assert!(matches!(data.validate(), Err(TimerError::ParameterValidation(_))));
    let mut crowded = CallbackData::new();
    for i in 0..17 {
        crowded.params.push(CallbackParam::Integer(i));
    }
    assert!(matches!(crowded.validate(), Err(TimerError::ParameterValidation(_))));
    assert!(validate_data(&None).is_ok());
    assert!(validate_data(&Some(crowded)).is_err());
}

#[test]
fn blank_names() {
    assert!(is_blank(""));
    assert!(is_blank("  \t"));
    assert!(!is_blank(" a "));
}

#[test]
fn dispatch_routes() {
    let mut bridge = AmxManager::new();
    let r = route_callback(&bridge, "   ", &None);
    assert!(matches!(r, Err(TimerError::InvalidCallback(s)) if s == "   "));

    let mut bad = CallbackData::new();
    bad.params.push(CallbackParam::Float(f32::INFINITY.to_bits()));
    let r = route_callback(&bridge, "OnTick", &Some(bad));
    assert!(matches!(r, Err(TimerError::ParameterValidation(_))));

    assert_eq!(route_callback(&bridge, "OnTick", &None).unwrap(), DispatchRoute::Simulated);
    bridge.register_amx(0x1000);
    assert_eq!(route_callback(&bridge, "OnTick", &None).unwrap(), DispatchRoute::Bridge);
}

#[test]
fn slow_callback_threshold() {
    assert!(!is_slow_callback(10));
    assert!(is_slow_callback(11));
    assert!(!is_slow_callback(0));
}

#[test]
fn marshalling_reverses_push_order() {
    let mut data = CallbackData::new();
    data.add_param(CallbackParam::Integer(5)).unwrap();
    data.add_param(CallbackParam::String("hi".to_string())).unwrap();
    let pushed = marshal_params(&Some(data)).unwrap();
    assert_eq!(pushed.len(), 2);
    assert!(matches!(&pushed[0], CallbackParam::String(s) if s == "hi"));
    assert!(matches!(&pushed[1], CallbackParam::Integer(5)));
    // The callee reads its first argument from the top of the stack.
    let seen: Vec<&CallbackParam> = pushed.iter().rev().collect();
    assert!(matches!(seen[0], CallbackParam::Integer(5)));
    assert!(matches!(seen[1], CallbackParam::String(s) if s == "hi"));
}

#[test]
fn marshalling_abandons_an_invalid_call() {
    let mut data = CallbackData::new();
    data.params.push(CallbackParam::Float(f32::NAN.to_bits()));
    data.params.push(CallbackParam::Integer(1));
    assert!(matches!(
        marshal_params(&Some(data)),
        Err(TimerError::ParameterValidation(m)) if m == "Invalid float"
    ));
    let mut long = CallbackData::new();
    long.params.push(CallbackParam::String("z".repeat(1025)));
    assert!(matches!(
        marshal_params(&Some(long)),
        Err(TimerError::ParameterValidation(m)) if m == "String too long"
    ));
    let mut crowded = CallbackData::new();
    for i in 0..17 {
        crowded.params.push(CallbackParam::Integer(i));
    }
    assert!(matches!(marshal_params(&Some(crowded)), Err(TimerError::ParameterValidation(_))));
    assert!(marshal_params(&None).unwrap().is_empty());
}

#[test]
fn float_cell_is_the_bit_pattern() {
    let mut data = CallbackData::new();
    data.add_param(CallbackParam::Float(10.0f32.to_bits())).unwrap();
    let pushed = marshal_params(&Some(data)).unwrap();
    assert!(matches!(pushed[0], CallbackParam::Float(0x4120_0000)));
}

#[test]
fn name_length_counts_chars() {
    assert!(is_valid_callback_name(&"\u{e9}".repeat(64)));
    assert!(!is_valid_callback_name(&"\u{e9}".repeat(65)));
}
