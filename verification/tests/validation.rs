use neural_runtime::validate::validate;
use neural_runtime::validate::ValidationError;
use neural_runtime::runtime::NeuralRuntime;

fn bits(values: &[f32]) -> Vec<u32> {
    values.iter().map(|v| v.to_bits()).collect()
}

#[test]
fn accepts_ordinary_inputs() {
    let v = bits(&[0.0, -1.0, 999.5, 1000.0, -1000.0]);
    assert_eq!(validate(&v), Ok(()));
}

#[test]
fn accepts_empty_input() {
    let v: Vec<u32> = Vec::new();
    assert_eq!(validate(&v), Ok(()));
}

#[test]
fn rejects_oversized_input() {
    let v = vec![0u32; 10001];
    assert_eq!(validate(&v), Err(ValidationError::SizeLimitExceeded));
}

#[test]
fn accepts_input_at_size_limit() {
    let v = vec![0u32; 10000];
    assert_eq!(validate(&v), Ok(()));
}

#[test]
fn rejects_nan() {
    let v = bits(&[f32::NAN]);
    assert_eq!(validate(&v), Err(ValidationError::NonFiniteValue));
}

#[test]
fn rejects_infinities() {
    let v = bits(&[f32::INFINITY]);
    assert_eq!(validate(&v), Err(ValidationError::NonFiniteValue));
    let v = bits(&[f32::NEG_INFINITY]);
    assert_eq!(validate(&v), Err(ValidationError::NonFiniteValue));
}

#[test]
fn rejects_out_of_bounds_magnitude() {
    let v = bits(&[2000.0]);
    assert_eq!(validate(&v), Err(ValidationError::OutOfBounds));
    let v = bits(&[-1000.5]);
    assert_eq!(validate(&v), Err(ValidationError::OutOfBounds));
}

#[test]
fn reports_first_violation_in_order() {
    // An out-of-bounds element before a NaN: the walk meets it first.
    let v = bits(&[1.0, 2000.0, f32::NAN]);
    assert_eq!(validate(&v), Err(ValidationError::OutOfBounds));
    // A NaN before an out-of-bounds element.
    let v = bits(&[1.0, f32::NAN, 2000.0]);
    assert_eq!(validate(&v), Err(ValidationError::NonFiniteValue));
}

#[test]
fn non_finite_wins_over_bounds_at_same_element() {
    // An infinity also has magnitude bits above the bound; the finiteness
    // check comes first.
    let v = bits(&[f32::INFINITY, 2000.0]);
    assert_eq!(validate(&v), Err(ValidationError::NonFiniteValue));
}

#[test]
fn size_limit_wins_over_element_checks() {
    let mut v = vec![0u32; 10001];
    v[0] = f32::NAN.to_bits();
    assert_eq!(validate(&v), Err(ValidationError::SizeLimitExceeded));
}

#[test]
fn failed_activation_leaves_state_untouched() {
    let mut rt = NeuralRuntime::new();
    let v = bits(&[2000.0]);
    assert!(rt.calculate_neural_activation(&v).is_err());
    assert_eq!(rt.get_operations_count(), 0);
    let v = bits(&[f32::NAN]);
    assert!(rt.calculate_neural_activation(&v).is_err());
    assert_eq!(rt.get_operations_count(), 0);
}
