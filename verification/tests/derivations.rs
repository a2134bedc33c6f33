use hall_angle::display::{actual_display, target_display};
use hall_angle::model::{ActualAngle, ConversionState, TargetVoltage};

fn voltage_bits(text: &str) -> Option<u64> {
    text.parse::<f64>().ok().map(f64::to_bits)
}

// Evaluate a target-voltage plan the way the boundary does: the exact zero
// needs no arithmetic, the cosine case is computed in floating point and a
// not-a-number result counts as absent.
fn target_value(plan: TargetVoltage) -> Option<f64> {
    match plan {
        TargetVoltage::Unknown => None,
        TargetVoltage::ExactZero => Some(0.0),
        TargetVoltage::Cosine { v0_bits, theta_deg } => {
            let t = f64::from_bits(v0_bits) * (theta_deg as f64).to_radians().cos();
            if t.is_nan() {
                None
            } else {
                Some(t)
            }
        }
    }
}

fn actual_value(plan: ActualAngle) -> Option<f64> {
    match plan {
        ActualAngle::Unknown => None,
        ActualAngle::Acos { v_bits, v0_bits } => {
            let t = (f64::from_bits(v_bits) / f64::from_bits(v0_bits)).acos().to_degrees();
            if t.is_nan() {
                None
            } else {
                Some(t)
            }
        }
    }
}

fn state_with(v0: &str, theta: &str, v: &str) -> ConversionState {
    let mut st = ConversionState::new(String::from("log"));
    st.set_v0(String::from(v0), voltage_bits(v0));
    st.set_theta(String::from(theta));
    st.set_v(String::from(v), voltage_bits(v));
    st
}

#[test]
fn target_voltage_is_exactly_zero_at_ninety() {
    let st = state_with("10", "90", "");
    assert_eq!(st.target_voltage(), TargetVoltage::ExactZero);
    let value = target_value(st.target_voltage()).unwrap();
    assert_eq!(value.to_bits(), 0.0f64.to_bits());
    let text = format!("{:.16}", value);
    assert_eq!(
        target_display(Some(&text)),
        "Target V = 0.0000000000000000"
    );
}

#[test]
fn target_voltage_matches_cosine_formula() {
    for (v0, theta) in [("10", 0i64), ("2.5", 30), ("7", 45), ("0.25", 60), ("100", 89)] {
        let st = state_with(v0, &theta.to_string(), "");
        let got = target_value(st.target_voltage()).unwrap();
        let v0_num: f64 = v0.parse().unwrap();
        let want = v0_num * (theta as f64).to_radians().cos();
        assert_eq!(got.to_bits(), want.to_bits());
    }
}

#[test]
fn actual_angle_matches_arccosine_formula() {
    let st = state_with("10", "0", "5");
    let got = actual_value(st.actual_angle()).unwrap();
    let want = (5.0f64 / 10.0f64).acos().to_degrees();
    assert_eq!(got.to_bits(), want.to_bits());
    assert!((got - 60.0).abs() < 1e-9);

    let st = state_with("4", "0", "4");
    let got = actual_value(st.actual_angle()).unwrap();
    assert_eq!(got.to_bits(), 0.0f64.to_bits());

    let st = state_with("8", "0", "-8");
    let got = actual_value(st.actual_angle()).unwrap();
    assert!((got - 180.0).abs() < 1e-9);
}

#[test]
fn actual_angle_absent_for_zero_reference() {
    let st = state_with("0", "0", "5");
    assert!(matches!(st.actual_angle(), ActualAngle::Acos { .. }));
    assert_eq!(actual_value(st.actual_angle()), None);

    let st = state_with("0", "0", "0");
    assert_eq!(actual_value(st.actual_angle()), None);
}

#[test]
fn actual_angle_absent_for_ratio_out_of_domain() {
    let st = state_with("10", "0", "20");
    assert_eq!(actual_value(st.actual_angle()), None);
    let st = state_with("10", "0", "-10.5");
    assert_eq!(actual_value(st.actual_angle()), None);
}

#[test]
fn actual_angle_absent_for_missing_inputs() {
    let st = state_with("junk", "0", "5");
    assert_eq!(st.actual_angle(), ActualAngle::Unknown);
    assert_eq!(actual_value(st.actual_angle()), None);
    let st = state_with("10", "0", "");
    assert_eq!(st.actual_angle(), ActualAngle::Unknown);
}

#[test]
fn target_display_end_to_end() {
    let mut st = state_with("10", "60", "");
    let value = target_value(st.target_voltage()).unwrap();
    let fixed = format!("{:.16}", value);
    // cos(60 degrees) in IEEE doubles is a hair above one half, and the
    // sixteen-digit rendering shows it.
    assert_eq!(target_display(Some(&fixed)), "Target V = 5.0000000000000009");
    st.toggle_scientific(true);
    let sci = format!("{:.8e}", value);
    assert_eq!(target_display(Some(&sci)), "Target V = 5.00000000e0");
}

#[test]
fn actual_display_end_to_end() {
    let st = state_with("10", "0", "5");
    let value = actual_value(st.actual_angle()).unwrap();
    let text = format!("{:0>6.3}", value);
    assert_eq!(actual_display(Some(&text)), "Actual angle = 60.000");
}

#[test]
fn displays_show_placeholder_when_absent() {
    assert_eq!(target_display(None), "Target V = ?");
    assert_eq!(actual_display(None), "Actual angle = ?");
}

#[test]
fn actual_display_pads_narrow_values() {
    let st = state_with("2", "0", "1.99");
    let value = actual_value(st.actual_angle()).unwrap();
    let text = format!("{:0>6.3}", value);
    assert_eq!(actual_display(Some(&text)), "Actual angle = 05.732");
}
