use lib_swiss::swiss_ephm::{
    calculate_ut, classify, close, decode_text, readiness_violation, set_ephe_path, text_buffer,
    Body, BodyResult, CalculationError, CalculationResult, EclipticAndNutationResult, Ephemeris,
    Misuse, MisuseKind,
};

fn ready_engine() -> Ephemeris {
    let mut engine = Ephemeris::new();
    set_ephe_path(&mut engine, false, None, false);
    engine
}

fn bits(values: [f64; 6]) -> [u64; 6] {
    values.map(f64::to_bits)
}

fn message_buffer(text: &[u8]) -> Vec<u8> {
    let mut buffer = text_buffer();
    buffer[..text.len()].copy_from_slice(text);
    buffer
}

fn physical_bodies() -> Vec<Body> {
    (0..=20).map(|code| Body::from_code(code).unwrap()).collect()
}

#[test]
fn success_for_a_body_holds_three_and_three() {
    let out = bits([199.5, 0.25, 0.997, 0.99, -0.01, 0.0001]);
    for body in physical_bodies() {
        let outcome = classify(body, 0, &out, String::new());
        assert_eq!(
            outcome,
            Ok(CalculationResult::Body(BodyResult {
                pos: vec![199.5f64.to_bits(), 0.25f64.to_bits(), 0.997f64.to_bits()],
                vel: vec![0.99f64.to_bits(), (-0.01f64).to_bits(), 0.0001f64.to_bits()],
            }))
        );
    }
}

#[test]
fn success_for_the_pseudo_body_holds_four_angles() {
    let out = bits([23.44, 23.43, 0.004, -0.002, 7.0, 8.0]);
    let outcome = classify(Body::EclipticNutation, 0, &out, String::new());
    assert_eq!(
        outcome,
        Ok(CalculationResult::EclipticAndNutation(EclipticAndNutationResult {
            ecliptic_true_obliquity: 23.44f64.to_bits(),
            ecliptic_mean_obliquity: 23.43f64.to_bits(),
            nutation_lng: 0.004f64.to_bits(),
            nutation_obliquity: (-0.002f64).to_bits(),
        }))
    );
}

#[test]
fn failure_carries_code_and_message_and_no_result() {
    let out = bits([1.0, 2.0, 3.0, 4.0, 5.0, 6.0]);
    for body in [Body::Sun, Body::EclipticNutation, Body::Vesta] {
        let outcome = classify(body, -1, &out, "jd 9999999.0 outside range".to_string());
        assert_eq!(
            outcome,
            Err(CalculationError { code: -1, msg: "jd 9999999.0 outside range".to_string() })
        );
    }
    let positive = classify(Body::Moon, 258, &out, "other ephemeris used".to_string());
    assert_eq!(positive, Err(CalculationError { code: 258, msg: "other ephemeris used".to_string() }));
}

#[test]
fn numbers_pass_through_bit_for_bit() {
    let out = [f64::NAN.to_bits(), 0x7ff8_0000_0000_0001, (-0.0f64).to_bits(), 0, u64::MAX, 1];
    match classify(Body::Mars, 0, &out, String::new()) {
        Ok(CalculationResult::Body(result)) => {
            assert_eq!(result.pos, vec![out[0], out[1], out[2]]);
            assert_eq!(result.vel, vec![out[3], out[4], out[5]]);
        }
        other => panic!("{:?}", other),
    }
}

#[test]
fn computation_before_configuration_is_a_violation() {
    let engine = Ephemeris::new();
    assert_eq!(
        readiness_violation(&engine, "calculate_ut"),
        Some(Misuse { kind: MisuseKind::NotConfigured, operation: "calculate_ut".to_string() })
    );
}

#[test]
fn computation_after_close_is_a_violation() {
    let mut engine = ready_engine();
    close(&mut engine);
    assert_eq!(
        readiness_violation(&engine, "calculate_ut"),
        Some(Misuse { kind: MisuseKind::UsedAfterClose, operation: "calculate_ut".to_string() })
    );
}

#[test]
fn computation_outside_coverage_is_a_recoverable_error() {
    let engine = ready_engine();
    let out = bits([0.0; 6]);
    let errbuf = message_buffer(b"jd 625000.500000 outside Moshier planet range -3000.00 .. 3000.00 ");
    assert_eq!(readiness_violation(&engine, "calculate_ut"), None);
    assert!(decode_text(&errbuf).is_some());
    match calculate_ut(&engine, Body::Jupiter, -1, &out, &errbuf) {
        Err(error) => {
            assert_ne!(error.code, 0);
            assert_eq!(error.code, -1);
            assert!(!error.msg.is_empty());
            assert_eq!(error.msg, "jd 625000.500000 outside Moshier planet range -3000.00 .. 3000.00 ");
        }
        other => panic!("{:?}", other),
    }
}

#[test]
fn message_is_cut_at_its_terminator() {
    let engine = ready_engine();
    let out = bits([0.0; 6]);
    let r = calculate_ut(&engine, Body::Sun, -1, &out, b"short\0leftover of a longer message\0");
    assert_eq!(r, Err(CalculationError { code: -1, msg: "short".to_string() }));
    let garbage = calculate_ut(&engine, Body::Sun, -1, &out, b"short\0\xff\xfe");
    assert_eq!(garbage, Err(CalculationError { code: -1, msg: "short".to_string() }));
}

#[test]
fn malformed_message_is_found_before_the_reply_is_used() {
    assert_eq!(decode_text(b"\xff\xff\0"), None);
    assert_eq!(decode_text(b"no file\0\xff\xff"), Some("no file".to_string()));
}

#[test]
fn ready_computation_yields_the_shape_that_the_body_selects() {
    let engine = ready_engine();
    let out = bits([1.0, 2.0, 3.0, 4.0, 5.0, 6.0]);
    for body in physical_bodies() {
        match calculate_ut(&engine, body, 0, &out, &text_buffer()) {
            Ok(CalculationResult::Body(result)) => {
                assert_eq!(result.pos.len(), 3);
                assert_eq!(result.vel.len(), 3);
                assert_eq!(result.pos, vec![1.0f64.to_bits(), 2.0f64.to_bits(), 3.0f64.to_bits()]);
                assert_eq!(result.vel, vec![4.0f64.to_bits(), 5.0f64.to_bits(), 6.0f64.to_bits()]);
            }
            other => panic!("{:?}", other),
        }
    }
    match calculate_ut(&engine, Body::EclipticNutation, 0, &out, &text_buffer()) {
        Ok(CalculationResult::EclipticAndNutation(angles)) => {
            assert_eq!(f64::from_bits(angles.ecliptic_true_obliquity), 1.0);
            assert_eq!(f64::from_bits(angles.ecliptic_mean_obliquity), 2.0);
            assert_eq!(f64::from_bits(angles.nutation_lng), 3.0);
            assert_eq!(f64::from_bits(angles.nutation_obliquity), 4.0);
        }
        other => panic!("{:?}", other),
    }
}

#[test]
fn success_ignores_a_warning_in_the_message() {
    let engine = ready_engine();
    let out = bits([1.0, 2.0, 3.0, 4.0, 5.0, 6.0]);
    let r = calculate_ut(&engine, Body::Moon, 0, &out, &message_buffer(b"using Moshier eph."));
    assert!(matches!(r, Ok(CalculationResult::Body(_))));
}

#[test]
fn failure_for_the_pseudo_body_holds_no_angles() {
    let engine = ready_engine();
    let out = bits([23.44, 23.43, 0.004, -0.002, 0.0, 0.0]);
    let r = calculate_ut(&engine, Body::EclipticNutation, -1, &out, &message_buffer(b"no file"));
    assert_eq!(r, Err(CalculationError { code: -1, msg: "no file".to_string() }));
}

#[test]
fn error_as_one_line_of_text() {
    let error = CalculationError { code: -1, msg: "no file".to_string() };
    assert_eq!(error.to_string(), "CalculationError { code: -1, message: no file }");
    let other = CalculationError { code: 258, msg: String::new() };
    assert_eq!(other.to_string(), "CalculationError { code: 258, message:  }");
}
