use dagc::{Error, MonoAgc};

fn bits(x: f32) -> u32 {
    x.to_bits()
}

fn float(b: u32) -> f32 {
    f32::from_bits(b)
}

/// The per-sample rule, computed in hardware single precision: returns the
/// emitted sample and the next gain.
fn reference_step(gain: f32, x: f32, target: f32, d: f32) -> (f32, f32) {
    let scaled = x * gain;
    let y = (scaled * scaled) / target;
    let z = 1.0f32 + d * (1.0f32 - y);
    let step = if z.is_nan() || z < 0.1f32 { 0.1f32 } else { z };
    (scaled, gain * step)
}

#[test]
fn it_works() {
    let mut agc = MonoAgc::new(bits(0.001), bits(0.0001)).expect("unreachable");
    assert_eq!(agc.gain(), bits(1.0));
    assert!(!agc.is_gain_frozen());
    agc.freeze_gain(true);
    assert!(agc.is_gain_frozen());

    let mut samples = vec![bits(0.5), bits(1.0), bits(-0.2)];
    agc.process(&mut samples);
    assert_eq!(agc.gain(), bits(1.0));

    agc.freeze_gain(false);
    agc.process(&mut samples);
    assert_ne!(agc.gain(), bits(1.0));
}

#[test]
fn fresh_controller_has_unit_gain_and_is_active() {
    for target in [0.001f32, 1.0, 1e-30, 3.4e38] {
        for d in [0.0f32, 0.0001, 0.5, 1.0] {
            let agc = MonoAgc::new(bits(target), bits(d)).unwrap();
            assert_eq!(agc.gain(), bits(1.0));
            assert!(!agc.is_gain_frozen());
        }
    }
}

#[test]
fn invalid_target_rms_is_rejected() {
    for target in [0.0f32, -0.0, -1.0, f32::NAN, f32::INFINITY, f32::NEG_INFINITY] {
        for d in [0.0f32, 0.5, 1.0] {
            match MonoAgc::new(bits(target), bits(d)) {
                Err(Error::InvalidTargetRms { value }) => assert_eq!(value, bits(target)),
                other => panic!("expected InvalidTargetRms, got {:?}", other),
            }
        }
    }
}

#[test]
fn invalid_distortion_factor_is_rejected() {
    for target in [0.001f32, 1.0] {
        for d in [-0.1f32, 1.1, f32::NAN, -1.0, f32::INFINITY, f32::NEG_INFINITY] {
            match MonoAgc::new(bits(target), bits(d)) {
                Err(Error::InvalidDistortionFactor { value }) => assert_eq!(value, bits(d)),
                other => panic!("expected InvalidDistortionFactor, got {:?}", other),
            }
        }
    }
}

#[test]
fn distortion_factor_boundaries() {
    // Both ends of the closed interval are in, negative zero equals zero,
    // and the next pattern above one is out.
    assert!(MonoAgc::new(bits(1.0), bits(0.0)).is_ok());
    assert!(MonoAgc::new(bits(1.0), bits(-0.0)).is_ok());
    assert!(MonoAgc::new(bits(1.0), bits(1.0)).is_ok());
    let just_above_one = f32::from_bits(bits(1.0) + 1);
    assert!(MonoAgc::new(bits(1.0), bits(just_above_one)).is_err());
}

#[test]
fn target_rms_boundaries() {
    // The smallest positive subnormal and the largest finite value are in;
    // infinity and zero are out.
    assert!(MonoAgc::new(1, bits(0.5)).is_ok());
    assert!(MonoAgc::new(bits(f32::MAX), bits(0.5)).is_ok());
    assert!(MonoAgc::new(bits(f32::INFINITY), bits(0.5)).is_err());
    assert!(MonoAgc::new(bits(0.0), bits(0.5)).is_err());
}

#[test]
fn both_parameters_invalid_reports_target_first() {
    match MonoAgc::new(bits(-1.0), bits(2.0)) {
        Err(Error::InvalidTargetRms { value }) => assert_eq!(value, bits(-1.0)),
        other => panic!("expected InvalidTargetRms, got {:?}", other),
    }
}

#[test]
fn empty_frame_is_a_no_op() {
    let mut agc = MonoAgc::new(bits(0.001), bits(0.0001)).unwrap();
    let mut warmup = vec![bits(0.5)];
    agc.process(&mut warmup);
    let gain_before = agc.gain();
    let frozen_before = agc.is_gain_frozen();

    let mut empty: Vec<u32> = Vec::new();
    agc.process(&mut empty);
    assert_eq!(agc.gain(), gain_before);
    assert_eq!(agc.is_gain_frozen(), frozen_before);
    assert!(empty.is_empty());

    agc.freeze_gain(true);
    agc.process(&mut empty);
    assert_eq!(agc.gain(), gain_before);
    assert!(agc.is_gain_frozen());
}

#[test]
fn frozen_processing_only_scales() {
    let mut agc = MonoAgc::new(bits(0.01), bits(0.001)).unwrap();
    // Let the gain move away from one first.
    let mut warmup = vec![bits(0.5), bits(-0.7)];
    agc.process(&mut warmup);
    let gain = agc.gain();
    assert_ne!(gain, bits(1.0));

    agc.freeze_gain(true);
    for _ in 0..3 {
        let inputs = [0.25f32, -1.5, 0.0, 3.0];
        let mut frame: Vec<u32> = inputs.iter().map(|x| bits(*x)).collect();
        agc.process(&mut frame);
        assert_eq!(agc.gain(), gain);
        for (out, x) in frame.iter().zip(inputs.iter()) {
            assert_eq!(*out, bits(x * float(gain)));
        }
    }
}

#[test]
fn unfreezing_resumes_adaptation() {
    let mut agc = MonoAgc::new(bits(0.001), bits(0.0001)).unwrap();
    agc.freeze_gain(true);
    let mut frame = vec![bits(0.5), bits(1.0), bits(-0.2)];
    agc.process(&mut frame);
    let frozen_gain = agc.gain();
    assert_eq!(frozen_gain, bits(1.0));

    agc.freeze_gain(false);
    let mut frame2 = vec![bits(0.5), bits(1.0), bits(-0.2)];
    agc.process(&mut frame2);
    assert_ne!(agc.gain(), frozen_gain);
}

#[test]
fn matches_hardware_single_precision_arithmetic() {
    // Runs the published per-sample rule in hardware f32 alongside the
    // library and demands bit-identical emitted samples and gain.
    let target = 0.01f32;
    let d = 0.125f32;
    let inputs = [0.5f32, -0.25, 2.0, 0.003, -1.0, 0.0, 17.5];

    let mut agc = MonoAgc::new(bits(target), bits(d)).unwrap();
    let mut frame: Vec<u32> = inputs.iter().map(|x| bits(*x)).collect();
    agc.process(&mut frame);

    let mut gain = 1.0f32;
    let mut expected: Vec<u32> = Vec::new();
    for x in inputs {
        let (out, next) = reference_step(gain, x, target, d);
        expected.push(bits(out));
        gain = next;
    }
    assert_eq!(frame, expected);
    assert_eq!(agc.gain(), bits(gain));
}

#[test]
fn extreme_spike_hits_the_step_floor() {
    // With a unit target and a full-strength distortion factor, one loud
    // sample drives the raw step to 1 + (1 - 100) = -98: without the floor
    // the gain's sign would flip; with it the gain lands on exactly 0.1.
    let mut agc = MonoAgc::new(bits(1.0), bits(1.0)).unwrap();
    let mut frame = vec![bits(10.0)];
    agc.process(&mut frame);
    assert_eq!(frame[0], bits(10.0));
    assert_eq!(agc.gain(), bits(0.1));
}

#[test]
fn identical_histories_give_identical_results() {
    let make = || MonoAgc::new(bits(0.003), bits(0.01)).unwrap();
    let mut a = make();
    let mut b = make();
    let frames: [&[f32]; 3] = [&[0.4, -0.9, 0.02], &[], &[1.25, 0.125]];
    let toggles = [false, true, false];
    for (frame, freeze) in frames.iter().zip(toggles.iter()) {
        a.freeze_gain(*freeze);
        b.freeze_gain(*freeze);
        let mut fa: Vec<u32> = frame.iter().map(|x| bits(*x)).collect();
        let mut fb = fa.clone();
        a.process(&mut fa);
        b.process(&mut fb);
        assert_eq!(fa, fb);
        assert_eq!(a.gain(), b.gain());
    }
    assert_eq!(a.is_gain_frozen(), b.is_gain_frozen());
}

#[test]
fn zero_distortion_factor_never_adapts() {
    // With a zero factor the raw step is exactly one for any ordinary
    // sample, so even an active controller holds its gain.
    let mut agc = MonoAgc::new(bits(0.001), bits(0.0)).unwrap();
    let mut frame = vec![bits(0.5), bits(-2.0), bits(0.125)];
    agc.process(&mut frame);
    assert_eq!(agc.gain(), bits(1.0));
    assert_eq!(frame, vec![bits(0.5), bits(-2.0), bits(0.125)]);
}

#[test]
fn nan_sample_does_not_corrupt_the_gain() {
    // A NaN sample propagates into the emitted frame (inputs are not
    // sanitized), and the feedback step it produces is NaN; the step floor
    // replaces that with one tenth, so the gain itself stays a number.
    let mut agc = MonoAgc::new(bits(1.0), bits(0.5)).unwrap();
    let mut frame = vec![bits(f32::NAN)];
    agc.process(&mut frame);
    assert!(float(frame[0]).is_nan());
    assert_eq!(agc.gain(), bits(0.1));
}

#[test]
fn construct_with_negative_target_reports_it() {
    match MonoAgc::new(bits(-1.0), bits(0.5)) {
        Err(Error::InvalidTargetRms { value }) => assert_eq!(float(value), -1.0),
        other => panic!("expected InvalidTargetRms, got {:?}", other),
    }
}

#[test]
fn construct_with_oversized_factor_reports_it() {
    match MonoAgc::new(bits(1.0), bits(1.5)) {
        Err(Error::InvalidDistortionFactor { value }) => assert_eq!(float(value), 1.5),
        other => panic!("expected InvalidDistortionFactor, got {:?}", other),
    }
}
