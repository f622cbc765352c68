//! Tests for volume control and ramping. Gains are in millionths
//! (1_000_000 = unity).

use ccplayer::volume::{RampType, VolumeControl, VolumeController, VolumeRamp, UNITY_GAIN,
    VOLUME_RAMP_SAMPLES};

#[test]
fn test_volume_controller() {
    let mut controller = VolumeController::new(2);

    // initial state
    assert_eq!(controller.get_volume(), UNITY_GAIN);
    assert!(!controller.is_muted());

    // volume setting
    controller.set_volume(500_000).unwrap();
    assert_eq!(controller.get_volume(), 500_000);

    // muting
    controller.mute();
    assert!(controller.is_muted());

    controller.unmute();
    assert!(!controller.is_muted());
    assert_eq!(controller.get_volume(), 500_000);
}

#[test]
fn test_channel_volume() {
    let mut controller = VolumeController::new(2);

    // channel volume
    controller.set_channel_volume(0, 700_000).unwrap();
    assert_eq!(controller.get_channel_volume(0).unwrap(), 700_000);

    // invalid channel
    assert!(controller.set_channel_volume(5, 500_000).is_err());
    assert!(controller.get_channel_volume(5).is_err());
}

#[test]
fn test_volume_ramp() {
    let mut ramp = VolumeRamp::new();
    ramp.duration_samples = 10;
    ramp.set_target(0);

    // ramping down from unity to zero over ten samples
    let mut values = Vec::new();
    for _ in 0..10 {
        values.push(ramp.next_value());
    }

    // decreasing, and the tenth sample is below a tenth of unity
    assert!(values[0] > values[9]);
    assert!(values[9] < 100_000);
}

#[test]
fn test_volume_ramp_scenario_ten_samples() {
    // ramp duration 10 samples, target 0 from unity: the tenth sampled
    // value is below 0.1 of unity and the values decrease monotonically
    let mut ramp = VolumeRamp::new();
    ramp.duration_samples = 10;
    ramp.set_target(0);

    let mut values = Vec::new();
    for _ in 0..10 {
        values.push(ramp.next_value());
    }
    for w in values.windows(2) {
        assert!(w[0] >= w[1]);
    }
    assert!(values[9] < 100_000);
    assert!(values[0] > values[9]);

    // after the ramp the gain stays exactly at the target
    assert_eq!(ramp.next_value(), 0);
    assert_eq!(ramp.next_value(), 0);
}

#[test]
fn test_volume_ramp_epsilon() {
    // a target within 0.001 of the current gain does not restart the ramp
    let mut ramp = VolumeRamp::new();
    let before = ramp.samples_processed;
    ramp.set_target(UNITY_GAIN - 500);
    assert_eq!(ramp.samples_processed, before);
    assert_eq!(ramp.target, UNITY_GAIN);
}

#[test]
fn cpal_output_test_volume_control() {
    let mut vol = VolumeControl::new();
    assert_eq!(vol.current, UNITY_GAIN);

    // with no ramp pending the gain is immediate
    let gain = vol.process_gain();
    assert_eq!(gain, UNITY_GAIN);

    // retargeting arms the full ramp
    vol.set_target(500_000);
    assert_eq!(vol.ramp_samples, VOLUME_RAMP_SAMPLES);

    // processing one sample moves the gain toward the target
    let _ = vol.process_gain();
    assert!(vol.current < UNITY_GAIN);
    assert!(vol.current > 500_000);
}

#[test]
fn test_volume_control_converges() {
    // after VOLUME_RAMP_SAMPLES samples the gain equals the target exactly
    let mut vol = VolumeControl::new();
    vol.set_target(250_000);
    let mut last = vol.current;
    for _ in 0..VOLUME_RAMP_SAMPLES {
        let g = vol.process_gain();
        assert!(g <= last); // monotonically down toward the target
        last = g;
    }
    assert_eq!(vol.current, 250_000);
    assert_eq!(vol.process_gain(), 250_000);
}

#[test]
fn test_process_gains_muted_and_scaled() {
    let mut controller = VolumeController::new(2);
    controller.set_ramp_duration(1);
    controller.set_ramp_type(RampType::Linear);

    // unmuted at half volume: every gain is at most half of unity
    controller.set_volume(500_000).unwrap();
    let gains = controller.process_gains(8, 2);
    assert_eq!(gains.len(), 8);
    assert!(gains.iter().all(|&g| g <= 500_000));

    // muted: all gains are zero
    controller.mute();
    let gains = controller.process_gains(4, 2);
    assert_eq!(gains, vec![0, 0, 0, 0]);
}
