//! Tests for device-type detection and the device cache.

use ccplayer::audio::{AudioDevice, AudioDeviceType};
use ccplayer::device::{guess_device_type, DeviceCache};

#[test]
fn cpal_output_test_device_type_detection() {
    assert_eq!(guess_device_type("Realtek HD Audio"), AudioDeviceType::Speakers);
    assert_eq!(guess_device_type("USB Headphones"), AudioDeviceType::Headphones);
    assert_eq!(guess_device_type("HDMI Output"), AudioDeviceType::Hdmi);
    assert_eq!(guess_device_type("Bluetooth Speaker"), AudioDeviceType::Bluetooth);
    assert_eq!(guess_device_type("Unknown Device"), AudioDeviceType::Unknown);
}

#[test]
fn device_test_device_type_detection() {
    assert_eq!(guess_device_type("Realtek HD Audio"), AudioDeviceType::Speakers);
    assert_eq!(guess_device_type("USB Headphones"), AudioDeviceType::Headphones);
    assert_eq!(guess_device_type("HDMI Output"), AudioDeviceType::Hdmi);
    assert_eq!(guess_device_type("Unknown Device"), AudioDeviceType::Unknown);
}

#[test]
fn test_device_type_more_buckets() {
    assert_eq!(guess_device_type("S/PDIF Digital Out"), AudioDeviceType::Digital);
    assert_eq!(guess_device_type("Virtual Cable"), AudioDeviceType::Virtual);
    assert_eq!(guess_device_type("Gaming Headset"), AudioDeviceType::Headphones);
}

#[test]
fn test_device_cache() {
    let mut cache = DeviceCache::new();

    let devices = vec![
        AudioDevice {
            name: "Device 1".to_string(),
            id: "dev1".to_string(),
            is_default: true,
            sample_rates: vec![44100, 48000],
            max_channels: 2,
            device_type: AudioDeviceType::Speakers,
        },
        AudioDevice {
            name: "Device 2".to_string(),
            id: "dev2".to_string(),
            is_default: false,
            sample_rates: vec![48000],
            max_channels: 2,
            device_type: AudioDeviceType::Headphones,
        },
    ];

    cache.update(devices);

    assert_eq!(cache.devices.len(), 2);
    assert_eq!(cache.by_id.len(), 2);
    assert_eq!(cache.default_id, Some("dev1".to_string()));
}
