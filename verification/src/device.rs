//! Audio device bookkeeping: classifying devices by their names and
//! caching the enumerated device list for quick lookups.
//!
//! Device enumeration itself talks to the platform audio host and is
//! the embedder's concern; this module holds the decisions made on the
//! enumerated data.

use vstd::prelude::*;
use crate::audio::{AudioDevice, AudioDeviceType};

verus! {

/// Whether `needle` occurs as a contiguous substring of `hay`.
pub open spec fn contains_seq(hay: Seq<char>, needle: Seq<char>) -> bool {
    exists|i: int|
        0 <= i <= hay.len() - needle.len() && #[trigger] hay.subrange(i, i + needle.len())
            == needle
}

/// What `str::to_lowercase` returns; a function of the characters
/// alone.
pub uninterp spec fn lower_of(s: Seq<char>) -> Seq<char>;

/// Relies on `str::to_lowercase`: the lowercase mapping of the string,
/// depending on its characters alone.
#[verifier::external_body]
fn to_lowercase(s: &str) -> (r: String)
    ensures
        r@ == lower_of(s@),
{
    s.to_lowercase()
}

/// Relies on `str::contains` with a string pattern: true exactly when
/// the pattern occurs as a contiguous substring.
#[verifier::external_body]
fn str_contains(hay: &str, needle: &str) -> (r: bool)
    ensures
        r == contains_seq(hay@, needle@),
{
    hay.contains(needle)
}

/// The device type read off a lowercased device name. Bluetooth marks
/// take precedence, then the common buckets in a fixed order.
pub open spec fn device_type_of(lower: Seq<char>) -> AudioDeviceType {
    if contains_seq(lower, "bluetooth"@) || contains_seq(lower, "bt"@) {
        AudioDeviceType::Bluetooth
    } else if contains_seq(lower, "speaker"@) || contains_seq(lower, "realtek"@) {
        AudioDeviceType::Speakers
    } else if contains_seq(lower, "headphone"@) || contains_seq(lower, "headset"@) {
        AudioDeviceType::Headphones
    } else if contains_seq(lower, "hdmi"@) {
        AudioDeviceType::Hdmi
    } else if contains_seq(lower, "spdif"@) || contains_seq(lower, "digital"@) {
        AudioDeviceType::Digital
    } else if contains_seq(lower, "usb"@) {
        AudioDeviceType::Usb
    } else if contains_seq(lower, "virtual"@) || contains_seq(lower, "cable"@) {
        AudioDeviceType::Virtual
    } else {
        AudioDeviceType::Unknown
    }
}

/// Guess a device's type from its name, case-insensitively.
pub fn guess_device_type(name: &str) -> (r: AudioDeviceType)
    ensures
        r == device_type_of(lower_of(name@)),
{
    let lower = to_lowercase(name);
    let l = lower.as_str();
    if str_contains(l, "bluetooth") || str_contains(l, "bt") {
        AudioDeviceType::Bluetooth
    } else if str_contains(l, "speaker") || str_contains(l, "realtek") {
        AudioDeviceType::Speakers
    } else if str_contains(l, "headphone") || str_contains(l, "headset") {
        AudioDeviceType::Headphones
    } else if str_contains(l, "hdmi") {
        AudioDeviceType::Hdmi
    } else if str_contains(l, "spdif") || str_contains(l, "digital") {
        AudioDeviceType::Digital
    } else if str_contains(l, "usb") {
        AudioDeviceType::Usb
    } else if str_contains(l, "virtual") || str_contains(l, "cable") {
        AudioDeviceType::Virtual
    } else {
        AudioDeviceType::Unknown
    }
}

/// The view of an optional owned string.
pub open spec fn opt_str_view(o: Option<String>) -> Option<Seq<char>> {
    match o {
        Some(s) => Some(s@),
        None => None,
    }
}

/// The default-device id after walking `devs` in order, starting from
/// `prior`: the id of the last device flagged as default, if any.
pub open spec fn default_id_after(
    devs: Seq<AudioDevice>,
    prior: Option<Seq<char>>,
) -> Option<Seq<char>>
    decreases devs.len(),
{
    if devs.len() == 0 {
        prior
    } else {
        default_id_after(
            devs.drop_first(),
            if devs[0].is_default {
                Some(devs[0].id@)
            } else {
                prior
            },
        )
    }
}

/// Cache of the enumerated devices with an id-to-index lookup list.
pub struct DeviceCache {
    /// All available devices.
    pub devices: Vec<AudioDevice>,
    /// Device lookup: id paired with its index in `devices`.
    pub by_id: Vec<(String, usize)>,
    /// Default device id.
    pub default_id: Option<String>,
}

impl DeviceCache {
    pub fn new() -> (r: Self)
        ensures
            r.devices@.len() == 0,
            r.by_id@.len() == 0,
            r.default_id.is_none(),
    {
        DeviceCache { devices: Vec::new(), by_id: Vec::new(), default_id: None }
    }

    /// Replace the cached list: the lookup list pairs every device's id
    /// with its index, and the default id follows the last device
    /// flagged as default (staying as it was if none is flagged).
    pub fn update(&mut self, devices: Vec<AudioDevice>)
        ensures
            final(self).devices == devices,
            final(self).by_id@.len() == devices@.len(),
            forall|j: int|
                0 <= j < devices@.len() ==> (#[trigger] final(self).by_id@[j]).0@
                    == devices@[j].id@ && final(self).by_id@[j].1 == j,
            opt_str_view(final(self).default_id) == default_id_after(
                devices@,
                opt_str_view(old(self).default_id),
            ),
    {
        let ghost prior0 = opt_str_view(self.default_id);
        proof {
            assert(devices@.subrange(0, devices@.len() as int) =~= devices@);
        }
        let mut by_id: Vec<(String, usize)> = Vec::new();
        let mut idx: usize = 0;
        while idx < devices.len()
            invariant
                idx <= devices@.len(),
                by_id@.len() == idx,
                forall|j: int|
                    0 <= j < idx ==> (#[trigger] by_id@[j]).0@ == devices@[j].id@
                        && by_id@[j].1 == j,
                default_id_after(devices@, prior0) == default_id_after(
                    devices@.subrange(idx as int, devices@.len() as int),
                    opt_str_view(self.default_id),
                ),
            decreases devices@.len() - idx,
        {
            let ghost rest = devices@.subrange(idx as int, devices@.len() as int);
            by_id.push((devices[idx].id.clone(), idx));
            if devices[idx].is_default {
                self.default_id = Some(devices[idx].id.clone());
            }
            proof {
                assert(rest.drop_first() =~= devices@.subrange(
                    idx + 1,
                    devices@.len() as int,
                ));
                assert(rest[0] == devices@[idx as int]);
            }
            idx = idx + 1;
        }
        self.devices = devices;
        self.by_id = by_id;
        proof {
            assert(devices@.subrange(devices@.len() as int, devices@.len() as int)
                =~= Seq::<AudioDevice>::empty());
        }
    }
}

} // verus!
