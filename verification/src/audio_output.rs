//! The audio provider's output: the devices it reports and which of them are
//! the defaults.
use vstd::prelude::*;

verus! {

/// Whether a device plays sound (a sink) or records it (a source).
#[derive(Debug, Clone, Copy, PartialEq, Eq, Structural)]
pub enum DeviceType {
    Playback,
    Recording,
}

/// An audio device as the provider reports it.
#[derive(Debug)]
pub struct AudioDevice {
    pub name: String,
    pub device_id: String,
    pub device_type: DeviceType,
    /// The volume in whole percent.
    pub volume: u32,
    pub is_muted: bool,
    pub is_default_playback: bool,
    pub is_default_recording: bool,
}

/// What an [`AudioDevice`] holds, with its texts as character sequences.
#[verifier::ext_equal]
pub struct AudioDeviceView {
    pub name: Seq<char>,
    pub device_id: Seq<char>,
    pub device_type: DeviceType,
    pub volume: u32,
    pub is_muted: bool,
    pub is_default_playback: bool,
    pub is_default_recording: bool,
}

impl View for AudioDevice {
    type V = AudioDeviceView;

    open spec fn view(&self) -> AudioDeviceView {
        AudioDeviceView {
            name: self.name@,
            device_id: self.device_id@,
            device_type: self.device_type,
            volume: self.volume,
            is_muted: self.is_muted,
            is_default_playback: self.is_default_playback,
            is_default_recording: self.is_default_recording,
        }
    }
}

impl Clone for AudioDevice {
    fn clone(&self) -> (res: AudioDevice)
        ensures
            res@ == self@,
    {
        AudioDevice {
            name: self.name.clone(),
            device_id: self.device_id.clone(),
            device_type: self.device_type,
            volume: self.volume,
            is_muted: self.is_muted,
            is_default_playback: self.is_default_playback,
            is_default_recording: self.is_default_recording,
        }
    }
}

/// The views of a sequence of devices.
pub open spec fn device_views(devices: Seq<AudioDevice>) -> Seq<AudioDeviceView> {
    devices.map_values(|d: AudioDevice| d@)
}

/// The view of an optional device.
pub open spec fn optional_device_view(device: Option<AudioDevice>) -> Option<AudioDeviceView> {
    match device {
        Some(d) => Some(d@),
        None => None,
    }
}

/// Every device, the playback and recording devices, and the default
/// playback and recording devices.
#[derive(Debug)]
pub struct AudioOutput {
    pub all_devices: Vec<AudioDevice>,
    pub playback_devices: Vec<AudioDevice>,
    pub recording_devices: Vec<AudioDevice>,
    pub default_playback_device: Option<AudioDevice>,
    pub default_recording_device: Option<AudioDevice>,
}

/// What an [`AudioOutput`] holds.
#[verifier::ext_equal]
pub struct AudioOutputView {
    pub all_devices: Seq<AudioDeviceView>,
    pub playback_devices: Seq<AudioDeviceView>,
    pub recording_devices: Seq<AudioDeviceView>,
    pub default_playback_device: Option<AudioDeviceView>,
    pub default_recording_device: Option<AudioDeviceView>,
}

impl View for AudioOutput {
    type V = AudioOutputView;

    open spec fn view(&self) -> AudioOutputView {
        AudioOutputView {
            all_devices: device_views(self.all_devices@),
            playback_devices: device_views(self.playback_devices@),
            recording_devices: device_views(self.recording_devices@),
            default_playback_device: optional_device_view(self.default_playback_device),
            default_recording_device: optional_device_view(self.default_recording_device),
        }
    }
}

impl Default for AudioOutput {
    fn default() -> (res: AudioOutput)
        ensures
            res@.all_devices.len() == 0,
            res@.playback_devices.len() == 0,
            res@.recording_devices.len() == 0,
            res@.default_playback_device is None,
            res@.default_recording_device is None,
    {
        AudioOutput {
            all_devices: Vec::new(),
            playback_devices: Vec::new(),
            recording_devices: Vec::new(),
            default_playback_device: None,
            default_recording_device: None,
        }
    }
}

/// The devices of `devices` whose type is `device_type`, in their order.
pub open spec fn devices_of_type(devices: Seq<AudioDeviceView>, device_type: DeviceType) -> Seq<
    AudioDeviceView,
>
    decreases devices.len(),
{
    if devices.len() == 0 {
        Seq::empty()
    } else {
        let rest = devices_of_type(devices.drop_last(), device_type);
        if devices.last().device_type == device_type {
            rest.push(devices.last())
        } else {
            rest
        }
    }
}

/// Whether a device is the default one of its kind: the default sink for a
/// playback device, the default source for a recording device.
pub open spec fn is_default_of_type(device: AudioDeviceView, device_type: DeviceType) -> bool {
    &&& device.device_type == device_type
    &&& match device_type {
        DeviceType::Playback => device.is_default_playback,
        DeviceType::Recording => device.is_default_recording,
    }
}

/// The last device of `devices` that is the default one of type
/// `device_type`, if any.
pub open spec fn last_default_of_type(devices: Seq<AudioDeviceView>, device_type: DeviceType) -> Option<
    AudioDeviceView,
>
    decreases devices.len(),
{
    if devices.len() == 0 {
        None
    } else if is_default_of_type(devices.last(), device_type) {
        Some(devices.last())
    } else {
        last_default_of_type(devices.drop_last(), device_type)
    }
}

/// Each device is either a playback or a recording device, so the two lists
/// together hold as many devices as the list of all devices.
pub proof fn lemma_device_types_partition(devices: Seq<AudioDeviceView>)
    ensures
        devices_of_type(devices, DeviceType::Playback).len() + devices_of_type(
            devices,
            DeviceType::Recording,
        ).len() == devices.len(),
    decreases devices.len(),
{
    if devices.len() > 0 {
        lemma_device_types_partition(devices.drop_last());
    }
}

/// A device is in the list of its type exactly when it is in the list of
/// all devices and has that type.
pub proof fn lemma_devices_of_type_members(
    devices: Seq<AudioDeviceView>,
    device_type: DeviceType,
    d: AudioDeviceView,
)
    ensures
        devices_of_type(devices, device_type).contains(d) <==> (devices.contains(d)
            && d.device_type == device_type),
    decreases devices.len(),
{
    if devices.len() > 0 {
        let rest = devices.drop_last();
        lemma_devices_of_type_members(rest, device_type, d);
        assert(devices =~= rest.push(devices.last()));
        let sub = devices_of_type(rest, device_type);
        if devices.last().device_type == device_type {
            assert(sub.push(devices.last()).contains(d) <==> (sub.contains(d) || d
                == devices.last())) by {
                if sub.push(devices.last()).contains(d) {
                    let k = choose|k: int|
                        0 <= k < sub.push(devices.last()).len() && sub.push(devices.last())[k]
                            == d;
                    if k < sub.len() {
                        assert(sub[k] == d);
                    }
                }
                if sub.contains(d) {
                    let k = choose|k: int| 0 <= k < sub.len() && sub[k] == d;
                    assert(sub.push(devices.last())[k] == d);
                }
                if d == devices.last() {
                    assert(sub.push(devices.last())[sub.len() as int] == d);
                }
            }
        }
        assert(devices.contains(d) <==> (rest.contains(d) || d == devices.last())) by {
            if devices.contains(d) {
                let k = choose|k: int| 0 <= k < devices.len() && devices[k] == d;
                if k < rest.len() {
                    assert(rest[k] == d);
                }
            }
            if rest.contains(d) {
                let k = choose|k: int| 0 <= k < rest.len() && rest[k] == d;
                assert(devices[k] == d);
            }
            if d == devices.last() {
                assert(devices[devices.len() - 1] == d);
            }
        }
    }
}

/// The default device of a type is reported exactly when some device is the
/// default one of that type, and then it is one of the devices.
pub proof fn lemma_last_default_of_type(devices: Seq<AudioDeviceView>, device_type: DeviceType)
    ensures
        last_default_of_type(devices, device_type) is Some <==> exists|i: int|
            0 <= i < devices.len() && #[trigger] is_default_of_type(devices[i], device_type),
        last_default_of_type(devices, device_type) matches Some(d) ==> devices.contains(d)
            && is_default_of_type(d, device_type),
    decreases devices.len(),
{
    if devices.len() > 0 {
        let rest = devices.drop_last();
        lemma_last_default_of_type(rest, device_type);
        if is_default_of_type(devices.last(), device_type) {
            assert(devices[devices.len() - 1] == devices.last());
        } else {
            assert forall|i: int|
                0 <= i < devices.len() && #[trigger] is_default_of_type(
                    devices[i],
                    device_type,
                ) implies 0 <= i < rest.len() && is_default_of_type(rest[i], device_type) by {
                if i == devices.len() - 1 {
                    assert(devices[i] == devices.last());
                }
                assert(rest[i] == devices[i]);
            }
            if last_default_of_type(rest, device_type) is Some {
                let i = choose|i: int|
                    0 <= i < rest.len() && #[trigger] is_default_of_type(rest[i], device_type);
                assert(devices[i] == rest[i]);
            }
            if let Some(d) = last_default_of_type(rest, device_type) {
                let k = choose|k: int| 0 <= k < rest.len() && rest[k] == d;
                assert(devices[k] == d);
            }
        }
    }
}

} // verus!
