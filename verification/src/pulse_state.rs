//! What the PulseAudio client knows of the server: its devices, keyed by
//! name, and the names of the default sink and source.
use vstd::prelude::*;

use crate::audio_output::{
    devices_of_type, is_default_of_type, last_default_of_type, lemma_device_types_partition,
    lemma_last_default_of_type, AudioDevice, AudioDeviceView, AudioOutput, AudioOutputView,
    DeviceType,
};
use crate::text::{optional_text, text_or_empty};
use crate::volume_levels::VolumeLevels;

verus! {

/// A PulseAudio sink or source. Only the fields the provider uses are kept.
#[derive(Debug)]
pub struct PulseAudioDevice {
    pub description: String,
    pub id: String,
    pub device_type: DeviceType,
    pub levels: VolumeLevels,
    pub is_muted: bool,
}

/// What a [`PulseAudioDevice`] holds.
#[verifier::ext_equal]
pub struct PulseAudioDeviceView {
    pub description: Seq<char>,
    pub id: Seq<char>,
    pub device_type: DeviceType,
    pub levels: Seq<u32>,
    pub is_muted: bool,
}

impl View for PulseAudioDevice {
    type V = PulseAudioDeviceView;

    open spec fn view(&self) -> PulseAudioDeviceView {
        PulseAudioDeviceView {
            description: self.description@,
            id: self.id@,
            device_type: self.device_type,
            levels: self.levels@,
            is_muted: self.is_muted,
        }
    }
}

fn unwrap_text_or_empty(text: Option<String>) -> (res: String)
    ensures
        res@ == text_or_empty(optional_text(text)),
{
    match text {
        Some(t) => t,
        None => String::new(),
    }
}

impl PulseAudioDevice {
    /// A device from what the server reports of a sink or source: a missing
    /// name or description becomes the empty text.
    pub fn from_info(
        name: Option<String>,
        description: Option<String>,
        levels: VolumeLevels,
        device_type: DeviceType,
        is_muted: bool,
    ) -> (res: PulseAudioDevice)
        ensures
            res@ == (PulseAudioDeviceView {
                description: text_or_empty(optional_text(description)),
                id: text_or_empty(optional_text(name)),
                device_type,
                levels: levels@,
                is_muted,
            }),
    {
        PulseAudioDevice {
            id: unwrap_text_or_empty(name),
            description: unwrap_text_or_empty(description),
            levels,
            device_type,
            is_muted,
        }
    }
}

/// The views of a sequence of devices.
pub open spec fn pulse_device_views(devices: Seq<PulseAudioDevice>) -> Seq<PulseAudioDeviceView> {
    devices.map_values(|d: PulseAudioDevice| d@)
}

/// No two devices share a name.
pub open spec fn ids_unique(devices: Seq<PulseAudioDeviceView>) -> bool {
    forall|i: int, j: int|
        0 <= i < devices.len() && 0 <= j < devices.len() && i != j ==> #[trigger] devices[i].id
            != #[trigger] devices[j].id
}

/// The index of the last device named `id`, or -1 if there is none.
pub open spec fn position_of(devices: Seq<PulseAudioDeviceView>, id: Seq<char>) -> int
    decreases devices.len(),
{
    if devices.len() == 0 {
        -1
    } else if devices.last().id == id {
        devices.len() - 1
    } else {
        position_of(devices.drop_last(), id)
    }
}

/// The device named `id`, if there is one.
pub open spec fn lookup(devices: Seq<PulseAudioDeviceView>, id: Seq<char>) -> Option<
    PulseAudioDeviceView,
> {
    let p = position_of(devices, id);
    if p >= 0 {
        Some(devices[p])
    } else {
        None
    }
}

/// The devices after storing `device` under its name: it replaces the device
/// of that name in place, or is added at the end.
pub open spec fn devices_after_insert(
    devices: Seq<PulseAudioDeviceView>,
    device: PulseAudioDeviceView,
) -> Seq<PulseAudioDeviceView> {
    let p = position_of(devices, device.id);
    if p >= 0 {
        devices.update(p, device)
    } else {
        devices.push(device)
    }
}

/// `position_of` finds a device with that name exactly when there is one,
/// and then the last one.
pub proof fn lemma_position_of(devices: Seq<PulseAudioDeviceView>, id: Seq<char>)
    ensures
        -1 <= position_of(devices, id) < devices.len(),
        position_of(devices, id) >= 0 ==> devices[position_of(devices, id)].id == id,
        forall|j: int|
            position_of(devices, id) < j < devices.len() ==> #[trigger] devices[j].id != id,
        position_of(devices, id) == -1 <==> forall|i: int|
            0 <= i < devices.len() ==> #[trigger] devices[i].id != id,
    decreases devices.len(),
{
    if devices.len() > 0 {
        lemma_position_of(devices.drop_last(), id);
        if devices.last().id != id {
            assert forall|i: int| 0 <= i < devices.len() - 1 implies #[trigger] devices[i]
                == devices.drop_last()[i] by {}
        }
    }
}

/// An index holding a device named `id`, after which no device has that
/// name, is the one `position_of` gives.
pub proof fn lemma_position_of_last(devices: Seq<PulseAudioDeviceView>, id: Seq<char>, k: int)
    requires
        0 <= k < devices.len(),
        devices[k].id == id,
        forall|j: int| k < j < devices.len() ==> #[trigger] devices[j].id != id,
    ensures
        position_of(devices, id) == k,
{
    lemma_position_of(devices, id);
    let r = position_of(devices, id);
    assert(r != -1) by {
        assert(devices[k].id == id);
    }
    if r < k {
        assert(devices[k].id != id);
    } else if r > k {
        assert(devices[r].id != id);
    }
}

/// In a sequence with unique names, `position_of` gives the index of the one
/// device with that name.
pub proof fn lemma_position_of_unique(devices: Seq<PulseAudioDeviceView>, i: int)
    requires
        ids_unique(devices),
        0 <= i < devices.len(),
    ensures
        position_of(devices, devices[i].id) == i,
{
    lemma_position_of(devices, devices[i].id);
    let p = position_of(devices, devices[i].id);
    if p != i {
        if p >= 0 {
            assert(devices[p].id == devices[i].id);
        }
    }
}

/// Storing a device under its name keeps the names unique.
pub proof fn lemma_insert_keeps_ids_unique(
    devices: Seq<PulseAudioDeviceView>,
    device: PulseAudioDeviceView,
)
    requires
        ids_unique(devices),
    ensures
        ids_unique(devices_after_insert(devices, device)),
{
    lemma_position_of(devices, device.id);
    let out = devices_after_insert(devices, device);
    let p = position_of(devices, device.id);
    assert forall|i: int, j: int|
        0 <= i < out.len() && 0 <= j < out.len() && i != j implies #[trigger] out[i].id
        != #[trigger] out[j].id by {
        if p >= 0 {
            if i != p && j != p {
                assert(out[i] == devices[i] && out[j] == devices[j]);
            } else if i == p {
                assert(devices[j].id != devices[p].id);
            } else {
                assert(devices[i].id != devices[p].id);
            }
        } else {
            if i < devices.len() && j < devices.len() {
                assert(out[i] == devices[i] && out[j] == devices[j]);
            } else if i == devices.len() {
                assert(devices[j].id != device.id);
            } else {
                assert(devices[i].id != device.id);
            }
        }
    }
}

/// A read gives back what a write stored: after storing `device`, looking up
/// its name gives it, and looking up any other name gives what it gave
/// before.
pub proof fn lemma_lookup_after_insert(
    devices: Seq<PulseAudioDeviceView>,
    device: PulseAudioDeviceView,
    id: Seq<char>,
)
    ensures
        lookup(devices_after_insert(devices, device), device.id) == Some(device),
        id != device.id ==> lookup(devices_after_insert(devices, device), id) == lookup(
            devices,
            id,
        ),
{
    let out = devices_after_insert(devices, device);
    lemma_position_of(devices, device.id);
    lemma_position_of(devices, id);
    let p = position_of(devices, device.id);
    // The stored device sits where `position_of` looks for its name.
    let k = if p >= 0 {
        p
    } else {
        devices.len() as int
    };
    assert(out[k] == device);
    assert forall|j: int| k < j < out.len() implies #[trigger] out[j].id != device.id by {
        assert(out[j] == devices[j]);
    }
    lemma_position_of_last(out, device.id, k);
    if id != device.id {
        let a = position_of(devices, id);
        lemma_position_of(out, id);
        if a >= 0 {
            assert(out[a] == devices[a]);
            assert forall|j: int| a < j < out.len() implies #[trigger] out[j].id != id by {
                if j != k {
                    assert(out[j] == devices[j]);
                }
            }
            lemma_position_of_last(out, id, a);
        } else {
            assert forall|j: int| 0 <= j < out.len() implies #[trigger] out[j].id != id by {
                if j != k {
                    assert(out[j] == devices[j]);
                }
            }
        }
    }
}

/// The devices of the server and the names of its default sink and source.
pub struct PulseAudioState {
    devices: Vec<PulseAudioDevice>,
    default_sink: Option<String>,
    default_source: Option<String>,
}

/// What a [`PulseAudioState`] holds: the devices in the order in which they
/// were first stored.
#[verifier::ext_equal]
pub struct PulseAudioStateView {
    pub devices: Seq<PulseAudioDeviceView>,
    pub default_sink: Option<Seq<char>>,
    pub default_source: Option<Seq<char>>,
}

impl View for PulseAudioState {
    type V = PulseAudioStateView;

    closed spec fn view(&self) -> PulseAudioStateView {
        PulseAudioStateView {
            devices: pulse_device_views(self.devices@),
            default_sink: optional_text(self.default_sink),
            default_source: optional_text(self.default_source),
        }
    }
}

impl PulseAudioState {
    /// No two stored devices share a name.
    #[verifier::type_invariant]
    closed spec fn names_unique(self) -> bool {
        ids_unique(pulse_device_views(self.devices@))
    }

    /// A state with no devices and no defaults.
    pub fn new() -> (res: PulseAudioState)
        ensures
            res@.devices.len() == 0,
            res@.default_sink is None,
            res@.default_source is None,
    {
        let res = PulseAudioState { devices: Vec::new(), default_sink: None, default_source: None };
        proof {
            assert(pulse_device_views(res.devices@) =~= Seq::empty());
        }
        res
    }

    /// The number of stored devices.
    pub fn device_count(&self) -> (res: usize)
        ensures
            res == self@.devices.len(),
    {
        self.devices.len()
    }

    /// The device at `index` in the order of storage.
    pub fn device_at(&self, index: usize) -> (res: &PulseAudioDevice)
        requires
            index < self@.devices.len(),
        ensures
            res@ == self@.devices[index as int],
    {
        &self.devices[index]
    }

    /// The name of the default sink.
    pub fn default_sink(&self) -> (res: &Option<String>)
        ensures
            optional_text(*res) == self@.default_sink,
    {
        &self.default_sink
    }

    /// The name of the default source.
    pub fn default_source(&self) -> (res: &Option<String>)
        ensures
            optional_text(*res) == self@.default_source,
    {
        &self.default_source
    }

    /// Records the names of the default source and sink.
    pub fn set_defaults(&mut self, default_source: Option<String>, default_sink: Option<String>)
        ensures
            final(self)@ == (PulseAudioStateView {
                devices: old(self)@.devices,
                default_sink: optional_text(default_sink),
                default_source: optional_text(default_source),
            }),
    {
        proof {
            use_type_invariant(&*self);
        }
        self.default_source = default_source;
        self.default_sink = default_sink;
    }

    /// Forgets every device; the defaults stay.
    pub fn clear_devices(&mut self)
        ensures
            final(self)@ == (PulseAudioStateView {
                devices: Seq::empty(),
                default_sink: old(self)@.default_sink,
                default_source: old(self)@.default_source,
            }),
    {
        self.devices = Vec::new();
        proof {
            assert(pulse_device_views(self.devices@) =~= Seq::empty());
        }
    }

    /// The index of the device named `id`, if there is one.
    fn index_of(&self, id: &String) -> (res: Option<usize>)
        ensures
            match res {
                Some(i) => i == position_of(self@.devices, id@) && i < self@.devices.len(),
                None => position_of(self@.devices, id@) == -1,
            },
    {
        proof {
            use_type_invariant(self);
        }
        let n = self.devices.len();
        let mut i: usize = 0;
        while i < n
            invariant
                n == self@.devices.len(),
                i <= n,
                self@.devices == pulse_device_views(self.devices@),
                ids_unique(self@.devices),
                forall|j: int| 0 <= j < i ==> #[trigger] self@.devices[j].id != id@,
            decreases n - i,
        {
            if self.devices[i].id == *id {
                proof {
                    assert(self@.devices[i as int].id == id@);
                    lemma_position_of_unique(self@.devices, i as int);
                }
                return Some(i);
            }
            i = i + 1;
        }
        proof {
            lemma_position_of(self@.devices, id@);
        }
        None
    }

    /// Stores `device` under its name, in place of any device of that name.
    pub fn insert(&mut self, device: PulseAudioDevice)
        ensures
            final(self)@ == (PulseAudioStateView {
                devices: devices_after_insert(old(self)@.devices, device@),
                default_sink: old(self)@.default_sink,
                default_source: old(self)@.default_source,
            }),
    {
        proof {
            use_type_invariant(&*self);
            lemma_position_of(self@.devices, device@.id);
            lemma_insert_keeps_ids_unique(self@.devices, device@);
        }
        let ghost before = self@.devices;
        let ghost dv = device@;
        match self.index_of(&device.id) {
            Some(i) => {
                let mut devices: Vec<PulseAudioDevice> = Vec::new();
                std::mem::swap(&mut devices, &mut self.devices);
                devices.set(i, device);
                proof {
                    assert(pulse_device_views(devices@) =~= before.update(i as int, dv));
                }
                self.devices = devices;
            },
            None => {
                let mut devices: Vec<PulseAudioDevice> = Vec::new();
                std::mem::swap(&mut devices, &mut self.devices);
                devices.push(device);
                proof {
                    assert(pulse_device_views(devices@) =~= before.push(dv));
                }
                self.devices = devices;
            },
        }
    }

    /// The device named `id`, if `id` is given and such a device is stored.
    pub fn find_device(&self, id: &Option<String>) -> (res: Option<&PulseAudioDevice>)
        ensures
            match id {
                Some(key) => match res {
                    Some(d) => lookup(self@.devices, key@) == Some(d@),
                    None => lookup(self@.devices, key@) is None,
                },
                None => res is None,
            },
    {
        match id {
            Some(key) => match self.index_of(key) {
                Some(i) => {
                    proof {
                        assert(self@.devices[i as int] == self.devices@[i as int]@);
                    }
                    Some(&self.devices[i])
                },
                None => None,
            },
            None => None,
        }
    }
}

/// Whether an optional name is given and equal to `id`.
fn names_match(name: &Option<String>, id: &String) -> (res: bool)
    ensures
        res == (optional_text(*name) == Some(id@)),
{
    match name {
        Some(n) => *n == *id,
        None => false,
    }
}

/// How a stored device is reported, given its volume in whole percent and
/// the names of the default sink and source.
pub open spec fn device_summary(
    device: PulseAudioDeviceView,
    volume: u32,
    default_sink: Option<Seq<char>>,
    default_source: Option<Seq<char>>,
) -> AudioDeviceView {
    AudioDeviceView {
        name: device.description,
        device_id: device.id,
        device_type: device.device_type,
        volume,
        is_muted: device.is_muted,
        is_default_playback: default_sink == Some(device.id),
        is_default_recording: default_source == Some(device.id),
    }
}

/// The report of every stored device, in the order of storage; `volumes[i]`
/// is the volume of the `i`-th device.
pub open spec fn device_summaries(state: PulseAudioStateView, volumes: Seq<u32>) -> Seq<
    AudioDeviceView,
> {
    Seq::new(
        state.devices.len(),
        |i: int| device_summary(state.devices[i], volumes[i], state.default_sink, state.default_source),
    )
}

/// The provider's output for a state: every device, the devices of each
/// type, and the default device of each type.
pub open spec fn output_of_state(state: PulseAudioStateView, volumes: Seq<u32>) -> AudioOutputView {
    let all = device_summaries(state, volumes);
    AudioOutputView {
        all_devices: all,
        playback_devices: devices_of_type(all, DeviceType::Playback),
        recording_devices: devices_of_type(all, DeviceType::Recording),
        default_playback_device: last_default_of_type(all, DeviceType::Playback),
        default_recording_device: last_default_of_type(all, DeviceType::Recording),
    }
}

impl AudioOutput {
    /// The output for `state`, where `volumes[i]` is the volume in whole
    /// percent of the `i`-th stored device.
    pub fn from_state(state: &PulseAudioState, volumes: &Vec<u32>) -> (res: AudioOutput)
        requires
            volumes@.len() == state@.devices.len(),
        ensures
            res@ == output_of_state(state@, volumes@),
    {
        let mut output = AudioOutput::default();
        let n = state.device_count();
        let ghost all = device_summaries(state@, volumes@);
        let mut i: usize = 0;
        while i < n
            invariant
                n == state@.devices.len(),
                n == volumes@.len(),
                i <= n,
                all == device_summaries(state@, volumes@),
                output@ == (AudioOutputView {
                    all_devices: all.take(i as int),
                    playback_devices: devices_of_type(all.take(i as int), DeviceType::Playback),
                    recording_devices: devices_of_type(all.take(i as int), DeviceType::Recording),
                    default_playback_device: last_default_of_type(
                        all.take(i as int),
                        DeviceType::Playback,
                    ),
                    default_recording_device: last_default_of_type(
                        all.take(i as int),
                        DeviceType::Recording,
                    ),
                }),
            decreases n - i,
        {
            let device = state.device_at(i);
            let output_device = AudioDevice {
                name: device.description.clone(),
                device_id: device.id.clone(),
                device_type: device.device_type,
                volume: volumes[i],
                is_muted: device.is_muted,
                is_default_recording: names_match(state.default_source(), &device.id),
                is_default_playback: names_match(state.default_sink(), &device.id),
            };
            let ghost before = output@;
            proof {
                assert(output_device@ == all[i as int]);
                assert(all.take(i + 1).drop_last() =~= all.take(i as int));
                assert(all.take(i + 1).last() == all[i as int]);
            }
            if device.device_type == DeviceType::Playback {
                output.playback_devices.push(output_device.clone());
                if output_device.is_default_playback {
                    output.default_playback_device = Some(output_device.clone());
                }
            } else {
                output.recording_devices.push(output_device.clone());
                if output_device.is_default_recording {
                    output.default_recording_device = Some(output_device.clone());
                }
            }
            output.all_devices.push(output_device);
            proof {
                assert(output@.all_devices =~= before.all_devices.push(all[i as int]));
                if all[i as int].device_type == DeviceType::Playback {
                    assert(output@.playback_devices =~= before.playback_devices.push(
                        all[i as int],
                    ));
                    assert(output@.recording_devices =~= before.recording_devices);
                } else {
                    assert(output@.recording_devices =~= before.recording_devices.push(
                        all[i as int],
                    ));
                    assert(output@.playback_devices =~= before.playback_devices);
                }
            }
            i = i + 1;
        }
        proof {
            assert(all.take(n as int) =~= all);
        }
        output
    }
}

/// Every reported device is either a playback or a recording device: the two
/// lists together are as long as the list of all devices, which has one
/// entry per stored device.
pub proof fn lemma_output_partitions_devices(state: PulseAudioStateView, volumes: Seq<u32>)
    ensures
        output_of_state(state, volumes).all_devices.len() == state.devices.len(),
        output_of_state(state, volumes).playback_devices.len() + output_of_state(
            state,
            volumes,
        ).recording_devices.len() == state.devices.len(),
{
    lemma_device_types_partition(device_summaries(state, volumes));
}

/// The default playback device is reported exactly when the default sink
/// names a stored playback device, and it is that device; the same holds of
/// the default recording device and the default source.
pub proof fn lemma_output_defaults(state: PulseAudioStateView, volumes: Seq<u32>)
    requires
        volumes.len() == state.devices.len(),
    ensures
        output_of_state(state, volumes).default_playback_device is Some <==> exists|i: int|
            0 <= i < state.devices.len() && #[trigger] state.devices[i].device_type
                == DeviceType::Playback && state.default_sink == Some(state.devices[i].id),
        output_of_state(state, volumes).default_playback_device matches Some(d) ==> (
        d.device_type == DeviceType::Playback && state.default_sink == Some(d.device_id)
            && output_of_state(state, volumes).all_devices.contains(d)),
        output_of_state(state, volumes).default_recording_device is Some <==> exists|i: int|
            0 <= i < state.devices.len() && #[trigger] state.devices[i].device_type
                == DeviceType::Recording && state.default_source == Some(state.devices[i].id),
        output_of_state(state, volumes).default_recording_device matches Some(d) ==> (
        d.device_type == DeviceType::Recording && state.default_source == Some(d.device_id)
            && output_of_state(state, volumes).all_devices.contains(d)),
{
    let all = device_summaries(state, volumes);
    lemma_last_default_of_type(all, DeviceType::Playback);
    lemma_last_default_of_type(all, DeviceType::Recording);
    assert forall|i: int| 0 <= i < state.devices.len() implies (is_default_of_type(
        #[trigger] all[i],
        DeviceType::Playback,
    ) <==> (state.devices[i].device_type == DeviceType::Playback && state.default_sink == Some(
        state.devices[i].id,
    ))) && (is_default_of_type(all[i], DeviceType::Recording) <==> (state.devices[i].device_type
        == DeviceType::Recording && state.default_source == Some(state.devices[i].id))) by {}
    if exists|i: int|
        0 <= i < state.devices.len() && #[trigger] state.devices[i].device_type
            == DeviceType::Playback && state.default_sink == Some(state.devices[i].id) {
        let i = choose|i: int|
            0 <= i < state.devices.len() && #[trigger] state.devices[i].device_type
                == DeviceType::Playback && state.default_sink == Some(state.devices[i].id);
        assert(is_default_of_type(all[i], DeviceType::Playback));
    }
    if exists|i: int|
        0 <= i < state.devices.len() && #[trigger] state.devices[i].device_type
            == DeviceType::Recording && state.default_source == Some(state.devices[i].id) {
        let i = choose|i: int|
            0 <= i < state.devices.len() && #[trigger] state.devices[i].device_type
                == DeviceType::Recording && state.default_source == Some(state.devices[i].id);
        assert(is_default_of_type(all[i], DeviceType::Recording));
    }
    if last_default_of_type(all, DeviceType::Playback) is Some {
        let i = choose|i: int|
            0 <= i < all.len() && #[trigger] is_default_of_type(all[i], DeviceType::Playback);
        assert(state.devices[i].device_type == DeviceType::Playback);
    }
    if last_default_of_type(all, DeviceType::Recording) is Some {
        let i = choose|i: int|
            0 <= i < all.len() && #[trigger] is_default_of_type(all[i], DeviceType::Recording);
        assert(state.devices[i].device_type == DeviceType::Recording);
    }
}

/// Each reported device reports the stored device at the same place: its
/// name is the device's description, its id the device's name, and its
/// type, mute flag and volume are the device's; it is marked the default
/// playback (recording) device exactly when the default sink (source) is
/// named like it.
pub proof fn lemma_output_reports_each_device(state: PulseAudioStateView, volumes: Seq<u32>)
    requires
        volumes.len() == state.devices.len(),
    ensures
        output_of_state(state, volumes).all_devices.len() == state.devices.len(),
        forall|i: int|
            #![trigger output_of_state(state, volumes).all_devices[i]]
            0 <= i < state.devices.len() ==> {
                let r = output_of_state(state, volumes).all_devices[i];
                let d = state.devices[i];
                &&& r.name == d.description
                &&& r.device_id == d.id
                &&& r.device_type == d.device_type
                &&& r.volume == volumes[i]
                &&& r.is_muted == d.is_muted
                &&& r.is_default_playback == (state.default_sink == Some(d.id))
                &&& r.is_default_recording == (state.default_source == Some(d.id))
            },
{
}

} // verus!
