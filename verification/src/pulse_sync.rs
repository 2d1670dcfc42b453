//! One round of reading the server's state: the server information (the
//! default sink and source), the list of sources and the list of sinks
//! arrive through callbacks, in any order; once all three are complete the
//! state is reported.
use vstd::prelude::*;

use crate::audio_output::DeviceType;
use crate::pulse_error::PulseAudioError;
use crate::pulse_state::{
    devices_after_insert, lemma_lookup_after_insert, lookup, PulseAudioDevice, PulseAudioDeviceView, PulseAudioState,
    PulseAudioStateView,
};
use crate::text::{optional_text, text_or_empty};
use crate::volume_levels::VolumeLevels;

verus! {

/// One of the three parts of a round.
#[derive(Debug, Clone, Copy, PartialEq, Eq, Structural)]
pub enum DoneKind {
    Defaults,
    Sources,
    Sinks,
}

/// Which parts of the current round are complete.
#[derive(Debug, Clone, Copy, PartialEq, Eq, Structural)]
pub struct SyncProgress {
    pub defaults: bool,
    pub sources: bool,
    pub sinks: bool,
}

impl SyncProgress {
    /// Whether the part `kind` is complete.
    pub open spec fn is_done(self, kind: DoneKind) -> bool {
        match kind {
            DoneKind::Defaults => self.defaults,
            DoneKind::Sources => self.sources,
            DoneKind::Sinks => self.sinks,
        }
    }

    /// The progress with the part `kind` complete as well.
    pub open spec fn with_done(self, kind: DoneKind) -> SyncProgress {
        match kind {
            DoneKind::Defaults => SyncProgress { defaults: true, ..self },
            DoneKind::Sources => SyncProgress { sources: true, ..self },
            DoneKind::Sinks => SyncProgress { sinks: true, ..self },
        }
    }

    /// Whether all three parts are complete.
    pub open spec fn is_complete(self) -> bool {
        self.defaults && self.sources && self.sinks
    }

    /// The progress of a round that has just begun.
    pub open spec fn fresh() -> SyncProgress {
        SyncProgress { defaults: false, sources: false, sinks: false }
    }

    /// A round with no part complete.
    pub fn new() -> (res: SyncProgress)
        ensures
            res == SyncProgress::fresh(),
    {
        SyncProgress { defaults: false, sources: false, sinks: false }
    }

    /// Marks the part `kind` complete and tells whether the round is now
    /// complete. A part is completed only once per round.
    pub fn mark_done(&mut self, kind: DoneKind) -> (complete: bool)
        requires
            !old(self).is_done(kind),
        ensures
            *final(self) == old(self).with_done(kind),
            complete == final(self).is_complete(),
            !old(self).is_complete(),
    {
        match kind {
            DoneKind::Defaults => {
                self.defaults = true;
            },
            DoneKind::Sources => {
                self.sources = true;
            },
            DoneKind::Sinks => {
                self.sinks = true;
            },
        }
        self.sources && self.sinks && self.defaults
    }
}

/// A round reports the state exactly once: whatever the order in which its
/// three parts complete, the first two completions report nothing and the
/// third reports.
pub proof fn lemma_round_reports_once(a: DoneKind, b: DoneKind, c: DoneKind)
    requires
        a != b,
        b != c,
        a != c,
    ensures
        !SyncProgress::fresh().with_done(a).is_complete(),
        !SyncProgress::fresh().with_done(a).with_done(b).is_complete(),
        SyncProgress::fresh().with_done(a).with_done(b).with_done(c).is_complete(),
{
}

/// What the server reports during a round.
pub enum SyncEvent {
    /// The server information: the names of the default source and sink.
    ServerInfo { default_source: Option<String>, default_sink: Option<String> },
    /// One source.
    SourceItem {
        name: Option<String>,
        description: Option<String>,
        levels: VolumeLevels,
        is_muted: bool,
    },
    /// The end of the source list.
    SourceListEnd,
    /// A failure while listing the sources.
    SourceListError,
    /// One sink.
    SinkItem {
        name: Option<String>,
        description: Option<String>,
        levels: VolumeLevels,
        is_muted: bool,
    },
    /// The end of the sink list.
    SinkListEnd,
    /// A failure while listing the sinks.
    SinkListError,
}

/// What to do after an event.
#[derive(Debug, Clone, Copy, PartialEq, Eq, Structural)]
pub enum SyncAction {
    /// Nothing more.
    Nothing,
    /// Report the state: the round is complete.
    ReportState,
    /// Report this failure.
    ReportError(PulseAudioError),
}

/// The part of the round that an event completes, if any.
pub open spec fn completed_part(event: SyncEvent) -> Option<DoneKind> {
    match event {
        SyncEvent::ServerInfo { .. } => Some(DoneKind::Defaults),
        SyncEvent::SourceListEnd => Some(DoneKind::Sources),
        SyncEvent::SinkListEnd => Some(DoneKind::Sinks),
        _ => None,
    }
}

/// The device that a source or sink event describes: a missing name or
/// description becomes the empty text.
pub open spec fn listed_device(
    name: Option<String>,
    description: Option<String>,
    levels: VolumeLevels,
    is_muted: bool,
    device_type: DeviceType,
) -> PulseAudioDeviceView {
    PulseAudioDeviceView {
        description: text_or_empty(optional_text(description)),
        id: text_or_empty(optional_text(name)),
        device_type,
        levels: levels@,
        is_muted,
    }
}

/// The state after an event: the server information sets the defaults, a
/// source or sink is stored under its name, other events change nothing.
pub open spec fn state_after_event(state: PulseAudioStateView, event: SyncEvent) -> PulseAudioStateView {
    match event {
        SyncEvent::ServerInfo { default_source, default_sink } => PulseAudioStateView {
            default_source: optional_text(default_source),
            default_sink: optional_text(default_sink),
            ..state
        },
        SyncEvent::SourceItem { name, description, levels, is_muted } => PulseAudioStateView {
            devices: devices_after_insert(
                state.devices,
                listed_device(name, description, levels, is_muted, DeviceType::Recording),
            ),
            ..state
        },
        SyncEvent::SinkItem { name, description, levels, is_muted } => PulseAudioStateView {
            devices: devices_after_insert(
                state.devices,
                listed_device(name, description, levels, is_muted, DeviceType::Playback),
            ),
            ..state
        },
        _ => state,
    }
}

/// Begins a round: every stored device is forgotten and no part is
/// complete.
pub fn begin_sync(state: &mut PulseAudioState) -> (progress: SyncProgress)
    ensures
        progress == SyncProgress::fresh(),
        final(state)@ == (PulseAudioStateView { devices: Seq::empty(), ..old(state)@ }),
{
    state.clear_devices();
    SyncProgress::new()
}

/// Handles one event of a round: updates the state, marks the completed
/// part, and tells what to report.
pub fn handle_sync_event(
    progress: &mut SyncProgress,
    state: &mut PulseAudioState,
    event: SyncEvent,
) -> (action: SyncAction)
    requires
        completed_part(event) matches Some(kind) ==> !old(progress).is_done(kind),
    ensures
        final(state)@ == state_after_event(old(state)@, event),
        match completed_part(event) {
            Some(kind) => *final(progress) == old(progress).with_done(kind),
            None => *final(progress) == *old(progress),
        },
        action == match event {
            SyncEvent::SourceListError => SyncAction::ReportError(
                PulseAudioError::SourceListChange,
            ),
            SyncEvent::SinkListError => SyncAction::ReportError(PulseAudioError::SinkListChange),
            _ => if completed_part(event) is Some && final(progress).is_complete() {
                SyncAction::ReportState
            } else {
                SyncAction::Nothing
            },
        },
{
    match event {
        SyncEvent::ServerInfo { default_source, default_sink } => {
            state.set_defaults(default_source, default_sink);
            if progress.mark_done(DoneKind::Defaults) {
                SyncAction::ReportState
            } else {
                SyncAction::Nothing
            }
        },
        SyncEvent::SourceItem { name, description, levels, is_muted } => {
            let device = PulseAudioDevice::from_info(
                name,
                description,
                levels,
                DeviceType::Recording,
                is_muted,
            );
            state.insert(device);
            SyncAction::Nothing
        },
        SyncEvent::SourceListEnd => {
            if progress.mark_done(DoneKind::Sources) {
                SyncAction::ReportState
            } else {
                SyncAction::Nothing
            }
        },
        SyncEvent::SourceListError => SyncAction::ReportError(PulseAudioError::SourceListChange),
        SyncEvent::SinkItem { name, description, levels, is_muted } => {
            let device = PulseAudioDevice::from_info(
                name,
                description,
                levels,
                DeviceType::Playback,
                is_muted,
            );
            state.insert(device);
            SyncAction::Nothing
        },
        SyncEvent::SinkListEnd => {
            if progress.mark_done(DoneKind::Sinks) {
                SyncAction::ReportState
            } else {
                SyncAction::Nothing
            }
        },
        SyncEvent::SinkListError => SyncAction::ReportError(PulseAudioError::SinkListChange),
    }
}

/// What an event does to the state, read through the names: after a source
/// (sink) event, its name finds a recording (playback) device with the
/// event's description, levels and mute flag, and every other name finds
/// what it found before; the server information sets the default source and
/// sink and leaves the devices alone; any other event leaves the state
/// alone.
pub proof fn lemma_sync_event_effect(state: PulseAudioStateView, event: SyncEvent, other: Seq<char>)
    ensures
        match event {
            SyncEvent::SourceItem { name, description, levels, is_muted } => {
                let id = text_or_empty(optional_text(name));
                let after = state_after_event(state, event);
                &&& lookup(after.devices, id) matches Some(d) && d.id == id && d.description
                    == text_or_empty(optional_text(description)) && d.levels == levels@
                    && d.is_muted == is_muted && d.device_type == DeviceType::Recording
                &&& other != id ==> lookup(after.devices, other) == lookup(state.devices, other)
                &&& after.default_sink == state.default_sink
                &&& after.default_source == state.default_source
            },
            SyncEvent::SinkItem { name, description, levels, is_muted } => {
                let id = text_or_empty(optional_text(name));
                let after = state_after_event(state, event);
                &&& lookup(after.devices, id) matches Some(d) && d.id == id && d.description
                    == text_or_empty(optional_text(description)) && d.levels == levels@
                    && d.is_muted == is_muted && d.device_type == DeviceType::Playback
                &&& other != id ==> lookup(after.devices, other) == lookup(state.devices, other)
                &&& after.default_sink == state.default_sink
                &&& after.default_source == state.default_source
            },
            SyncEvent::ServerInfo { default_source, default_sink } => {
                let after = state_after_event(state, event);
                &&& after.devices == state.devices
                &&& after.default_source == optional_text(default_source)
                &&& after.default_sink == optional_text(default_sink)
            },
            _ => state_after_event(state, event) == state,
        },
{
    match event {
        SyncEvent::SourceItem { name, description, levels, is_muted } => {
            lemma_lookup_after_insert(
                state.devices,
                listed_device(name, description, levels, is_muted, DeviceType::Recording),
                other,
            );
        },
        SyncEvent::SinkItem { name, description, levels, is_muted } => {
            lemma_lookup_after_insert(
                state.devices,
                listed_device(name, description, levels, is_muted, DeviceType::Playback),
                other,
            );
        },
        _ => {},
    }
}

} // verus!
