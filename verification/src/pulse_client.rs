//! The decisions of the PulseAudio client's loop: waiting for the context to
//! become ready, serving requests until cancelled, and turning a request
//! into a command for the server.
use vstd::prelude::*;

use crate::audio_output::DeviceType;
use crate::pulse_error::PulseAudioError;
use crate::pulse_state::{lookup, PulseAudioDeviceView, PulseAudioState};
use crate::volume_levels::{volume_for_percent, VolumeLevels};

verus! {

/// What one iteration of the main loop returned.
#[derive(Debug, Clone, Copy, PartialEq, Eq, Structural)]
pub enum IterateOutcome {
    /// The main loop quit with this return value.
    Quit(i32),
    /// The iteration failed with this PulseAudio error code.
    Failed(i32),
    /// The iteration dispatched this many sources.
    Success(u32),
}

/// The state of the connection to the server.
#[derive(Debug, Clone, Copy, PartialEq, Eq, Structural)]
pub enum ContextPhase {
    Unconnected,
    Connecting,
    Authorizing,
    SettingName,
    Ready,
    Failed,
    Terminated,
}

/// What to do while waiting for the connection.
#[derive(Debug, Clone, Copy, PartialEq, Eq, Structural)]
pub enum StartupStep {
    /// Iterate again.
    KeepWaiting,
    /// The connection is ready: read the state and serve requests.
    Ready,
    /// Give up with this failure.
    Fail(PulseAudioError),
}

/// The step after one iteration of the main loop while waiting for the
/// connection, given the connection's state after that iteration.
pub open spec fn startup_decision(iterate: IterateOutcome, phase: ContextPhase) -> StartupStep {
    match iterate {
        IterateOutcome::Quit(value) => StartupStep::Fail(PulseAudioError::Quit(value)),
        IterateOutcome::Failed(code) => StartupStep::Fail(PulseAudioError::PAErr(code)),
        IterateOutcome::Success(_) => match phase {
            ContextPhase::Ready => StartupStep::Ready,
            ContextPhase::Failed | ContextPhase::Terminated => StartupStep::Fail(
                PulseAudioError::ContextTerminated,
            ),
            _ => StartupStep::KeepWaiting,
        },
    }
}

/// Decides how to go on after one iteration of the main loop while waiting
/// for the connection to become ready.
pub fn startup_step(iterate: IterateOutcome, phase: ContextPhase) -> (step: StartupStep)
    ensures
        step == startup_decision(iterate, phase),
{
    match iterate {
        IterateOutcome::Quit(value) => StartupStep::Fail(PulseAudioError::Quit(value)),
        IterateOutcome::Failed(code) => StartupStep::Fail(PulseAudioError::PAErr(code)),
        IterateOutcome::Success(_) => match phase {
            ContextPhase::Ready => StartupStep::Ready,
            ContextPhase::Failed | ContextPhase::Terminated => StartupStep::Fail(
                PulseAudioError::ContextTerminated,
            ),
            _ => StartupStep::KeepWaiting,
        },
    }
}

/// What the request channel held when it was polled.
pub enum Inbox<F> {
    /// A request.
    Request(F),
    /// No request is waiting.
    Empty,
    /// Every sender is gone.
    Disconnected,
}

/// What to do in one turn of serving requests.
pub enum ServiceStep<F> {
    /// Quit the main loop and stop; `failed` tells whether it is a failure
    /// (the request channel closed) rather than a cancellation.
    Stop { failed: bool },
    /// Carry out this request.
    Serve(F),
    /// Nothing to do in this turn.
    Idle,
}

/// One turn of serving requests: a cancellation stops the client before
/// anything else; then a waiting request is served, and a closed request
/// channel stops the client with a failure.
pub open spec fn service_decision<F>(cancelled: bool, inbox: Inbox<F>) -> ServiceStep<F> {
    if cancelled {
        ServiceStep::Stop { failed: false }
    } else {
        match inbox {
            Inbox::Request(f) => ServiceStep::Serve(f),
            Inbox::Empty => ServiceStep::Idle,
            Inbox::Disconnected => ServiceStep::Stop { failed: true },
        }
    }
}

/// Decides one turn of serving requests.
pub fn service_step<F>(cancelled: bool, inbox: Inbox<F>) -> (step: ServiceStep<F>)
    ensures
        step == service_decision(cancelled, inbox),
{
    if cancelled {
        return ServiceStep::Stop { failed: false };
    }
    match inbox {
        Inbox::Request(f) => ServiceStep::Serve(f),
        Inbox::Empty => ServiceStep::Idle,
        Inbox::Disconnected => ServiceStep::Stop { failed: true },
    }
}

/// Set the volume of a device, in whole percent.
pub struct SetVolumeArgs {
    /// The requested volume's whole percent.
    pub volume: u32,
    /// The device's name; with none given, no device is adjusted.
    pub device_id: Option<String>,
}

/// Mute or unmute a device.
pub struct SetMuteArgs {
    pub mute: bool,
    /// The device's name; with none given, no device is adjusted.
    pub device_id: Option<String>,
}

/// A request to the audio provider.
pub enum AudioFunction {
    SetVolume(SetVolumeArgs),
    SetMute(SetMuteArgs),
}

/// A change to ask of the server.
#[derive(Debug)]
pub enum PulseCommand {
    SetSinkVolume { name: String, levels: VolumeLevels },
    SetSourceVolume { name: String, levels: VolumeLevels },
    SetSinkMute { name: String, mute: bool },
    SetSourceMute { name: String, mute: bool },
}

/// What a [`PulseCommand`] holds.
pub enum PulseCommandView {
    SetSinkVolume { name: Seq<char>, levels: Seq<u32> },
    SetSourceVolume { name: Seq<char>, levels: Seq<u32> },
    SetSinkMute { name: Seq<char>, mute: bool },
    SetSourceMute { name: Seq<char>, mute: bool },
}

impl View for PulseCommand {
    type V = PulseCommandView;

    open spec fn view(&self) -> PulseCommandView {
        match self {
            PulseCommand::SetSinkVolume { name, levels } => PulseCommandView::SetSinkVolume {
                name: name@,
                levels: levels@,
            },
            PulseCommand::SetSourceVolume { name, levels } => PulseCommandView::SetSourceVolume {
                name: name@,
                levels: levels@,
            },
            PulseCommand::SetSinkMute { name, mute } => PulseCommandView::SetSinkMute {
                name: name@,
                mute: *mute,
            },
            PulseCommand::SetSourceMute { name, mute } => PulseCommandView::SetSourceMute {
                name: name@,
                mute: *mute,
            },
        }
    }
}

/// The reply to a volume request for which no device was found.
pub open spec fn no_volume_target() -> Seq<char> {
    "Could not set volume: no device to adjust"@
}

/// The reply to a mute request for which no device was found.
pub open spec fn no_mute_target() -> Seq<char> {
    "Could not set mute: no device to adjust"@
}

/// The device a request names, if it names a stored one.
pub open spec fn request_target(
    devices: Seq<PulseAudioDeviceView>,
    device_id: Option<String>,
) -> Option<PulseAudioDeviceView> {
    match device_id {
        Some(id) => lookup(devices, id@),
        None => None,
    }
}

/// Whether `levels` has as many channels as `device` and each is at the
/// volume of `whole_percent` percent.
pub open spec fn levels_at_percent(
    levels: Seq<u32>,
    device: PulseAudioDeviceView,
    whole_percent: nat,
) -> bool {
    &&& levels.len() == device.levels.len()
    &&& forall|i: int| 0 <= i < levels.len() ==> #[trigger] levels[i] == volume_for_percent(whole_percent)
}

/// Whether `command` carries out `function` on `device`: the volume or mute
/// of the sink or source of that name.
pub open spec fn command_for(
    command: PulseCommandView,
    function: AudioFunction,
    device: PulseAudioDeviceView,
) -> bool {
    match function {
        AudioFunction::SetVolume(args) => match device.device_type {
            DeviceType::Playback => command matches PulseCommandView::SetSinkVolume { name, levels }
                && name == device.id && levels_at_percent(levels, device, args.volume as nat),
            DeviceType::Recording => command matches PulseCommandView::SetSourceVolume {
                name,
                levels,
            } && name == device.id && levels_at_percent(levels, device, args.volume as nat),
        },
        AudioFunction::SetMute(args) => match device.device_type {
            DeviceType::Playback => command == PulseCommandView::SetSinkMute {
                name: device.id,
                mute: args.mute,
            },
            DeviceType::Recording => command == PulseCommandView::SetSourceMute {
                name: device.id,
                mute: args.mute,
            },
        },
    }
}

/// The device name a request carries.
pub open spec fn function_device_id(function: AudioFunction) -> Option<String> {
    match function {
        AudioFunction::SetVolume(args) => args.device_id,
        AudioFunction::SetMute(args) => args.device_id,
    }
}

/// Turns a request into the command for the server, or into the reply that
/// no device was found: the request names no device, or no stored device
/// has that name.
pub fn plan_function(state: &PulseAudioState, function: AudioFunction) -> (res: Result<
    PulseCommand,
    String,
>)
    ensures
        match request_target(state@.devices, function_device_id(function)) {
            Some(device) => res matches Ok(command) && command_for(command@, function, device),
            None => res matches Err(message) && message@ == match function {
                AudioFunction::SetVolume(_) => no_volume_target(),
                AudioFunction::SetMute(_) => no_mute_target(),
            },
        },
{
    match function {
        AudioFunction::SetVolume(args) => {
            match state.find_device(&args.device_id) {
                Some(device) => {
                    let mut levels = device.levels.clone();
                    levels.set_percent(args.volume);
                    match device.device_type {
                        DeviceType::Playback => Ok(
                            PulseCommand::SetSinkVolume { name: device.id.clone(), levels },
                        ),
                        DeviceType::Recording => Ok(
                            PulseCommand::SetSourceVolume { name: device.id.clone(), levels },
                        ),
                    }
                },
                None => Err("Could not set volume: no device to adjust".to_owned()),
            }
        },
        AudioFunction::SetMute(args) => {
            match state.find_device(&args.device_id) {
                Some(device) => match device.device_type {
                    DeviceType::Playback => Ok(
                        PulseCommand::SetSinkMute { name: device.id.clone(), mute: args.mute },
                    ),
                    DeviceType::Recording => Ok(
                        PulseCommand::SetSourceMute { name: device.id.clone(), mute: args.mute },
                    ),
                },
                None => Err("Could not set mute: no device to adjust".to_owned()),
            }
        },
    }
}

/// A cancelled client stops without failure, whatever is waiting; a running
/// one serves a waiting request, idles on an empty channel and stops with a
/// failure on a closed one.
pub proof fn lemma_service_decision<F>(cancelled: bool, inbox: Inbox<F>)
    ensures
        cancelled ==> service_decision(cancelled, inbox) == (ServiceStep::<F>::Stop {
            failed: false,
        }),
        !cancelled ==> match inbox {
            Inbox::Request(f) => service_decision(cancelled, inbox) == ServiceStep::<F>::Serve(f),
            Inbox::Empty => service_decision(cancelled, inbox) == ServiceStep::<F>::Idle,
            Inbox::Disconnected => service_decision(cancelled, inbox) == (ServiceStep::<F>::Stop {
                failed: true,
            }),
        },
{
}

/// The client is ready only after a successful iteration with the
/// connection ready; it fails on a quit, a failed iteration, or a failed or
/// terminated connection; otherwise it keeps waiting.
pub proof fn lemma_startup_decision(iterate: IterateOutcome, phase: ContextPhase)
    ensures
        startup_decision(iterate, phase) is Ready <==> (iterate is Success && phase
            == ContextPhase::Ready),
        startup_decision(iterate, phase) is KeepWaiting <==> (iterate is Success && phase
            != ContextPhase::Ready && phase != ContextPhase::Failed && phase
            != ContextPhase::Terminated),
        iterate matches IterateOutcome::Quit(v) ==> startup_decision(iterate, phase)
            == StartupStep::Fail(PulseAudioError::Quit(v)),
        iterate matches IterateOutcome::Failed(c) ==> startup_decision(iterate, phase)
            == StartupStep::Fail(PulseAudioError::PAErr(c)),
{
}

/// A command that carries out a request names the device, adjusts the sink
/// exactly when the device plays sound, carries the requested mute flag,
/// and sets every channel of the device, and only those, to the requested
/// volume.
pub proof fn lemma_command_for(
    command: PulseCommandView,
    function: AudioFunction,
    device: PulseAudioDeviceView,
)
    requires
        command_for(command, function, device),
    ensures
        match command {
            PulseCommandView::SetSinkVolume { name, levels } => name == device.id
                && device.device_type == DeviceType::Playback && function is SetVolume
                && levels.len() == device.levels.len() && forall|i: int|
                0 <= i < levels.len() ==> #[trigger] levels[i] == volume_for_percent(
                    function->SetVolume_0.volume as nat,
                ),
            PulseCommandView::SetSourceVolume { name, levels } => name == device.id
                && device.device_type == DeviceType::Recording && function is SetVolume
                && levels.len() == device.levels.len() && forall|i: int|
                0 <= i < levels.len() ==> #[trigger] levels[i] == volume_for_percent(
                    function->SetVolume_0.volume as nat,
                ),
            PulseCommandView::SetSinkMute { name, mute } => name == device.id && device.device_type
                == DeviceType::Playback && function is SetMute && mute
                == function->SetMute_0.mute,
            PulseCommandView::SetSourceMute { name, mute } => name == device.id
                && device.device_type == DeviceType::Recording && function is SetMute && mute
                == function->SetMute_0.mute,
        },
{
}

} // verus!
