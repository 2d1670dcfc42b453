//! The audio and sway providers: what they are made of, the requests they
//! take and how each message reaching them is handled.
use vstd::prelude::*;

use crate::audio_output::AudioOutput;
use crate::pulse_client::AudioFunction;
use crate::sway_output::SwayOutput;

verus! {

/// How a provider runs.
#[derive(Debug, Clone, Copy, PartialEq, Eq, Structural)]
pub enum RuntimeType {
    Sync,
    Async,
}

/// The reply to a request that succeeded.
#[derive(Debug, Clone, Copy, PartialEq, Eq, Structural)]
pub enum ProviderFunctionResponse {
    Null,
}

/// A request to the sway provider.
#[derive(Debug, Clone)]
pub enum SwayFunction {
    /// Run a sway command.
    RunCommand(String),
}

/// A request to some provider.
pub enum ProviderFunction {
    Audio(AudioFunction),
    Sway(SwayFunction),
}

/// A message to a provider: stop, or carry out a request and answer through
/// `S`.
pub enum ProviderInputMsg<S> {
    Stop,
    Function(ProviderFunction, S),
}

/// The configuration of the sway provider; it has no options.
#[derive(Debug, Clone, Copy, PartialEq, Eq, Structural)]
pub struct SwayProviderConfig {}

/// The audio provider, holding the state common to all providers.
pub struct AudioProvider<C>(pub C);

/// What the audio provider does with a message.
pub enum AudioInputStep<S> {
    /// Leave the loop.
    Stop,
    /// Hand the request to the PulseAudio client, with the reply channel.
    Forward(AudioFunction, S),
    /// The request is for another provider: drop it.
    Ignore,
}

impl<C> AudioProvider<C> {
    /// A provider over the common state.
    pub fn new(common: C) -> (res: AudioProvider<C>)
        ensures
            res.0 == common,
    {
        AudioProvider(common)
    }

    /// The audio provider runs asynchronously.
    pub fn runtime_type(&self) -> (res: RuntimeType)
        ensures
            res == RuntimeType::Async,
    {
        RuntimeType::Async
    }

    /// What to do with a message: stop on `Stop`, hand audio requests to the
    /// client, drop any other request.
    pub fn route_input<S>(&self, msg: ProviderInputMsg<S>) -> (step: AudioInputStep<S>)
        ensures
            match msg {
                ProviderInputMsg::Stop => step is Stop,
                ProviderInputMsg::Function(ProviderFunction::Audio(f), sender) => step
                    == AudioInputStep::Forward(f, sender),
                ProviderInputMsg::Function(_, _) => step is Ignore,
            },
    {
        match msg {
            ProviderInputMsg::Stop => AudioInputStep::Stop,
            ProviderInputMsg::Function(ProviderFunction::Audio(f), sender) => AudioInputStep::Forward(
                f,
                sender,
            ),
            ProviderInputMsg::Function(_, _) => AudioInputStep::Ignore,
        }
    }
}

/// The sway provider, holding the state common to all providers.
pub struct SwayProvider<C>(pub C);

/// What the sway provider does with a message.
pub enum SwayInputStep<S> {
    /// Leave the loop.
    Stop,
    /// Run this command and answer through the reply channel.
    RunCommand(String, S),
    /// The request is for another provider: drop it.
    Ignore,
}

/// The failure the sway provider reports when it cannot reach sway.
pub open spec fn sway_init_failure() -> Seq<char> {
    "Failed to initialize sway client."@
}

impl<C> SwayProvider<C> {
    /// A provider over the common state.
    pub fn new(common: C) -> (res: SwayProvider<C>)
        ensures
            res.0 == common,
    {
        SwayProvider(common)
    }

    /// The sway provider runs asynchronously.
    pub fn runtime_type(&self) -> (res: RuntimeType)
        ensures
            res == RuntimeType::Async,
    {
        RuntimeType::Async
    }

    /// What to do with a message: stop on `Stop`, run sway commands, drop
    /// any other request.
    pub fn route_input<S>(&self, msg: ProviderInputMsg<S>) -> (step: SwayInputStep<S>)
        ensures
            match msg {
                ProviderInputMsg::Stop => step is Stop,
                ProviderInputMsg::Function(
                    ProviderFunction::Sway(SwayFunction::RunCommand(payload)),
                    sender,
                ) => step == SwayInputStep::RunCommand(payload, sender),
                ProviderInputMsg::Function(_, _) => step is Ignore,
            },
    {
        match msg {
            ProviderInputMsg::Stop => SwayInputStep::Stop,
            ProviderInputMsg::Function(
                ProviderFunction::Sway(SwayFunction::RunCommand(payload)),
                sender,
            ) => SwayInputStep::RunCommand(payload, sender),
            ProviderInputMsg::Function(_, _) => SwayInputStep::Ignore,
        }
    }

    /// The reply to a command: success is answered with `Null`, a failure
    /// with its message.
    pub fn command_reply(outcome: Result<(), String>) -> (reply: Result<
        ProviderFunctionResponse,
        String,
    >)
        ensures
            match outcome {
                Ok(_) => reply == Ok::<ProviderFunctionResponse, String>(
                    ProviderFunctionResponse::Null,
                ),
                Err(message) => reply == Err::<ProviderFunctionResponse, String>(message),
            },
    {
        match outcome {
            Ok(()) => Ok(ProviderFunctionResponse::Null),
            Err(message) => Err(message),
        }
    }

    /// The failure reported when the provider cannot reach sway.
    pub fn init_failure_message() -> (res: String)
        ensures
            res@ == sway_init_failure(),
    {
        "Failed to initialize sway client.".to_owned()
    }
}

/// The output of a provider.
pub enum ProviderOutput {
    Sway(SwayOutput),
    Audio(AudioOutput),
}

impl From<SwayOutput> for ProviderOutput {
    fn from(value: SwayOutput) -> (res: ProviderOutput) {
        ProviderOutput::Sway(value)
    }
}

impl vstd::std_specs::convert::FromSpecImpl<SwayOutput> for ProviderOutput {
    open spec fn obeys_from_spec() -> bool {
        true
    }

    open spec fn from_spec(value: SwayOutput) -> ProviderOutput {
        ProviderOutput::Sway(value)
    }
}

impl From<AudioOutput> for ProviderOutput {
    fn from(value: AudioOutput) -> (res: ProviderOutput) {
        ProviderOutput::Audio(value)
    }
}

impl vstd::std_specs::convert::FromSpecImpl<AudioOutput> for ProviderOutput {
    open spec fn obeys_from_spec() -> bool {
        true
    }

    open spec fn from_spec(value: AudioOutput) -> ProviderOutput {
        ProviderOutput::Audio(value)
    }
}

} // verus!
