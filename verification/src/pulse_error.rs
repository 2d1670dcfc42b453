//! The ways the PulseAudio client can fail, and their messages.
use vstd::prelude::*;

use crate::text::{decimal_text, i32_to_decimal};

verus! {

/// A failure of the PulseAudio client.
#[derive(Debug, Clone, Copy, PartialEq, Eq, Structural)]
pub enum PulseAudioError {
    CreatePropList,
    UpdatePropList,
    CreateMainLoop,
    CreateContext,
    /// A PulseAudio error, by its code.
    PAErr(i32),
    /// The main loop quit, with this return value.
    Quit(i32),
    ContextTerminated,
    SourceListChange,
    SinkListChange,
}

/// The message of a failure, one line ending in a newline; a PulseAudio
/// error's message is PulseAudio's own text for its code, `pa_error_text`.
pub open spec fn error_message(error: PulseAudioError, pa_error_text: Seq<char>) -> Seq<char> {
    match error {
        PulseAudioError::CreatePropList => "Failed to create PulseAudio proplist\n"@,
        PulseAudioError::UpdatePropList => "Failed to update PulseAudio proplist\n"@,
        PulseAudioError::CreateMainLoop => "Failed to create PulseAudio main_loop\n"@,
        PulseAudioError::CreateContext => "Failed to create PulseAudio context\n"@,
        PulseAudioError::PAErr(_) => pa_error_text,
        PulseAudioError::Quit(value) => "The PulseAudio client quit with return value: "@
            + decimal_text(value as int) + "\n"@,
        PulseAudioError::ContextTerminated => "The PulseAudio context failed or terminated.\n"@,
        PulseAudioError::SourceListChange =>
            "An error occurred while processing an update to the PulseAudio source list\n"@,
        PulseAudioError::SinkListChange =>
            "An error occurred while processing an update to the PulseAudio source list\n"@,
    }
}

impl PulseAudioError {
    /// The failure for a PulseAudio error code.
    pub fn from_pa_error(code: i32) -> (res: PulseAudioError)
        ensures
            res == PulseAudioError::PAErr(code),
    {
        PulseAudioError::PAErr(code)
    }

    /// The message of this failure. `pa_error_text` is PulseAudio's text
    /// for the error code, used only for [`PulseAudioError::PAErr`].
    pub fn message(&self, pa_error_text: &str) -> (res: String)
        ensures
            res@ == error_message(*self, pa_error_text@),
    {
        match self {
            PulseAudioError::CreatePropList => "Failed to create PulseAudio proplist\n".to_owned(),
            PulseAudioError::UpdatePropList => "Failed to update PulseAudio proplist\n".to_owned(),
            PulseAudioError::CreateMainLoop => "Failed to create PulseAudio main_loop\n".to_owned(),
            PulseAudioError::CreateContext => "Failed to create PulseAudio context\n".to_owned(),
            PulseAudioError::PAErr(_) => pa_error_text.to_owned(),
            PulseAudioError::Quit(value) => {
                let mut text = "The PulseAudio client quit with return value: ".to_owned();
                let number = i32_to_decimal(*value);
                text.append(number.as_str());
                text.append("\n");
                text
            },
            PulseAudioError::ContextTerminated =>
                "The PulseAudio context failed or terminated.\n".to_owned(),
            PulseAudioError::SourceListChange =>
                "An error occurred while processing an update to the PulseAudio source list\n".to_owned(),
            PulseAudioError::SinkListChange =>
                "An error occurred while processing an update to the PulseAudio source list\n".to_owned(),
        }
    }
}

} // verus!
