use zebar::text::i32_to_decimal;
use zebar::audio_output::{AudioOutput, DeviceType};
use zebar::pulse_client::{
    plan_function, service_step, startup_step, AudioFunction, ContextPhase, Inbox,
    IterateOutcome, PulseCommand, ServiceStep, SetMuteArgs, SetVolumeArgs, StartupStep,
};
use zebar::pulse_error::PulseAudioError;
use zebar::pulse_state::{PulseAudioDevice, PulseAudioState};
use zebar::pulse_sync::{begin_sync, handle_sync_event, SyncAction, SyncEvent, SyncProgress};
use zebar::volume_levels::{
    percent_to_volume, VolumeLevels, VOLUME_CEILING, VOLUME_MUTED, VOLUME_NORMAL,
};

fn device(id: &str, description: &str, device_type: DeviceType, levels: Vec<u32>) -> PulseAudioDevice {
    PulseAudioDevice::from_info(
        Some(id.to_string()),
        Some(description.to_string()),
        VolumeLevels::new(levels),
        device_type,
        false,
    )
}

#[test]
fn percent_to_volume_exact_values() {
    assert_eq!(percent_to_volume(0), 0);
    assert_eq!(percent_to_volume(1), 655);
    assert_eq!(percent_to_volume(50), 32750);
    assert_eq!(percent_to_volume(99), 64845);
    assert_eq!(percent_to_volume(100), 65536);
    assert_eq!(percent_to_volume(120), 65536 + 20 * 655);
    assert_eq!(percent_to_volume(149), 97631);
    assert_eq!(percent_to_volume(150), 98304);
    assert_eq!(percent_to_volume(u32::MAX), 98304);
}

#[test]
fn percent_to_volume_is_monotonic_on_samples() {
    let mut last = 0;
    for p in 0..300u32 {
        let v = percent_to_volume(p);
        assert!(v >= last);
        assert!(v <= VOLUME_CEILING);
        last = v;
    }
    assert_eq!(percent_to_volume(0), VOLUME_MUTED);
    assert_eq!(percent_to_volume(100), VOLUME_NORMAL);
}

#[test]
fn set_percent_fills_every_channel() {
    let mut levels = VolumeLevels::new(vec![1, 2, 3]);
    levels.set_percent(50);
    assert_eq!(levels.levels(), &vec![32750, 32750, 32750]);
    let mut empty = VolumeLevels::new(vec![]);
    empty.set_percent(10);
    assert_eq!(empty.len(), 0);
}

#[test]
fn average_level_rounds_down() {
    let levels = VolumeLevels::new(vec![65536, 65535]);
    assert_eq!(levels.average_level(), 65535);
    let levels = VolumeLevels::new(vec![10, 20, 31]);
    assert_eq!(levels.average_level(), 20);
}

#[test]
fn from_channels_takes_the_first_channels() {
    let raw = [5u32, 6, 7, 8];
    assert_eq!(VolumeLevels::from_channels(&raw, 2).levels(), &vec![5, 6]);
    assert_eq!(VolumeLevels::from_channels(&raw, 0).len(), 0);
    assert_eq!(VolumeLevels::from_channels(&raw, 4).levels(), &vec![5, 6, 7, 8]);
}

#[test]
fn channels_round_trip() {
    let levels = VolumeLevels::new(vec![100, 200, 300]);
    let (channels, values) = levels.to_channels();
    assert_eq!(channels, 3);
    assert_eq!(values, vec![100, 200, 300]);
    assert_eq!(VolumeLevels::from_channels(&values, channels).levels(), levels.levels());
    let full = VolumeLevels::new(vec![7; 32]);
    let (channels, values) = full.to_channels();
    assert_eq!(channels, 32);
    assert_eq!(VolumeLevels::from_channels(&values, channels).levels(), &vec![7; 32]);
}

#[test]
fn from_info_defaults_missing_texts_to_empty() {
    let d = PulseAudioDevice::from_info(None, None, VolumeLevels::new(vec![1]), DeviceType::Recording, true);
    assert_eq!(d.id, "");
    assert_eq!(d.description, "");
    assert!(d.is_muted);
}

#[test]
fn insert_replaces_a_device_of_the_same_name() {
    let mut state = PulseAudioState::new();
    state.insert(device("a", "first", DeviceType::Playback, vec![1]));
    state.insert(device("b", "second", DeviceType::Recording, vec![2]));
    state.insert(device("a", "third", DeviceType::Playback, vec![3]));
    assert_eq!(state.device_count(), 2);
    assert_eq!(state.device_at(0).description, "third");
    assert_eq!(state.device_at(1).description, "second");
    let found = state.find_device(&Some("a".to_string())).unwrap();
    assert_eq!(found.description, "third");
    assert!(state.find_device(&Some("c".to_string())).is_none());
    assert!(state.find_device(&None).is_none());
    state.clear_devices();
    assert_eq!(state.device_count(), 0);
}

#[test]
fn output_classifies_devices_and_defaults() {
    let mut state = PulseAudioState::new();
    state.insert(device("sink1", "Speakers", DeviceType::Playback, vec![65536]));
    state.insert(device("src1", "Mic", DeviceType::Recording, vec![0]));
    state.insert(device("sink2", "Headphones", DeviceType::Playback, vec![32768]));
    state.set_defaults(Some("src1".to_string()), Some("sink2".to_string()));
    let output = AudioOutput::from_state(&state, &vec![100, 0, 50]);
    assert_eq!(output.all_devices.len(), 3);
    assert_eq!(output.playback_devices.len(), 2);
    assert_eq!(output.recording_devices.len(), 1);
    assert_eq!(output.all_devices[0].name, "Speakers");
    assert_eq!(output.all_devices[0].volume, 100);
    assert!(!output.all_devices[0].is_default_playback);
    assert!(output.all_devices[2].is_default_playback);
    assert!(output.all_devices[1].is_default_recording);
    let default_playback = output.default_playback_device.unwrap();
    assert_eq!(default_playback.device_id, "sink2");
    assert_eq!(default_playback.volume, 50);
    assert_eq!(output.default_recording_device.unwrap().device_id, "src1");
}

#[test]
fn output_without_matching_default_has_none() {
    let mut state = PulseAudioState::new();
    state.insert(device("src1", "Mic", DeviceType::Recording, vec![0]));
    // The default sink names a recording device: it is marked but not the
    // default playback device.
    state.set_defaults(None, Some("src1".to_string()));
    let output = AudioOutput::from_state(&state, &vec![0]);
    assert!(output.all_devices[0].is_default_playback);
    assert!(output.default_playback_device.is_none());
    assert!(output.default_recording_device.is_none());
    let empty = AudioOutput::default();
    assert!(empty.all_devices.is_empty());
}

#[test]
fn sync_round_reports_once_all_parts_are_done() {
    let mut state = PulseAudioState::new();
    state.insert(device("old", "Old", DeviceType::Playback, vec![1]));
    let mut progress = begin_sync(&mut state);
    assert_eq!(progress, SyncProgress::new());
    assert_eq!(state.device_count(), 0);
    let a = handle_sync_event(
        &mut progress,
        &mut state,
        SyncEvent::SinkItem {
            name: Some("sink".to_string()),
            description: Some("Speakers".to_string()),
            levels: VolumeLevels::new(vec![65536]),
            is_muted: false,
        },
    );
    assert_eq!(a, SyncAction::Nothing);
    assert_eq!(handle_sync_event(&mut progress, &mut state, SyncEvent::SinkListEnd), SyncAction::Nothing);
    assert_eq!(
        handle_sync_event(
            &mut progress,
            &mut state,
            SyncEvent::ServerInfo { default_source: None, default_sink: Some("sink".to_string()) },
        ),
        SyncAction::Nothing
    );
    assert_eq!(
        handle_sync_event(&mut progress, &mut state, SyncEvent::SourceListError),
        SyncAction::ReportError(PulseAudioError::SourceListChange)
    );
    assert_eq!(
        handle_sync_event(&mut progress, &mut state, SyncEvent::SourceListEnd),
        SyncAction::ReportState
    );
    assert_eq!(state.device_count(), 1);
    assert_eq!(state.device_at(0).device_type, DeviceType::Playback);
    assert_eq!(state.default_sink(), &Some("sink".to_string()));
    assert_eq!(
        handle_sync_event(&mut progress, &mut state, SyncEvent::SinkListError),
        SyncAction::ReportError(PulseAudioError::SinkListChange)
    );
}

#[test]
fn source_items_are_recording_devices() {
    let mut state = PulseAudioState::new();
    let mut progress = begin_sync(&mut state);
    handle_sync_event(
        &mut progress,
        &mut state,
        SyncEvent::SourceItem {
            name: None,
            description: Some("Mic".to_string()),
            levels: VolumeLevels::new(vec![0, 0]),
            is_muted: true,
        },
    );
    assert_eq!(state.device_at(0).device_type, DeviceType::Recording);
    assert_eq!(state.device_at(0).id, "");
    assert!(state.device_at(0).is_muted);
}

#[test]
fn startup_steps() {
    assert_eq!(startup_step(IterateOutcome::Quit(3), ContextPhase::Ready), StartupStep::Fail(PulseAudioError::Quit(3)));
    assert_eq!(startup_step(IterateOutcome::Failed(-2), ContextPhase::Ready), StartupStep::Fail(PulseAudioError::PAErr(-2)));
    assert_eq!(startup_step(IterateOutcome::Success(1), ContextPhase::Ready), StartupStep::Ready);
    assert_eq!(startup_step(IterateOutcome::Success(0), ContextPhase::Connecting), StartupStep::KeepWaiting);
    assert_eq!(startup_step(IterateOutcome::Success(0), ContextPhase::Failed), StartupStep::Fail(PulseAudioError::ContextTerminated));
    assert_eq!(startup_step(IterateOutcome::Success(0), ContextPhase::Terminated), StartupStep::Fail(PulseAudioError::ContextTerminated));
}

#[test]
fn service_steps() {
    assert!(matches!(service_step(true, Inbox::Request(1)), ServiceStep::Stop { failed: false }));
    assert!(matches!(service_step(false, Inbox::Request(1)), ServiceStep::Serve(1)));
    assert!(matches!(service_step::<u8>(false, Inbox::Empty), ServiceStep::Idle));
    assert!(matches!(service_step::<u8>(false, Inbox::Disconnected), ServiceStep::Stop { failed: true }));
}

#[test]
fn plan_volume_and_mute_commands() {
    let mut state = PulseAudioState::new();
    state.insert(device("sink", "Speakers", DeviceType::Playback, vec![1, 2]));
    state.insert(device("src", "Mic", DeviceType::Recording, vec![3]));
    match plan_function(&state, AudioFunction::SetVolume(SetVolumeArgs { volume: 100, device_id: Some("sink".to_string()) })) {
        Ok(PulseCommand::SetSinkVolume { name, levels }) => {
            assert_eq!(name, "sink");
            assert_eq!(levels.levels(), &vec![65536, 65536]);
        }
        other => panic!("unexpected {:?}", other),
    }
    match plan_function(&state, AudioFunction::SetVolume(SetVolumeArgs { volume: 10, device_id: Some("src".to_string()) })) {
        Ok(PulseCommand::SetSourceVolume { name, levels }) => {
            assert_eq!(name, "src");
            assert_eq!(levels.levels(), &vec![6550]);
        }
        other => panic!("unexpected {:?}", other),
    }
    match plan_function(&state, AudioFunction::SetMute(SetMuteArgs { mute: true, device_id: Some("src".to_string()) })) {
        Ok(PulseCommand::SetSourceMute { name, mute }) => {
            assert_eq!(name, "src");
            assert!(mute);
        }
        other => panic!("unexpected {:?}", other),
    }
    match plan_function(&state, AudioFunction::SetMute(SetMuteArgs { mute: false, device_id: Some("sink".to_string()) })) {
        Ok(PulseCommand::SetSinkMute { name, mute }) => {
            assert_eq!(name, "sink");
            assert!(!mute);
        }
        other => panic!("unexpected {:?}", other),
    }
}

#[test]
fn plan_without_target_replies_with_error() {
    let state = PulseAudioState::new();
    match plan_function(&state, AudioFunction::SetVolume(SetVolumeArgs { volume: 10, device_id: None })) {
        Err(message) => assert_eq!(message, "Could not set volume: no device to adjust"),
        other => panic!("unexpected {:?}", other),
    }
    match plan_function(&state, AudioFunction::SetMute(SetMuteArgs { mute: true, device_id: Some("x".to_string()) })) {
        Err(message) => assert_eq!(message, "Could not set mute: no device to adjust"),
        other => panic!("unexpected {:?}", other),
    }
}

#[test]
fn error_messages() {
    assert_eq!(PulseAudioError::CreatePropList.message(""), "Failed to create PulseAudio proplist\n");
    assert_eq!(PulseAudioError::UpdatePropList.message(""), "Failed to update PulseAudio proplist\n");
    assert_eq!(PulseAudioError::CreateMainLoop.message(""), "Failed to create PulseAudio main_loop\n");
    assert_eq!(PulseAudioError::CreateContext.message(""), "Failed to create PulseAudio context\n");
    assert_eq!(PulseAudioError::from_pa_error(-3).message("Bad state"), "Bad state");
    assert_eq!(PulseAudioError::Quit(-12).message(""), "The PulseAudio client quit with return value: -12\n");
    assert_eq!(PulseAudioError::Quit(0).message(""), "The PulseAudio client quit with return value: 0\n");
    assert_eq!(PulseAudioError::ContextTerminated.message(""), "The PulseAudio context failed or terminated.\n");
    assert_eq!(
        PulseAudioError::SourceListChange.message(""),
        "An error occurred while processing an update to the PulseAudio source list\n"
    );
    assert_eq!(
        PulseAudioError::SinkListChange.message(""),
        "An error occurred while processing an update to the PulseAudio source list\n"
    );
}

#[test]
fn decimal_text_of_i32() {
    assert_eq!(i32_to_decimal(0), "0");
    assert_eq!(i32_to_decimal(7), "7");
    assert_eq!(i32_to_decimal(-5), "-5");
    assert_eq!(i32_to_decimal(1234567890), "1234567890");
    assert_eq!(i32_to_decimal(i32::MAX), i32::MAX.to_string());
    assert_eq!(i32_to_decimal(i32::MIN), i32::MIN.to_string());
    for v in [-1000, -10, -9, 9, 10, 99, 100, 65536] {
        assert_eq!(i32_to_decimal(v), v.to_string());
    }
}
