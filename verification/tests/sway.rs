use zebar::providers::{
    AudioInputStep, AudioProvider, ProviderFunction, ProviderFunctionResponse, ProviderInputMsg,
    RuntimeType, SwayFunction, SwayInputStep, SwayProvider,
};
use zebar::pulse_client::{AudioFunction, SetMuteArgs};
use zebar::sway_client::{command_outcome, render_group_message, SwayErrorGroup};
use zebar::sway_output::{workspace_eq, SwayOutput, SwayRect, SwayWorkspace};
use zebar::window_layout::{app_bar_placement, AppBarPlacement, DockEdge};

fn workspace(id: i64, name: &str, focused: bool) -> SwayWorkspace {
    SwayWorkspace {
        id,
        num: 1,
        name: name.to_string(),
        layout: "splith".to_string(),
        visible: true,
        focused,
        urgent: false,
        representation: Some("H[foot]".to_string()),
        orientation: "horizontal".to_string(),
        rect: SwayRect { x: 0, y: 0, width: 1920, height: 1080 },
        output: "eDP-1".to_string(),
        focus: vec![5, 6],
    }
}

#[test]
fn workspace_eq_ignores_orientation_only() {
    let a = workspace(1, "1", true);
    let mut b = workspace(1, "1", true);
    b.orientation = "vertical".to_string();
    assert!(workspace_eq(&a, &b));
    b.focus = vec![6, 5];
    assert!(!workspace_eq(&a, &b));
    let c = workspace(1, "1", false);
    assert!(!workspace_eq(&a, &c));
    let mut d = workspace(1, "1", true);
    d.representation = None;
    assert!(!workspace_eq(&a, &d));
    let mut e = workspace(1, "1", true);
    e.rect.width = 10;
    assert!(!workspace_eq(&a, &e));
}

#[test]
fn active_binding_mode_is_none_for_empty_state() {
    let out = SwayOutput::new(vec![], vec![], vec!["default".to_string()], String::new());
    assert_eq!(out.active_binding_mode, None);
    let out = SwayOutput::new(vec![], vec![], vec!["default".to_string()], "resize".to_string());
    assert_eq!(out.active_binding_mode, Some("resize".to_string()));
}

#[test]
fn sway_output_eq_compares_workspaces_pairwise() {
    let a = SwayOutput::new(vec![workspace(1, "1", true)], vec![], vec!["default".to_string()], String::new());
    let b = SwayOutput::new(
        vec![workspace(1, "1", true), workspace(2, "2", false)],
        vec![],
        vec!["default".to_string()],
        String::new(),
    );
    // Only the workspaces both outputs have are compared.
    assert!(a == b);
    assert!(b == a);
    assert!(!(a != b));
    let c = SwayOutput::new(vec![workspace(1, "1", false)], vec![], vec!["default".to_string()], String::new());
    assert!(a != c);
    let d = SwayOutput::new(vec![workspace(1, "1", true)], vec![], vec!["resize".to_string()], String::new());
    assert!(a != d);
    let e = SwayOutput::new(vec![workspace(1, "1", true)], vec![], vec!["default".to_string()], "resize".to_string());
    assert!(a != e);
    assert!(a == a);
}

#[test]
fn command_outcome_collects_failures_in_order() {
    assert!(command_outcome(vec![Ok(()), Ok(())]).is_ok());
    assert!(command_outcome(vec![]).is_ok());
    let res = command_outcome(vec![
        Ok(()),
        Err(swayipc_async::Error::CommandFailed("first".to_string())),
        Ok(()),
        Err(swayipc_async::Error::CommandParse("second".to_string())),
    ]);
    let group = res.unwrap_err();
    assert_eq!(group.0.len(), 2);
    assert!(matches!(&group.0[0], swayipc_async::Error::CommandFailed(m) if m == "first"));
    assert!(matches!(&group.0[1], swayipc_async::Error::CommandParse(m) if m == "second"));
    assert_eq!(
        group.message(),
        "Sway encountered one or more errors. Details:\ncommand failed with 'first'\ncommand could not be parsed 'second'\n"
    );
}

#[test]
fn group_message_lists_each_failure() {
    assert_eq!(
        render_group_message(&vec!["a".to_string(), "b".to_string()]),
        "Sway encountered one or more errors. Details:\na\nb\n"
    );
    assert_eq!(render_group_message(&vec![]), "Sway encountered one or more errors. Details:\n");
    let group = SwayErrorGroup::new(vec![]);
    assert_eq!(group.message(), "Sway encountered one or more errors. Details:\n");
    let from: SwayErrorGroup = vec![swayipc_async::Error::SocketNotFound].into();
    assert_eq!(from.0.len(), 1);
}

#[test]
fn providers_route_their_messages() {
    let audio = AudioProvider::new(7u8);
    assert_eq!(audio.0, 7);
    assert_eq!(audio.runtime_type(), RuntimeType::Async);
    assert!(matches!(audio.route_input::<u8>(ProviderInputMsg::Stop), AudioInputStep::Stop));
    let msg = ProviderInputMsg::Function(
        ProviderFunction::Audio(AudioFunction::SetMute(SetMuteArgs { mute: true, device_id: None })),
        3u8,
    );
    assert!(matches!(audio.route_input(msg), AudioInputStep::Forward(AudioFunction::SetMute(_), 3)));
    let msg = ProviderInputMsg::Function(ProviderFunction::Sway(SwayFunction::RunCommand("x".to_string())), 4u8);
    assert!(matches!(audio.route_input(msg), AudioInputStep::Ignore));

    let sway = SwayProvider::new("common");
    assert_eq!(sway.runtime_type(), RuntimeType::Async);
    let msg = ProviderInputMsg::Function(ProviderFunction::Sway(SwayFunction::RunCommand("workspace 2".to_string())), 5u8);
    match sway.route_input(msg) {
        SwayInputStep::RunCommand(payload, sender) => {
            assert_eq!(payload, "workspace 2");
            assert_eq!(sender, 5);
        }
        _ => panic!("expected a command"),
    }
    let msg = ProviderInputMsg::Function(
        ProviderFunction::Audio(AudioFunction::SetMute(SetMuteArgs { mute: true, device_id: None })),
        6u8,
    );
    assert!(matches!(sway.route_input(msg), SwayInputStep::Ignore));
    assert!(matches!(sway.route_input::<u8>(ProviderInputMsg::Stop), SwayInputStep::Stop));
}

#[test]
fn sway_replies() {
    assert_eq!(SwayProvider::<u8>::command_reply(Ok(())), Ok(ProviderFunctionResponse::Null));
    assert_eq!(SwayProvider::<u8>::command_reply(Err("bad".to_string())), Err("bad".to_string()));
    assert_eq!(SwayProvider::<u8>::init_failure_message(), "Failed to initialize sway client.");
}

#[test]
fn app_bar_placement_uses_absolute_margin() {
    assert_eq!(
        app_bar_placement(1920, 40, -40, DockEdge::Top),
        AppBarPlacement { anchor: DockEdge::Top, exclusive_zone: -40, margin: 40, width: 1920, height: 40 }
    );
    assert_eq!(app_bar_placement(10, 20, 30, DockEdge::Left).margin, 30);
}
