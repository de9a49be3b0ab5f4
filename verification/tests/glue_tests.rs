use vulkust::android_glue::{focus_cmd, AppCmd, GlueAction, GlueState, LooperId};

fn process(s: &mut GlueState, cmd: AppCmd) -> Vec<GlueAction> {
    let (read, mut actions) = s.read_cmd(Some(cmd.value()));
    assert_eq!(read, Some(cmd));
    actions.extend(s.pre_exec_cmd(cmd));
    actions.extend(s.post_exec_cmd(cmd));
    actions
}

#[test]
fn command_bytes_round_trip() {
    let all = [
        AppCmd::InputChanged,
        AppCmd::InitWindow,
        AppCmd::TermWindow,
        AppCmd::WindowResized,
        AppCmd::WindowRedrawNeeded,
        AppCmd::ContentRectChanged,
        AppCmd::GainedFocus,
        AppCmd::LostFocus,
        AppCmd::ConfigChanged,
        AppCmd::LowMemory,
        AppCmd::Start,
        AppCmd::Resume,
        AppCmd::SaveState,
        AppCmd::Pause,
        AppCmd::Stop,
        AppCmd::Destroy,
        AppCmd::InternalError,
    ];
    for c in all {
        assert_eq!(AppCmd::from_value(c.value()), Some(c));
    }
    assert_eq!(AppCmd::Destroy.value(), 16);
    assert_eq!(AppCmd::InternalError.value(), -1);
    assert_eq!(AppCmd::from_value(0), None);
    assert_eq!(AppCmd::from_value(17), None);
    assert_eq!(AppCmd::from_value(-2), None);
}

#[test]
fn looper_ids() {
    assert_eq!(LooperId::Main.value(), 1);
    assert_eq!(LooperId::Input.value(), 2);
    assert_eq!(LooperId::User.value(), 3);
}

#[test]
fn new_state_keeps_saved_state() {
    let s = GlueState::new(Some((0x1000, 24)));
    assert_eq!(s.saved_state, Some((0x1000, 24)));
    assert!(s.window.is_none() && s.input_queue.is_none());
    assert!(!s.running && !s.destroyed && !s.destroy_requested && !s.state_saved);
    assert_eq!(s.activity_state, 0);
}

#[test]
fn window_handshake() {
    let mut s = GlueState::new(None);
    let cmds = s.request_window(Some(0xAA));
    assert_eq!(cmds, vec![AppCmd::InitWindow]);
    assert!(!s.window_settled());
    for c in cmds {
        process(&mut s, c);
    }
    assert!(s.window_settled());
    assert_eq!(s.window, Some(0xAA));
    let cmds = s.request_window(Some(0xBB));
    assert_eq!(cmds, vec![AppCmd::TermWindow, AppCmd::InitWindow]);
    for c in cmds {
        process(&mut s, c);
    }
    assert_eq!(s.window, Some(0xBB));
    let cmds = s.request_window(None);
    assert_eq!(cmds, vec![AppCmd::TermWindow]);
    for c in cmds {
        process(&mut s, c);
    }
    assert_eq!(s.window, None);
    assert!(s.window_settled());
    let cmds = s.request_window(None);
    assert!(cmds.is_empty());
}

#[test]
fn input_queue_handshake() {
    let mut s = GlueState::new(None);
    let c = s.request_input_queue(Some(7));
    assert_eq!(c, AppCmd::InputChanged);
    assert!(!s.input_queue_settled());
    let actions = process(&mut s, c);
    assert_eq!(actions, vec![GlueAction::AttachInputQueue(7), GlueAction::Broadcast]);
    assert!(s.input_queue_settled());
    let c = s.request_input_queue(Some(9));
    let actions = process(&mut s, c);
    assert_eq!(
        actions,
        vec![GlueAction::DetachInputQueue(7), GlueAction::AttachInputQueue(9), GlueAction::Broadcast]
    );
    let c = s.request_input_queue(None);
    let actions = process(&mut s, c);
    assert_eq!(actions, vec![GlueAction::DetachInputQueue(9), GlueAction::Broadcast]);
    assert_eq!(s.input_queue, None);
}

#[test]
fn activity_states() {
    let mut s = GlueState::new(None);
    for c in [AppCmd::Start, AppCmd::Resume, AppCmd::Pause, AppCmd::Stop] {
        assert!(!s.activity_state_is(c));
        let actions = process(&mut s, c);
        assert!(s.activity_state_is(c));
        assert_eq!(s.activity_state, c.value() as i32);
        assert!(actions.contains(&GlueAction::Broadcast));
    }
}

#[test]
fn resume_frees_saved_state() {
    let mut s = GlueState::new(Some((0x40, 8)));
    let actions = process(&mut s, AppCmd::Resume);
    assert_eq!(actions, vec![GlueAction::Broadcast, GlueAction::FreeSavedState(0x40)]);
    assert_eq!(s.saved_state, None);
}

#[test]
fn save_state_handshake() {
    let mut s = GlueState::new(Some((0x40, 8)));
    let c = s.request_save_state();
    assert_eq!(c, AppCmd::SaveState);
    assert!(!s.state_saved);
    let (read, actions) = s.read_cmd(Some(c.value()));
    assert_eq!(read, Some(AppCmd::SaveState));
    assert_eq!(actions, vec![GlueAction::FreeSavedState(0x40)]);
    s.pre_exec_cmd(AppCmd::SaveState);
    // the application stores its state here
    s.saved_state = Some((0x80, 16));
    let actions = s.post_exec_cmd(AppCmd::SaveState);
    assert_eq!(actions, vec![GlueAction::Broadcast]);
    assert!(s.state_saved);
    assert_eq!(s.take_saved_state(), Some((0x80, 16)));
    assert_eq!(s.saved_state, None);
}

#[test]
fn destroy_and_config() {
    let mut s = GlueState::new(None);
    assert_eq!(process(&mut s, AppCmd::ConfigChanged), vec![GlueAction::ReloadConfiguration]);
    assert!(process(&mut s, AppCmd::LowMemory).is_empty());
    process(&mut s, AppCmd::Destroy);
    assert!(s.destroy_requested);
    let c = s.request_input_queue(Some(3));
    process(&mut s, c);
    let actions = s.destroy();
    assert_eq!(
        actions,
        vec![GlueAction::DetachInputQueue(3), GlueAction::DeleteConfiguration, GlueAction::Broadcast]
    );
    assert!(s.destroyed);
}

#[test]
fn start_running() {
    let mut s = GlueState::new(None);
    assert_eq!(s.start_running(), vec![GlueAction::Broadcast]);
    assert!(s.running);
}

#[test]
fn unreadable_and_unknown_bytes() {
    let mut s = GlueState::new(Some((1, 1)));
    let (c, a) = s.read_cmd(None);
    assert_eq!(c, None);
    assert!(a.is_empty());
    let (c, a) = s.read_cmd(Some(99));
    assert_eq!(c, None);
    assert!(a.is_empty());
    assert_eq!(s.saved_state, Some((1, 1)));
}

#[test]
fn focus_commands() {
    assert_eq!(focus_cmd(1), AppCmd::GainedFocus);
    assert_eq!(focus_cmd(-5), AppCmd::GainedFocus);
    assert_eq!(focus_cmd(0), AppCmd::LostFocus);
}
