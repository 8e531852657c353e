use voxel_planet::action::{Action, AppConfig, ConfigAction, ConsoleAction, SceneAction, WindowAction};
use voxel_planet::input::{
    ConsoleInputContext, EventAction, EventInterpreter, InputContext, InputEvent,
    InputSystemAction, Key, PuppetInputContext, SceneInputContext, SceneInputState,
};
use voxel_planet::math::Vec3i;
use voxel_planet::time::Timestamp;

type Pan = (f32, f32);

fn key(key: Key, pressed: bool) -> InputEvent<Pan> {
    InputEvent::Keyboard { key, pressed }
}

fn console_action(action: EventAction<Pan>) -> Option<ConsoleAction> {
    match action {
        EventAction::React(Action::Console(action)) => Some(action),
        _ => None,
    }
}

#[test]
fn config_actions_toggle_and_close() {
    let mut config = AppConfig::default();
    assert_eq!(
        config,
        AppConfig { hide_debug_overlay: false, hide_volumes: false, should_exit: false }
    );
    ConfigAction::ToggleDebugOverlay.perform(&mut config);
    assert!(config.hide_debug_overlay);
    ConfigAction::ToggleDebugOverlay.perform(&mut config);
    assert!(!config.hide_debug_overlay);
    ConfigAction::ToglePaintColliderVolumes.perform(&mut config);
    assert!(config.hide_volumes);
    ConfigAction::RequestClose.perform(&mut config);
    ConfigAction::RequestClose.perform(&mut config);
    assert_eq!(
        config,
        AppConfig { hide_debug_overlay: false, hide_volumes: true, should_exit: true }
    );
}

#[test]
fn scene_state_tracks_keys_and_accumulates_pan() {
    let merge = |prior: Pan, pan: Pan| (prior.0 + pan.0, prior.1 + pan.1);
    let mut state: SceneInputState<Pan> = SceneInputState::new();
    state.update(SceneAction::Forward(true), merge);
    state.update(SceneAction::Left(true), merge);
    state.update(SceneAction::Left(false), merge);
    state.update(SceneAction::Down(true), merge);
    assert!(state.forward && !state.backward && !state.left && !state.right);
    assert!(state.down && !state.up);
    assert_eq!(state.pan, None);
    state.update(SceneAction::Pan((1.0, 2.0)), merge);
    assert_eq!(state.pan, Some((1.0, 2.0)));
    state.update(SceneAction::Pan((0.5, -4.0)), merge);
    assert_eq!(state.pan, Some((1.5, -2.0)));
    state.reset();
    assert_eq!(state.pan, None);
    assert!(state.forward && state.down);
    state.update(SceneAction::Backward(true), merge);
    state.update(SceneAction::Right(true), merge);
    state.update(SceneAction::Up(true), merge);
    assert!(state.backward && state.right && state.up);
}

#[test]
fn scene_context_binds_movement_keys() {
    let mut scene = SceneInputContext::new();
    assert!(matches!(
        scene.on_active::<Pan>(),
        Some(Action::Window(WindowAction::GrabCursor))
    ));
    assert!(matches!(
        scene.interpret(key(Key::W, true)),
        EventAction::React(Action::Scene(SceneAction::Forward(true)))
    ));
    assert!(matches!(
        scene.interpret(key(Key::S, false)),
        EventAction::React(Action::Scene(SceneAction::Backward(false)))
    ));
    assert!(matches!(
        scene.interpret(key(Key::A, true)),
        EventAction::React(Action::Scene(SceneAction::Left(true)))
    ));
    assert!(matches!(
        scene.interpret(key(Key::D, true)),
        EventAction::React(Action::Scene(SceneAction::Right(true)))
    ));
    assert!(matches!(
        scene.interpret(key(Key::Space, true)),
        EventAction::React(Action::Scene(SceneAction::Up(true)))
    ));
    assert!(matches!(
        scene.interpret(key(Key::LShift, false)),
        EventAction::React(Action::Scene(SceneAction::Down(false)))
    ));
    assert!(matches!(
        scene.interpret(key(Key::T, true)),
        EventAction::React(Action::Console(ConsoleAction::Show))
    ));
    assert!(matches!(scene.interpret(key(Key::Escape, true)), EventAction::Unconsumed));
    assert!(matches!(
        scene.interpret(InputEvent::<Pan>::ReceivedCharacter('w')),
        EventAction::Unconsumed
    ));
    assert!(matches!(scene.interpret(InputEvent::<Pan>::Other), EventAction::Unconsumed));
    match scene.interpret(InputEvent::MouseMotion((3.0f32, -1.0f32))) {
        EventAction::React(Action::Scene(SceneAction::Pan(pan))) => assert_eq!(pan, (3.0, -1.0)),
        _ => panic!("mouse motion must pan"),
    }
}

#[test]
fn console_context_inserts_printable_ascii_only() {
    let mut console = ConsoleInputContext::new();
    let typed = |console: &mut ConsoleInputContext, ch: char| {
        console_action(console.interpret(InputEvent::<Pan>::ReceivedCharacter(ch)))
    };
    assert_eq!(typed(&mut console, 'a'), Some(ConsoleAction::Insert(b'a')));
    assert_eq!(typed(&mut console, ' '), Some(ConsoleAction::Insert(0x20)));
    assert_eq!(typed(&mut console, '~'), Some(ConsoleAction::Insert(0x7e)));
    assert_eq!(typed(&mut console, 'Z'), Some(ConsoleAction::Insert(90)));
    assert_eq!(typed(&mut console, '\u{7f}'), None);
    assert_eq!(typed(&mut console, '\u{1f}'), None);
    assert_eq!(typed(&mut console, '\n'), None);
    assert_eq!(typed(&mut console, '\0'), None);
    assert_eq!(typed(&mut console, 'é'), None);
    assert_eq!(typed(&mut console, '\u{80}'), None);
    assert_eq!(typed(&mut console, '\u{161}'), None);
    assert_eq!(typed(&mut console, '語'), None);
}

#[test]
fn console_context_ignores_first_character_after_opening() {
    let mut console = ConsoleInputContext::new();
    assert!(matches!(
        console.on_active::<Pan>(),
        Some(Action::Window(WindowAction::UngrabCursor))
    ));
    assert!(matches!(
        console.interpret(InputEvent::<Pan>::ReceivedCharacter('t')),
        EventAction::Unconsumed
    ));
    assert_eq!(
        console_action(console.interpret(InputEvent::<Pan>::ReceivedCharacter('t'))),
        Some(ConsoleAction::Insert(b't'))
    );
    console.on_active::<Pan>();
    assert!(matches!(console.interpret(key(Key::T, true)), EventAction::Unconsumed));
    assert_eq!(
        console_action(console.interpret(InputEvent::<Pan>::ReceivedCharacter('t'))),
        Some(ConsoleAction::Insert(b't'))
    );
}

#[test]
fn console_context_binds_editing_keys_on_press() {
    let mut console = ConsoleInputContext::new();
    let mut pressed = |k: Key| console_action(console.interpret(key(k, true)));
    assert_eq!(pressed(Key::Escape), Some(ConsoleAction::Hide));
    assert_eq!(pressed(Key::Return), Some(ConsoleAction::Submit));
    assert_eq!(pressed(Key::Back), Some(ConsoleAction::Backspace));
    assert_eq!(pressed(Key::Up), Some(ConsoleAction::NavigateBackwards));
    assert_eq!(pressed(Key::Down), Some(ConsoleAction::NavigateForwards));
    assert_eq!(pressed(Key::Left), Some(ConsoleAction::ShiftLeft));
    assert_eq!(pressed(Key::Right), Some(ConsoleAction::ShiftRight));
    assert_eq!(pressed(Key::Home), Some(ConsoleAction::ShiftHome));
    assert_eq!(pressed(Key::End), Some(ConsoleAction::ShiftEnd));
    assert_eq!(pressed(Key::W), None);
    assert_eq!(pressed(Key::Tab), None);
    assert_eq!(pressed(Key::Other), None);
    assert!(matches!(console.interpret(key(Key::Escape, false)), EventAction::Unconsumed));
    assert!(matches!(
        console.interpret(InputEvent::MouseMotion((1.0f32, 1.0f32))),
        EventAction::Unconsumed
    ));
}

#[test]
fn interpreter_routes_events_to_topmost_context() {
    let mut events = EventInterpreter::new();
    assert!(matches!(events.consume(key(Key::W, true)), EventAction::Unconsumed));
    assert!(events.pop_context::<Pan>().is_none());
    assert!(matches!(
        events.push_context::<Pan>(InputContext::Scene(SceneInputContext::new())),
        Some(Action::Window(WindowAction::GrabCursor))
    ));
    assert!(matches!(
        events.consume(key(Key::W, true)),
        EventAction::React(Action::Scene(SceneAction::Forward(true)))
    ));
    assert!(matches!(
        events.push_context::<Pan>(InputContext::Console(ConsoleInputContext::new())),
        Some(Action::Window(WindowAction::UngrabCursor))
    ));
    assert!(matches!(
        events.consume(InputEvent::<Pan>::ReceivedCharacter('t')),
        EventAction::Unconsumed
    ));
    assert!(matches!(
        events.consume(InputEvent::<Pan>::ReceivedCharacter('x')),
        EventAction::React(Action::Console(ConsoleAction::Insert(120)))
    ));
    assert!(matches!(events.consume(key(Key::W, true)), EventAction::Unconsumed));
    assert!(matches!(
        events.pop_context::<Pan>(),
        Some(Action::Window(WindowAction::GrabCursor))
    ));
    assert!(matches!(
        events.consume(key(Key::W, false)),
        EventAction::React(Action::Scene(SceneAction::Forward(false)))
    ));
    assert!(events.pop_context::<Pan>().is_none());
    assert!(matches!(events.consume(key(Key::W, true)), EventAction::Unconsumed));
}

#[test]
fn popping_to_a_console_marks_it_as_just_opened() {
    let mut events = EventInterpreter::new();
    events.push_context::<Pan>(InputContext::Console(ConsoleInputContext::new()));
    events.consume(key(Key::Other, true));
    events.push_context::<Pan>(InputContext::Scene(SceneInputContext::new()));
    assert!(matches!(
        events.pop_context::<Pan>(),
        Some(Action::Window(WindowAction::UngrabCursor))
    ));
    assert!(matches!(
        events.consume(InputEvent::<Pan>::ReceivedCharacter('q')),
        EventAction::Unconsumed
    ));
    assert!(matches!(
        events.consume(InputEvent::<Pan>::ReceivedCharacter('q')),
        EventAction::React(Action::Console(ConsoleAction::Insert(113)))
    ));
}

#[test]
fn vec3i_zero_and_from_array() {
    assert_eq!(Vec3i::zero(), Vec3i { x: 0, y: 0, z: 0 });
    assert_eq!(Vec3i::from_array([1, -2, 3]), Vec3i { x: 1, y: -2, z: 3 });
}

#[test]
fn timestamp_differences_in_millis() {
    let earlier = Timestamp::from_millis(1_000);
    let later = Timestamp::from_millis(1_500);
    assert_eq!(later.as_millis(), 1_500);
    assert_eq!(later.millis_since(earlier), 500);
    assert_eq!(later.millis_since(later), 0);
    assert_eq!(Timestamp(7), Timestamp::from_millis(7));
}

#[test]
fn input_system_actions_push_and_pop_contexts() {
    let mut events = EventInterpreter::new();
    let push_scene = InputSystemAction::PushContext(InputContext::Scene(SceneInputContext::new()));
    assert!(matches!(
        push_scene.perform::<Pan>(&mut events),
        Some(Action::Window(WindowAction::GrabCursor))
    ));
    let push_console =
        InputSystemAction::PushContext(InputContext::Console(ConsoleInputContext::new()));
    assert!(matches!(
        push_console.perform::<Pan>(&mut events),
        Some(Action::Window(WindowAction::UngrabCursor))
    ));
    assert!(matches!(
        InputSystemAction::PopContext.perform::<Pan>(&mut events),
        Some(Action::Window(WindowAction::GrabCursor))
    ));
    assert!(matches!(
        events.consume(key(Key::D, true)),
        EventAction::React(Action::Scene(SceneAction::Right(true)))
    ));
    assert!(InputSystemAction::PopContext.perform::<Pan>(&mut events).is_none());
    assert!(InputSystemAction::PopContext.perform::<Pan>(&mut events).is_none());
}

#[test]
fn puppet_context_grabs_cursor() {
    let mut context = PuppetInputContext::new();
    assert!(matches!(
        context.on_active::<Pan>(),
        Some(Action::Window(WindowAction::GrabCursor))
    ));
}

#[test]
fn actions_convert_into_wider_types() {
    let close: Action<Pan> = ConfigAction::RequestClose.into();
    assert!(matches!(close, Action::Config(ConfigAction::RequestClose)));
    let show: Action<Pan> = ConsoleAction::Show.into();
    assert!(matches!(show, Action::Console(ConsoleAction::Show)));
    let up: Action<Pan> = SceneAction::Up(true).into();
    assert!(matches!(up, Action::Scene(SceneAction::Up(true))));
    let grab: Action<Pan> = WindowAction::GrabCursor.into();
    assert!(matches!(grab, Action::Window(WindowAction::GrabCursor)));
    let reaction: EventAction<Pan> = grab.into();
    assert!(matches!(reaction, EventAction::React(Action::Window(WindowAction::GrabCursor))));
    let typed: EventAction<Pan> = ConsoleAction::Insert(65).into();
    assert!(matches!(typed, EventAction::React(Action::Console(ConsoleAction::Insert(65)))));
    let pan: EventAction<Pan> = SceneAction::Pan((1.0f32, 2.0f32)).into();
    assert!(matches!(pan, EventAction::React(Action::Scene(SceneAction::Pan(_)))));
    let scene: InputContext = SceneInputContext::new().into();
    assert!(matches!(scene, InputContext::Scene(_)));
    let console: InputContext = ConsoleInputContext::new().into();
    assert!(matches!(console, InputContext::Console(_)));
    assert_eq!(Vec3i::from([4, 5, -6]), Vec3i { x: 4, y: 5, z: -6 });
}
