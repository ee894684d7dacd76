use window_lifecycle::lifecycle::{on_close_requested, CloseDecision};
use window_lifecycle::opener::{HostRequest, OpenProgress, OpenSettings};
use window_lifecycle::policy::ClosePolicy;
use window_lifecycle::registry::WindowRegistry;
use window_lifecycle::shutdown::{
    ShutdownAction, ShutdownCoordinator, ShutdownPhase, EXIT_CODE, GRACE_INTERVAL_MS,
};
use window_lifecycle::window::{settings_descriptor, BuildMode, ContentSource, WindowDescriptor};

fn window(label: &str) -> WindowDescriptor {
    WindowDescriptor {
        label: label.to_string(),
        title: format!("{} window", label),
        width: 800,
        height: 600,
        centered: false,
        content: ContentSource::Bundled("index.html".to_string()),
    }
}

fn launched() -> (WindowRegistry, ShutdownCoordinator) {
    let mut registry = WindowRegistry::new();
    assert_eq!(registry.insert(window("main"), true), Some(ClosePolicy::Shutdown));
    (registry, ShutdownCoordinator::new())
}

fn drain(
    coordinator: &mut ShutdownCoordinator,
    registry: &mut WindowRegistry,
) -> Vec<ShutdownAction> {
    let mut actions = Vec::new();
    while let Some(action) = coordinator.next_action(registry) {
        actions.push(action);
        assert!(actions.len() < 1000);
    }
    actions
}

#[test]
fn close_decisions_suppress_the_default_close_of_tracked_windows() {
    assert!(!CloseDecision::NotTracked.prevents_close());
    assert!(CloseDecision::Hide.prevents_close());
    assert!(CloseDecision::BeginShutdown.prevents_close());
    assert!(CloseDecision::ShutdownUnderWay.prevents_close());
}

#[test]
fn closing_a_secondary_window_hides_it() {
    let (mut registry, mut coordinator) = launched();
    registry.insert(window("about"), true);
    let decision = on_close_requested(&mut registry, &mut coordinator, "about");
    assert_eq!(decision, CloseDecision::Hide);
    let about = registry.lookup("about").unwrap();
    assert!(!about.visible);
    assert_eq!(about.descriptor, window("about"));
    assert!(registry.lookup("main").unwrap().visible);
    assert_eq!(registry.len(), 2);
    assert_eq!(coordinator.phase(), ShutdownPhase::Idle);
    assert!(!coordinator.in_progress());
}

#[test]
fn closing_a_hidden_window_again_leaves_it_hidden() {
    let (mut registry, mut coordinator) = launched();
    registry.insert(window("about"), true);
    assert_eq!(on_close_requested(&mut registry, &mut coordinator, "about"), CloseDecision::Hide);
    assert_eq!(on_close_requested(&mut registry, &mut coordinator, "about"), CloseDecision::Hide);
    assert!(!registry.lookup("about").unwrap().visible);
    assert_eq!(registry.len(), 2);
}

#[test]
fn closing_an_untracked_window_is_not_intercepted() {
    let (mut registry, mut coordinator) = launched();
    let decision = on_close_requested(&mut registry, &mut coordinator, "about");
    assert_eq!(decision, CloseDecision::NotTracked);
    assert!(!decision.prevents_close());
    assert_eq!(registry.len(), 1);
    assert_eq!(coordinator.phase(), ShutdownPhase::Idle);
}

#[test]
fn closing_an_untracked_primary_window_starts_nothing() {
    let mut registry = WindowRegistry::new();
    let mut coordinator = ShutdownCoordinator::new();
    let decision = on_close_requested(&mut registry, &mut coordinator, "main");
    assert_eq!(decision, CloseDecision::NotTracked);
    assert!(!coordinator.in_progress());
    assert_eq!(coordinator.next_action(&mut registry), None);
}

#[test]
fn closing_the_primary_window_begins_the_shutdown_and_does_not_hide_it() {
    let (mut registry, mut coordinator) = launched();
    registry.insert(window("about"), false);
    let decision = on_close_requested(&mut registry, &mut coordinator, "main");
    assert_eq!(decision, CloseDecision::BeginShutdown);
    assert!(decision.prevents_close());
    assert!(registry.lookup("main").unwrap().visible);
    assert!(!registry.lookup("about").unwrap().visible);
    assert_eq!(registry.len(), 2);
    assert_eq!(coordinator.phase(), ShutdownPhase::Closing);
    assert!(coordinator.in_progress());
}

#[test]
fn the_shutdown_is_entered_once() {
    let (mut registry, mut coordinator) = launched();
    assert_eq!(
        on_close_requested(&mut registry, &mut coordinator, "main"),
        CloseDecision::BeginShutdown
    );
    assert_eq!(
        on_close_requested(&mut registry, &mut coordinator, "main"),
        CloseDecision::ShutdownUnderWay
    );
    assert_eq!(coordinator.phase(), ShutdownPhase::Closing);
    let actions = drain(&mut coordinator, &mut registry);
    assert_eq!(
        actions,
        vec![
            ShutdownAction::Destroy("main".to_string()),
            ShutdownAction::Wait(100),
            ShutdownAction::Exit(0),
        ]
    );
}

#[test]
fn nothing_is_asked_before_a_trigger() {
    let (mut registry, mut coordinator) = launched();
    assert_eq!(coordinator.next_action(&mut registry), None);
    assert_eq!(coordinator.phase(), ShutdownPhase::Idle);
    assert_eq!(registry.len(), 1);
}

#[test]
fn the_shutdown_destroys_every_window_then_waits_then_exits() {
    let (mut registry, mut coordinator) = launched();
    registry.insert(window("about"), true);
    registry.insert(window("help"), false);
    on_close_requested(&mut registry, &mut coordinator, "main");
    let mut destroyed = Vec::new();
    for _ in 0..3 {
        assert_eq!(coordinator.phase(), ShutdownPhase::Closing);
        match coordinator.next_action(&mut registry) {
            Some(ShutdownAction::Destroy(label)) => {
                assert!(!registry.contains(&label));
                destroyed.push(label);
            }
            other => panic!("expected a destroy request, got {:?}", other),
        }
    }
    destroyed.sort();
    assert_eq!(destroyed, vec!["about".to_string(), "help".to_string(), "main".to_string()]);
    assert!(registry.is_empty());
    assert_eq!(coordinator.phase(), ShutdownPhase::Closing);
    assert_eq!(coordinator.next_action(&mut registry), Some(ShutdownAction::Wait(100)));
    assert_eq!(coordinator.phase(), ShutdownPhase::Waiting);
    assert_eq!(coordinator.next_action(&mut registry), Some(ShutdownAction::Exit(0)));
    assert_eq!(coordinator.phase(), ShutdownPhase::Exited);
    assert_eq!(coordinator.next_action(&mut registry), None);
    assert_eq!(coordinator.phase(), ShutdownPhase::Exited);
}

#[test]
fn the_grace_interval_and_the_exit_code_are_fixed() {
    assert_eq!(GRACE_INTERVAL_MS, 100);
    assert_eq!(EXIT_CODE, 0);
}

#[test]
fn a_window_opened_after_the_snapshot_is_not_in_it() {
    let (mut registry, mut coordinator) = launched();
    on_close_requested(&mut registry, &mut coordinator, "main");
    registry.insert(window("late"), true);
    let actions = drain(&mut coordinator, &mut registry);
    assert_eq!(
        actions,
        vec![
            ShutdownAction::Destroy("main".to_string()),
            ShutdownAction::Wait(100),
            ShutdownAction::Exit(0),
        ]
    );
    assert!(registry.contains("late"));
}

#[test]
fn a_close_request_after_the_exit_changes_nothing() {
    let (mut registry, mut coordinator) = launched();
    on_close_requested(&mut registry, &mut coordinator, "main");
    drain(&mut coordinator, &mut registry);
    assert_eq!(
        on_close_requested(&mut registry, &mut coordinator, "main"),
        CloseDecision::NotTracked
    );
    assert_eq!(coordinator.phase(), ShutdownPhase::Exited);
    assert_eq!(coordinator.next_action(&mut registry), None);
}

fn focus_request() -> OpenProgress {
    OpenProgress::Ask {
        state: OpenSettings::AwaitingFocus,
        request: HostRequest::Focus("settings".to_string()),
    }
}

#[test]
fn opening_absent_settings_builds_one_window() {
    let (mut registry, _) = launched();
    let (op, request) = OpenSettings::begin(&registry, BuildMode::Debug);
    assert_eq!(op, OpenSettings::AwaitingCreate(settings_descriptor(BuildMode::Debug)));
    assert_eq!(
        request,
        HostRequest::Create {
            descriptor: settings_descriptor(BuildMode::Debug),
            observer: ClosePolicy::Hide,
        }
    );
    assert!(!registry.contains("settings"));
    assert_eq!(op.advance(&mut registry, Ok(())), OpenProgress::Done(Ok(())));
    assert_eq!(registry.len(), 2);
    let settings = registry.lookup("settings").unwrap();
    assert!(settings.visible);
    assert_eq!(settings.policy, ClosePolicy::Hide);
    assert_eq!(settings.descriptor.width, 600);
    assert_eq!(settings.descriptor.height, 400);
    assert!(settings.descriptor.centered);
    assert_eq!(settings.descriptor.title, "Settings");
}

#[test]
fn opening_absent_settings_in_a_release_build_uses_the_bundled_page() {
    let (registry, _) = launched();
    let (_, request) = OpenSettings::begin(&registry, BuildMode::Release);
    match request {
        HostRequest::Create { descriptor, observer } => {
            assert_eq!(
                descriptor.content,
                ContentSource::Bundled("index.html#/settings".to_string())
            );
            assert_eq!(observer, ClosePolicy::Hide);
        }
        other => panic!("expected a create request, got {:?}", other),
    }
}

#[test]
fn opening_visible_settings_builds_no_second_window() {
    let (mut registry, _) = launched();
    let (op, _) = OpenSettings::begin(&registry, BuildMode::Debug);
    assert_eq!(op.advance(&mut registry, Ok(())), OpenProgress::Done(Ok(())));
    let (op, request) = OpenSettings::begin(&registry, BuildMode::Debug);
    assert_eq!(op, OpenSettings::AwaitingShow);
    assert_eq!(request, HostRequest::Show("settings".to_string()));
    assert_eq!(op.advance(&mut registry, Ok(())), focus_request());
    assert_eq!(
        OpenSettings::AwaitingFocus.advance(&mut registry, Ok(())),
        OpenProgress::Done(Ok(()))
    );
    assert_eq!(registry.len(), 2);
    let mut labels = registry.labels();
    labels.sort();
    assert_eq!(labels, vec!["main".to_string(), "settings".to_string()]);
}

#[test]
fn opening_hidden_settings_shows_and_focuses_it_unaltered() {
    let (mut registry, mut coordinator) = launched();
    let mut custom = settings_descriptor(BuildMode::Release);
    custom.width = 640;
    custom.height = 480;
    custom.title = "Preferences".to_string();
    registry.insert(custom.duplicate(), true);
    assert_eq!(
        on_close_requested(&mut registry, &mut coordinator, "settings"),
        CloseDecision::Hide
    );
    assert!(!registry.lookup("settings").unwrap().visible);
    let (op, request) = OpenSettings::begin(&registry, BuildMode::Debug);
    assert_eq!(request, HostRequest::Show("settings".to_string()));
    let progress = op.advance(&mut registry, Ok(()));
    assert_eq!(progress, focus_request());
    match progress {
        OpenProgress::Ask { state, .. } => {
            assert_eq!(state.advance(&mut registry, Ok(())), OpenProgress::Done(Ok(())));
        }
        other => panic!("expected a request, got {:?}", other),
    }
    let settings = registry.lookup("settings").unwrap();
    assert!(settings.visible);
    assert_eq!(settings.descriptor, custom);
    assert_eq!(settings.policy, ClosePolicy::Hide);
    assert_eq!(registry.len(), 2);
}

#[test]
fn a_failed_build_registers_nothing() {
    let (mut registry, _) = launched();
    let (op, _) = OpenSettings::begin(&registry, BuildMode::Debug);
    assert_eq!(
        op.advance(&mut registry, Err("no display".to_string())),
        OpenProgress::Done(Err("no display".to_string()))
    );
    assert!(!registry.contains("settings"));
    assert_eq!(registry.len(), 1);
}

#[test]
fn a_failed_show_leaves_the_window_hidden() {
    let (mut registry, _) = launched();
    registry.insert(settings_descriptor(BuildMode::Debug), false);
    let (op, request) = OpenSettings::begin(&registry, BuildMode::Debug);
    assert_eq!(request, HostRequest::Show("settings".to_string()));
    assert_eq!(
        op.advance(&mut registry, Err("cannot show".to_string())),
        OpenProgress::Done(Err("cannot show".to_string()))
    );
    assert!(!registry.lookup("settings").unwrap().visible);
}

#[test]
fn a_failed_focus_is_reported_after_the_window_was_shown() {
    let (mut registry, _) = launched();
    registry.insert(settings_descriptor(BuildMode::Debug), false);
    let (op, _) = OpenSettings::begin(&registry, BuildMode::Debug);
    assert_eq!(op.advance(&mut registry, Ok(())), focus_request());
    assert_eq!(
        OpenSettings::AwaitingFocus.advance(&mut registry, Err("cannot focus".to_string())),
        OpenProgress::Done(Err("cannot focus".to_string()))
    );
    assert!(registry.lookup("settings").unwrap().visible);
}

#[test]
fn a_build_that_finds_the_label_taken_replaces_nothing() {
    let (mut registry, _) = launched();
    let (op, _) = OpenSettings::begin(&registry, BuildMode::Debug);
    let mut other = settings_descriptor(BuildMode::Release);
    other.title = "Earlier".to_string();
    registry.insert(other.duplicate(), false);
    assert_eq!(op.advance(&mut registry, Ok(())), OpenProgress::Done(Ok(())));
    assert_eq!(registry.len(), 2);
    assert_eq!(registry.lookup("settings").unwrap().descriptor, other);
    assert!(!registry.lookup("settings").unwrap().visible);
}

#[test]
fn fresh_launch_open_close_reopen_then_shut_down() {
    let (mut registry, mut coordinator) = launched();
    assert_eq!(registry.labels(), vec!["main".to_string()]);

    let (op, request) = OpenSettings::begin(&registry, BuildMode::Debug);
    assert!(matches!(request, HostRequest::Create { .. }));
    assert_eq!(op.advance(&mut registry, Ok(())), OpenProgress::Done(Ok(())));
    assert!(registry.lookup("settings").unwrap().visible);

    assert_eq!(
        on_close_requested(&mut registry, &mut coordinator, "settings"),
        CloseDecision::Hide
    );
    assert!(registry.contains("settings"));
    assert!(!registry.lookup("settings").unwrap().visible);

    let (op, request) = OpenSettings::begin(&registry, BuildMode::Debug);
    assert_eq!(request, HostRequest::Show("settings".to_string()));
    assert_eq!(op.advance(&mut registry, Ok(())), focus_request());
    assert_eq!(
        OpenSettings::AwaitingFocus.advance(&mut registry, Ok(())),
        OpenProgress::Done(Ok(()))
    );
    assert!(registry.lookup("settings").unwrap().visible);
    assert_eq!(registry.len(), 2);

    assert_eq!(
        on_close_requested(&mut registry, &mut coordinator, "main"),
        CloseDecision::BeginShutdown
    );
    let actions = drain(&mut coordinator, &mut registry);
    assert_eq!(actions.len(), 4);
    let mut destroyed: Vec<String> = Vec::new();
    for action in &actions[..2] {
        match action {
            ShutdownAction::Destroy(label) => destroyed.push(label.clone()),
            other => panic!("expected a destroy request, got {:?}", other),
        }
    }
    destroyed.sort();
    assert_eq!(destroyed, vec!["main".to_string(), "settings".to_string()]);
    assert_eq!(actions[2], ShutdownAction::Wait(100));
    assert_eq!(actions[3], ShutdownAction::Exit(0));
    assert!(registry.is_empty());
    assert!(!registry.contains("main"));
    assert!(!registry.contains("settings"));
    assert_eq!(coordinator.phase(), ShutdownPhase::Exited);
}
