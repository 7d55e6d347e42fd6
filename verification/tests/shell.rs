use danmugo_shell::lifecycle::{
    CloseDisposition, Controller, EnsureOutcome, LifecycleError, Visibility, WindowId, WindowState,
};
use danmugo_shell::tray::{
    configuration_window_request, dispatch, tray_menu_items, window_label, DispatchOutcome,
};

#[test]
fn start_state_has_main_visible_and_no_configuration() {
    let c = Controller::register_main_window();
    assert_eq!(c.main, WindowState::Present { visibility: Visibility::Visible });
    assert_eq!(c.configuration, WindowState::Absent);
    assert!(!c.terminated);
}

#[test]
fn close_request_hides_main_but_keeps_it() {
    let mut c = Controller::register_main_window();
    let d = c.on_close_requested(WindowId::Main);
    assert_eq!(d, CloseDisposition::SuppressAndHide);
    assert_eq!(c.main, WindowState::Present { visibility: Visibility::Hidden });
    assert!(!c.terminated);
}

#[test]
fn close_request_hides_main_whatever_its_visibility_was() {
    let mut c = Controller::register_main_window();
    c.on_close_requested(WindowId::Main);
    assert_eq!(c.main, WindowState::Present { visibility: Visibility::Hidden });
    let again = c;
    c.on_close_requested(WindowId::Main);
    assert_eq!(c, again);
}

#[test]
fn close_request_on_other_window_is_left_to_the_host() {
    let mut c = Controller::register_main_window();
    let before = c;
    let d = c.on_close_requested(WindowId::Configuration);
    assert_eq!(d, CloseDisposition::HostDefault);
    assert_eq!(c, before);
}

#[test]
fn hide_and_close_sequences_keep_main_present() {
    let mut c = Controller::register_main_window();
    c.hide_window(WindowId::Main);
    c.on_close_requested(WindowId::Main);
    c.hide_window(WindowId::Main);
    c.hide_window(WindowId::Main);
    c.on_close_requested(WindowId::Main);
    c.on_close_requested(WindowId::Main);
    assert!(matches!(c.main, WindowState::Present { .. }));
    assert!(!c.terminated);
}

#[test]
fn show_before_creation_fails_with_not_found() {
    let mut c = Controller::register_main_window();
    let before = c;
    let r = c.show(WindowId::Configuration);
    assert_eq!(r, Err(LifecycleError::NotFound));
    assert_eq!(c, before);
}

#[test]
fn show_makes_a_hidden_window_visible_and_is_idempotent() {
    let mut c = Controller::register_main_window();
    c.hide_window(WindowId::Main);
    assert_eq!(c.main, WindowState::Present { visibility: Visibility::Hidden });
    assert_eq!(c.show(WindowId::Main), Ok(()));
    assert_eq!(c.main, WindowState::Present { visibility: Visibility::Visible });
    assert_eq!(c.show(WindowId::Main), Ok(()));
    assert_eq!(c.main, WindowState::Present { visibility: Visibility::Visible });
}

#[test]
fn hide_of_an_absent_window_is_a_silent_no_op() {
    let mut c = Controller::register_main_window();
    let before = c;
    c.hide_window(WindowId::Configuration);
    assert_eq!(c, before);
}

#[test]
fn ensure_configuration_twice_creates_exactly_one_window() {
    let mut c = Controller::register_main_window();
    assert_eq!(c.ensure_configuration_window(), EnsureOutcome::CreationRequired);
    assert_eq!(c.on_configuration_created(true), Ok(()));
    assert_eq!(c.configuration, WindowState::Present { visibility: Visibility::Visible });
    let after_first = c;
    assert_eq!(c.ensure_configuration_window(), EnsureOutcome::ShownExisting);
    assert_eq!(c.configuration, WindowState::Present { visibility: Visibility::Visible });
    assert_eq!(c, after_first);
}

#[test]
fn failed_creation_is_reported_and_leaves_state_unchanged() {
    let mut c = Controller::register_main_window();
    assert_eq!(c.ensure_configuration_window(), EnsureOutcome::CreationRequired);
    let before = c;
    assert_eq!(c.on_configuration_created(false), Err(LifecycleError::WindowCreationFailed));
    assert_eq!(c, before);
    assert_eq!(c.configuration, WindowState::Absent);
}

#[test]
fn dispatch_show_main_shows_and_focuses_the_main_window() {
    let mut c = Controller::register_main_window();
    c.hide_window(WindowId::Main);
    let out = dispatch(&mut c, "show_main");
    assert_eq!(out, DispatchOutcome::ShowAndFocus(WindowId::Main));
    assert_eq!(c.main, WindowState::Present { visibility: Visibility::Visible });
}

#[test]
fn dispatch_hide_main_hides_the_main_window() {
    let mut c = Controller::register_main_window();
    let out = dispatch(&mut c, "hide_main");
    assert_eq!(out, DispatchOutcome::HideWindow(WindowId::Main));
    assert_eq!(c.main, WindowState::Present { visibility: Visibility::Hidden });
}

#[test]
fn dispatch_open_config_requests_creation_when_absent() {
    let mut c = Controller::register_main_window();
    let before = c;
    let out = dispatch(&mut c, "open_config");
    assert_eq!(out, DispatchOutcome::CreateConfigurationWindow);
    assert_eq!(c, before);
}

#[test]
fn dispatch_open_config_reuses_an_existing_window() {
    let mut c = Controller::register_main_window();
    assert_eq!(dispatch(&mut c, "open_config"), DispatchOutcome::CreateConfigurationWindow);
    assert_eq!(c.on_configuration_created(true), Ok(()));
    let out = dispatch(&mut c, "open_config");
    assert_eq!(out, DispatchOutcome::ShowAndFocus(WindowId::Configuration));
    assert_eq!(c.configuration, WindowState::Present { visibility: Visibility::Visible });
}

#[test]
fn dispatch_quit_terminates_the_process_with_code_zero() {
    let mut c = Controller::register_main_window();
    let out = dispatch(&mut c, "quit");
    assert_eq!(out, DispatchOutcome::Exit(0));
    assert!(c.terminated);
}

#[test]
fn dispatch_of_an_unknown_id_changes_nothing_and_is_no_error() {
    let mut c = Controller::register_main_window();
    let before = c;
    let out = dispatch(&mut c, "foo");
    assert_eq!(out, DispatchOutcome::NoAction);
    assert_eq!(c, before);
}

#[test]
fn configuration_window_is_built_at_its_fixed_route_and_size() {
    let req = configuration_window_request();
    assert_eq!(req.label, "configuration");
    assert_eq!(req.url, "/configuration");
    assert_eq!(req.title, "Configuration");
    assert_eq!(req.width, 800);
    assert_eq!(req.height, 600);
}

#[test]
fn window_labels_name_the_host_shell_keys() {
    assert_eq!(window_label(WindowId::Main), "main");
    assert_eq!(window_label(WindowId::Configuration), "configuration");
}

#[test]
fn tray_menu_has_its_four_fixed_entries_all_enabled() {
    let items = tray_menu_items();
    assert_eq!(items.len(), 4);
    assert_eq!(items[0].id, "open_config");
    assert_eq!(items[0].label, "Configure Danmugo");
    assert_eq!(items[1].id, "show_main");
    assert_eq!(items[1].label, "Show Damnu");
    assert_eq!(items[2].id, "hide_main");
    assert_eq!(items[2].label, "Hide Damnu");
    assert_eq!(items[3].id, "quit");
    assert_eq!(items[3].label, "Quit");
    assert!(items.iter().all(|i| i.enabled));
}

#[test]
fn full_session_from_start_to_quit() {
    let mut c = Controller::register_main_window();

    c.on_close_requested(WindowId::Main);
    assert_eq!(c.main, WindowState::Present { visibility: Visibility::Hidden });

    assert_eq!(dispatch(&mut c, "show_main"), DispatchOutcome::ShowAndFocus(WindowId::Main));
    assert_eq!(c.main, WindowState::Present { visibility: Visibility::Visible });

    assert_eq!(c.configuration, WindowState::Absent);
    assert_eq!(dispatch(&mut c, "open_config"), DispatchOutcome::CreateConfigurationWindow);
    let req = configuration_window_request();
    assert_eq!(req.url, "/configuration");
    assert_eq!((req.width, req.height), (800, 600));
    assert_eq!(c.on_configuration_created(true), Ok(()));
    assert_eq!(c.configuration, WindowState::Present { visibility: Visibility::Visible });

    let after_first = c;
    assert_eq!(
        dispatch(&mut c, "open_config"),
        DispatchOutcome::ShowAndFocus(WindowId::Configuration)
    );
    assert_eq!(c, after_first);

    assert_eq!(dispatch(&mut c, "quit"), DispatchOutcome::Exit(0));
    assert!(c.terminated);
}
