use autopilot::application::{Activation, ApplicationFlags, AutopilotApplication};
use autopilot::profile::ProfileEntry;
use autopilot::window::{AutopilotWindow, Binding, Handler, Signal, WindowEvent};

fn application() -> AutopilotApplication {
    AutopilotApplication::new("io.github.v81d.Autopilot", &ApplicationFlags::empty())
}

fn fresh_window() -> AutopilotWindow {
    let mut app = application();
    AutopilotWindow::new(&mut app);
    app.window().unwrap().clone()
}

fn wired() -> AutopilotWindow {
    let mut window = fresh_window();
    window.attach_callbacks();
    window
}

#[test]
fn new_window_starts_empty_and_hidden() {
    let window = fresh_window();
    assert_eq!(window.application_id(), "io.github.v81d.Autopilot");
    assert!(!window.is_toggle_active());
    assert!(!window.shows_sidebar());
    assert!(!window.is_visible());
    assert!(window.profiles().is_empty());
    assert!(window.bindings().is_empty());
}

#[test]
fn new_window_remembers_its_application() {
    let mut app = AutopilotApplication::new("org.example.Other", &ApplicationFlags::empty());
    AutopilotWindow::new(&mut app);
    assert_eq!(app.window().unwrap().application_id(), "org.example.Other");
}

#[test]
fn new_hands_the_window_to_the_application() {
    let mut app = application();
    let before = app.clone();
    assert!(!app.has_window());
    AutopilotWindow::new(&mut app);
    assert!(app.has_window());
    assert_eq!(app.application_id(), before.application_id());
    assert_eq!(app.flags(), before.flags());
    assert_eq!(app.resource_base_path(), before.resource_base_path());
    assert_eq!(app.actions(), before.actions());
    assert_eq!(app.accels(), before.accels());
}

#[test]
fn new_then_activate_finds_the_window() {
    let mut app = application();
    AutopilotWindow::new(&mut app);
    app.window_mut().unwrap().append_sidebar_profile("kept", "row");
    assert_eq!(app.activate(), Activation::Reused);
    let window = app.window().unwrap();
    assert!(window.is_visible());
    assert_eq!(window.profiles().len(), 1);
    assert_eq!(window.profiles()[0], ProfileEntry::new("kept", "row"));
}

#[test]
fn new_replaces_an_earlier_window() {
    let mut app = application();
    app.activate();
    app.window_event(WindowEvent::NewProfileClicked);
    AutopilotWindow::new(&mut app);
    let window = app.window().unwrap();
    assert!(window.profiles().is_empty());
    assert!(window.bindings().is_empty());
    assert!(!window.is_visible());
}

#[test]
fn click_before_wiring_appends_nothing() {
    let mut app = application();
    AutopilotWindow::new(&mut app);
    assert!(app.window_event(WindowEvent::NewProfileClicked));
    assert!(app.window().unwrap().profiles().is_empty());
}

#[test]
fn attach_callbacks_binds_three_handlers_in_order() {
    let window = wired();
    assert_eq!(
        *window.bindings(),
        vec![
            Binding { signal: Signal::NewProfileClicked, handler: Handler::AddNewProfile },
            Binding { signal: Signal::GetStartedClicked, handler: Handler::AddNewProfile },
            Binding { signal: Signal::SidebarToggled, handler: Handler::ToggleSidebar },
        ]
    );
}

#[test]
fn attach_callbacks_changes_only_the_bindings() {
    let mut window = fresh_window();
    window.append_sidebar_profile("a", "b");
    window.attach_callbacks();
    assert_eq!(window.profiles().len(), 1);
    assert!(!window.shows_sidebar());
    assert!(!window.is_toggle_active());
    assert!(!window.is_visible());
}

#[test]
fn attach_callbacks_twice_is_as_once() {
    let mut window = wired();
    window.append_sidebar_profile("a", "b");
    let once = window.clone();
    window.attach_callbacks();
    assert_eq!(window, once);
    assert_eq!(window.bindings().len(), 3);
    window.handle_event(WindowEvent::NewProfileClicked);
    assert_eq!(window.profiles().len(), 2);
    window.handle_event(WindowEvent::GetStartedClicked);
    assert_eq!(window.profiles().len(), 3);
    window.handle_event(WindowEvent::SidebarToggled { active: true });
    assert!(window.shows_sidebar());
    assert_eq!(window.profiles().len(), 3);
}

#[test]
fn is_wired_tells_a_wired_window() {
    let mut window = fresh_window();
    assert!(!window.is_wired());
    window.attach_callbacks();
    assert!(window.is_wired());
}

#[test]
fn has_binding_finds_only_what_is_bound() {
    let toggle = Binding { signal: Signal::SidebarToggled, handler: Handler::ToggleSidebar };
    let other = Binding { signal: Signal::SidebarToggled, handler: Handler::AddNewProfile };
    let mut window = fresh_window();
    assert!(!window.has_binding(toggle));
    window.attach_callbacks();
    assert!(window.has_binding(toggle));
    assert!(!window.has_binding(other));
}

#[test]
fn events_before_wiring_run_no_handler() {
    let mut window = fresh_window();
    window.handle_event(WindowEvent::NewProfileClicked);
    window.handle_event(WindowEvent::GetStartedClicked);
    assert!(window.profiles().is_empty());
    window.handle_event(WindowEvent::SidebarToggled { active: true });
    assert!(window.is_toggle_active());
    assert!(!window.shows_sidebar());
}

#[test]
fn toggle_sidebar_copies_the_button_state() {
    let mut window = fresh_window();
    window.handle_event(WindowEvent::SidebarToggled { active: true });
    assert!(!window.shows_sidebar());
    window.toggle_sidebar();
    assert!(window.shows_sidebar());
    assert!(window.is_toggle_active());
    window.toggle_sidebar();
    assert!(window.shows_sidebar());
    window.handle_event(WindowEvent::SidebarToggled { active: false });
    assert!(window.shows_sidebar());
    window.toggle_sidebar();
    assert!(!window.shows_sidebar());
}

#[test]
fn toggling_to_active_shows_and_to_inactive_hides() {
    let mut window = wired();
    window.handle_event(WindowEvent::SidebarToggled { active: true });
    assert!(window.shows_sidebar());
    assert!(window.is_toggle_active());
    window.handle_event(WindowEvent::SidebarToggled { active: false });
    assert!(!window.shows_sidebar());
    assert!(!window.is_toggle_active());
}

#[test]
fn toggle_sequences_end_in_the_last_state() {
    let sequences: Vec<Vec<bool>> = vec![
        vec![true],
        vec![false],
        vec![true, true, true],
        vec![false, false],
        vec![true, false, true, false],
        vec![false, true, true, false, false, true],
    ];
    for states in sequences {
        let mut window = wired();
        for &active in &states {
            window.handle_event(WindowEvent::SidebarToggled { active });
            assert_eq!(window.shows_sidebar(), active);
        }
        assert_eq!(window.shows_sidebar(), *states.last().unwrap());
        assert!(window.profiles().is_empty());
    }
}

#[test]
fn toggling_to_the_same_state_again_changes_nothing() {
    for active in [true, false] {
        let mut window = wired();
        window.handle_event(WindowEvent::SidebarToggled { active });
        let once = window.clone();
        window.handle_event(WindowEvent::SidebarToggled { active });
        assert_eq!(window, once);
    }
}

#[test]
fn append_keeps_call_order() {
    let mut window = fresh_window();
    let entries = [("Work", "Office hours"), ("Home", "Evenings"), ("Travel", "")];
    for (name, description) in entries {
        window.append_sidebar_profile(name, description);
    }
    let profiles = window.profiles();
    assert_eq!(profiles.len(), 3);
    for (i, (name, description)) in entries.iter().enumerate() {
        assert_eq!(profiles[i].name(), *name);
        assert_eq!(profiles[i].description(), *description);
    }
}

#[test]
fn append_many_entries() {
    let mut window = fresh_window();
    for i in 0..100 {
        window.append_sidebar_profile(&format!("profile {}", i), &format!("number {}", i));
        assert_eq!(window.profiles().len(), i + 1);
    }
    for i in 0..100 {
        assert_eq!(window.profiles()[i].name(), format!("profile {}", i));
        assert_eq!(window.profiles()[i].description(), format!("number {}", i));
    }
}

#[test]
fn append_accepts_duplicates_and_empty_texts() {
    let mut window = fresh_window();
    window.append_sidebar_profile("same", "text");
    window.append_sidebar_profile("same", "text");
    window.append_sidebar_profile("", "");
    assert_eq!(window.profiles().len(), 3);
    assert_eq!(window.profiles()[0], window.profiles()[1]);
    assert_eq!(window.profiles()[2], ProfileEntry::new("", ""));
}

#[test]
fn append_changes_only_the_profile_list() {
    let mut window = wired();
    window.handle_event(WindowEvent::SidebarToggled { active: true });
    window.present();
    window.append_sidebar_profile("a", "b");
    assert!(window.shows_sidebar());
    assert!(window.is_toggle_active());
    assert!(window.is_visible());
    assert_eq!(window.bindings().len(), 3);
}

#[test]
fn add_new_profile_appends_the_placeholder() {
    let mut window = fresh_window();
    window.append_sidebar_profile("first", "row");
    window.add_new_profile();
    assert_eq!(window.profiles().len(), 2);
    assert_eq!(window.profiles()[0], ProfileEntry::new("first", "row"));
    assert_eq!(window.profiles()[1].name(), "New Profile");
    assert_eq!(window.profiles()[1].description(), "A brief description of the profile.");
}

#[test]
fn both_buttons_add_the_same_placeholder() {
    let mut window = wired();
    window.handle_event(WindowEvent::NewProfileClicked);
    assert_eq!(window.profiles().len(), 1);
    window.handle_event(WindowEvent::GetStartedClicked);
    assert_eq!(window.profiles().len(), 2);
    assert_eq!(window.profiles()[0], ProfileEntry::placeholder());
    assert_eq!(window.profiles()[1], ProfileEntry::placeholder());
    assert!(!window.shows_sidebar());
}

#[test]
fn run_handler_runs_the_named_operation() {
    let mut window = fresh_window();
    window.run_handler(Handler::AddNewProfile);
    assert_eq!(*window.profiles(), vec![ProfileEntry::placeholder()]);
    window.handle_event(WindowEvent::SidebarToggled { active: true });
    window.run_handler(Handler::ToggleSidebar);
    assert!(window.shows_sidebar());
}

#[test]
fn emit_serves_only_the_bindings_of_the_signal() {
    let mut window = wired();
    window.emit(Signal::SidebarToggled);
    assert!(window.profiles().is_empty());
    assert!(!window.shows_sidebar());
    window.emit(Signal::NewProfileClicked);
    assert_eq!(window.profiles().len(), 1);
    window.emit(Signal::GetStartedClicked);
    assert_eq!(window.profiles().len(), 2);
}

#[test]
fn present_makes_the_window_visible() {
    let mut window = fresh_window();
    window.present();
    assert!(window.is_visible());
    window.present();
    assert!(window.is_visible());
    assert!(window.profiles().is_empty());
    assert!(window.bindings().is_empty());
}

#[test]
fn placeholder_entry_has_the_fixed_texts() {
    let entry = ProfileEntry::placeholder();
    assert_eq!(entry.name(), "New Profile");
    assert_eq!(entry.description(), "A brief description of the profile.");
    assert_eq!(entry, ProfileEntry::new("New Profile", "A brief description of the profile."));
}

#[test]
fn profile_entry_keeps_its_texts() {
    let entry = ProfileEntry::new("Name", "Some description");
    assert_eq!(entry.name(), "Name");
    assert_eq!(entry.description(), "Some description");
}
