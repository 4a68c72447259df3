//! The main window: a split view with a sidebar, the button that toggles the
//! sidebar, the profile list, and the handlers bound to the window's widgets.
//!
//! The window is kept as plain state. The toolkit reports what the user did as
//! a [`WindowEvent`]; [`AutopilotWindow::handle_event`] runs the handlers that
//! are bound to the widget in question, and the caller then shows the new
//! state.

use vstd::prelude::*;

use crate::application::{ApplicationView, AutopilotApplication};
use crate::profile::{placeholder_profile, profile_views, ProfileEntry, ProfileView};

verus! {

/// A signal that one of the window's widgets emits.
#[derive(Clone, Copy, Debug, PartialEq, Eq, Structural)]
pub enum Signal {
    /// The "new profile" button was clicked.
    NewProfileClicked,
    /// The "get started" button was clicked.
    GetStartedClicked,
    /// The sidebar toggle button changed its state.
    SidebarToggled,
}

/// An operation of the window that can be bound to a signal.
#[derive(Clone, Copy, Debug, PartialEq, Eq, Structural)]
pub enum Handler {
    /// Run [`AutopilotWindow::add_new_profile`].
    AddNewProfile,
    /// Run [`AutopilotWindow::toggle_sidebar`].
    ToggleSidebar,
}

/// One handler bound to one signal.
#[derive(Clone, Copy, Debug, PartialEq, Eq, Structural)]
pub struct Binding {
    pub signal: Signal,
    pub handler: Handler,
}

/// What the toolkit reports of the user's doings in the window.
#[derive(Clone, Copy, Debug, PartialEq, Eq, Structural)]
pub enum WindowEvent {
    /// The "new profile" button was clicked.
    NewProfileClicked,
    /// The "get started" button was clicked.
    GetStartedClicked,
    /// The sidebar toggle button is now in the state `active`.
    SidebarToggled { active: bool },
}

/// The bindings that [`AutopilotWindow::attach_callbacks`] adds, in the order
/// in which it adds them. Both buttons run the same handler.
pub open spec fn default_bindings() -> Seq<Binding> {
    seq![
        Binding { signal: Signal::NewProfileClicked, handler: Handler::AddNewProfile },
        Binding { signal: Signal::GetStartedClicked, handler: Handler::AddNewProfile },
        Binding { signal: Signal::SidebarToggled, handler: Handler::ToggleSidebar },
    ]
}

/// The state of a window as contracts see it.
#[verifier::ext_equal]
pub struct WindowView {
    /// The identifier of the application that the window belongs to.
    pub application_id: Seq<char>,
    /// Whether the sidebar toggle button is pressed in.
    pub toggle_active: bool,
    /// Whether the split view shows its sidebar.
    pub show_sidebar: bool,
    /// Whether the window has been presented.
    pub visible: bool,
    /// The rows of the profile list, first row first.
    pub profiles: Seq<ProfileView>,
    /// The handlers bound so far, in the order in which they were bound.
    pub bindings: Seq<Binding>,
}

impl WindowView {
    /// A window as it is built: not yet presented, the toggle button
    /// released, the sidebar hidden, no profile and no handler.
    pub open spec fn fresh(application_id: Seq<char>) -> WindowView {
        WindowView {
            application_id,
            toggle_active: false,
            show_sidebar: false,
            visible: false,
            profiles: Seq::empty(),
            bindings: Seq::empty(),
        }
    }

    /// The window once it has been brought to the foreground.
    pub open spec fn present(self) -> WindowView {
        WindowView { visible: true, ..self }
    }

    /// Whether the window is wired: each of the three default bindings is
    /// among its bindings.
    pub open spec fn is_wired(self) -> bool {
        &&& self.bindings.contains(
            Binding { signal: Signal::NewProfileClicked, handler: Handler::AddNewProfile },
        )
        &&& self.bindings.contains(
            Binding { signal: Signal::GetStartedClicked, handler: Handler::AddNewProfile },
        )
        &&& self.bindings.contains(
            Binding { signal: Signal::SidebarToggled, handler: Handler::ToggleSidebar },
        )
    }

    /// The window once it is wired: as it is if it is wired already, and
    /// else with the three default bindings added behind those it has.
    pub open spec fn attach_callbacks(self) -> WindowView {
        if self.is_wired() {
            self
        } else {
            WindowView { bindings: self.bindings + default_bindings(), ..self }
        }
    }

    /// The window with the sidebar shown exactly if the toggle button is
    /// pressed in.
    pub open spec fn toggle_sidebar(self) -> WindowView {
        WindowView { show_sidebar: self.toggle_active, ..self }
    }

    /// The window with one more row at the end of the profile list.
    pub open spec fn append_sidebar_profile(self, entry: ProfileView) -> WindowView {
        WindowView { profiles: self.profiles.push(entry), ..self }
    }

    /// The window with one more placeholder row.
    pub open spec fn add_new_profile(self) -> WindowView {
        self.append_sidebar_profile(placeholder_profile())
    }

    /// The window after one handler has run.
    pub open spec fn run_handler(self, handler: Handler) -> WindowView {
        match handler {
            Handler::AddNewProfile => self.add_new_profile(),
            Handler::ToggleSidebar => self.toggle_sidebar(),
        }
    }

    /// The window after `signal` has been served by the first `count`
    /// bindings: each of them that is bound to `signal` has run its handler,
    /// in the order of binding.
    pub open spec fn emit_prefix(self, signal: Signal, count: nat) -> WindowView
        decreases count,
    {
        if count == 0 {
            self
        } else {
            let before = self.emit_prefix(signal, (count - 1) as nat);
            let binding = self.bindings[count - 1];
            if binding.signal == signal {
                before.run_handler(binding.handler)
            } else {
                before
            }
        }
    }

    /// The window after `signal` has been served by all its bindings.
    pub open spec fn emit(self, signal: Signal) -> WindowView {
        self.emit_prefix(signal, self.bindings.len())
    }

    /// Whether one of the first `count` bindings runs the sidebar handler
    /// on `signal`.
    pub open spec fn toggles_within(self, signal: Signal, count: nat) -> bool {
        exists|i: int|
            0 <= i < count && #[trigger] self.bindings[i] == (Binding {
                signal,
                handler: Handler::ToggleSidebar,
            })
    }

    /// How many of the first `count` bindings add a profile on `signal`.
    pub open spec fn additions_within(self, signal: Signal, count: nat) -> nat
        decreases count,
    {
        if count == 0 {
            0
        } else if self.bindings[count - 1] == (Binding {
            signal,
            handler: Handler::AddNewProfile,
        }) {
            self.additions_within(signal, (count - 1) as nat) + 1
        } else {
            self.additions_within(signal, (count - 1) as nat)
        }
    }

    /// Whether a change of the toggle button reaches the sidebar: some
    /// binding runs the sidebar handler when the button is toggled.
    pub open spec fn syncs_sidebar(self) -> bool {
        self.toggles_within(Signal::SidebarToggled, self.bindings.len())
    }

    /// The window after the toolkit has reported `event`. A click runs what
    /// is bound to the button. A toggle first records the button's new state
    /// and then runs what is bound to the toggle button.
    pub open spec fn handle_event(self, event: WindowEvent) -> WindowView {
        match event {
            WindowEvent::NewProfileClicked => self.emit(Signal::NewProfileClicked),
            WindowEvent::GetStartedClicked => self.emit(Signal::GetStartedClicked),
            WindowEvent::SidebarToggled { active } => WindowView {
                toggle_active: active,
                ..self
            }.emit(Signal::SidebarToggled),
        }
    }

    /// The window after the toggle button has gone through `states`, one
    /// after the other.
    pub open spec fn toggle_all(self, states: Seq<bool>) -> WindowView
        decreases states.len(),
    {
        if states.len() == 0 {
            self
        } else {
            self.toggle_all(states.drop_last()).handle_event(
                WindowEvent::SidebarToggled { active: states.last() },
            )
        }
    }

    /// The window after `entries` have been appended to the profile list,
    /// one after the other.
    pub open spec fn append_all(self, entries: Seq<ProfileView>) -> WindowView
        decreases entries.len(),
    {
        if entries.len() == 0 {
            self
        } else {
            self.append_all(entries.drop_last()).append_sidebar_profile(entries.last())
        }
    }
}

/// A run of `count` placeholder entries.
pub open spec fn placeholders(count: nat) -> Seq<ProfileView> {
    Seq::new(count, |i: int| placeholder_profile())
}

/// The application's main window.
#[derive(Clone, Debug, PartialEq, Eq)]
pub struct AutopilotWindow {
    application_id: String,
    toggle_active: bool,
    show_sidebar: bool,
    visible: bool,
    profiles: Vec<ProfileEntry>,
    bindings: Vec<Binding>,
}

impl View for AutopilotWindow {
    type V = WindowView;

    closed spec fn view(&self) -> WindowView {
        WindowView {
            application_id: self.application_id@,
            toggle_active: self.toggle_active,
            show_sidebar: self.show_sidebar,
            visible: self.visible,
            profiles: profile_views(self.profiles@),
            bindings: self.bindings@,
        }
    }
}

impl AutopilotWindow {
    /// Builds a window for `application` and hands it to the application,
    /// whose window it is from then on; it is reached through
    /// [`AutopilotApplication::window`]. The window refers to the
    /// application by its identifier. It starts out not yet presented, with
    /// the sidebar hidden, no profile and no handler.
    ///
    /// An application holds one window: a window that it had before is
    /// replaced.
    pub fn new(application: &mut AutopilotApplication)
        ensures
            final(application)@ == (ApplicationView {
                window: Some(WindowView::fresh(old(application)@.application_id)),
                ..old(application)@
            }),
    {
        let window = AutopilotWindow {
            application_id: application.application_id().to_owned(),
            toggle_active: false,
            show_sidebar: false,
            visible: false,
            profiles: Vec::new(),
            bindings: Vec::new(),
        };
        assert(window@.profiles =~= Seq::empty());
        application.set_window(window);
    }

    /// Whether `binding` is among the window's bindings.
    pub fn has_binding(&self, binding: Binding) -> (found: bool)
        ensures
            found == self@.bindings.contains(binding),
    {
        let mut seen: usize = 0;
        while seen < self.bindings.len()
            invariant
                seen <= self.bindings@.len(),
                forall|i: int| 0 <= i < seen ==> self.bindings@[i] != binding,
            decreases self.bindings@.len() - seen,
        {
            if self.bindings[seen] == binding {
                return true;
            }
            seen += 1;
        }
        false
    }

    /// Whether each of the three default bindings is among the window's
    /// bindings.
    pub fn is_wired(&self) -> (wired: bool)
        ensures
            wired == self@.is_wired(),
    {
        self.has_binding(
            Binding { signal: Signal::NewProfileClicked, handler: Handler::AddNewProfile },
        ) && self.has_binding(
            Binding { signal: Signal::GetStartedClicked, handler: Handler::AddNewProfile },
        ) && self.has_binding(
            Binding { signal: Signal::SidebarToggled, handler: Handler::ToggleSidebar },
        )
    }

    /// Binds the window's three handlers: a click on either button adds a
    /// new profile, and a change of the toggle button shows or hides the
    /// sidebar.
    ///
    /// On a window that is wired already this changes nothing, so that each
    /// handler still runs once for each click or toggle. Otherwise the three
    /// bindings come behind those that the window has.
    pub fn attach_callbacks(&mut self)
        ensures
            final(self)@ == old(self)@.attach_callbacks(),
    {
        if self.is_wired() {
            return ;
        }
        self.bindings.push(
            Binding { signal: Signal::NewProfileClicked, handler: Handler::AddNewProfile },
        );
        self.bindings.push(
            Binding { signal: Signal::GetStartedClicked, handler: Handler::AddNewProfile },
        );
        self.bindings.push(
            Binding { signal: Signal::SidebarToggled, handler: Handler::ToggleSidebar },
        );
        assert(self@.bindings =~= old(self)@.bindings + default_bindings());
    }

    /// Shows the sidebar if the toggle button is pressed in, and hides it if
    /// the button is released.
    pub fn toggle_sidebar(&mut self)
        ensures
            final(self)@ == old(self)@.toggle_sidebar(),
    {
        let sidebar_toggled = self.toggle_active;
        self.show_sidebar = sidebar_toggled;
    }

    /// Appends a row with the title `name` and the subtitle `description` to
    /// the end of the profile list. The rows that were there stay as they
    /// are; nothing is checked and nothing is refused.
    pub fn append_sidebar_profile(&mut self, name: &str, description: &str)
        ensures
            final(self)@ == old(self)@.append_sidebar_profile((name@, description@)),
    {
        let row = ProfileEntry::new(name, description);
        self.profiles.push(row);
        assert(profile_views(self.profiles@) =~= profile_views(old(self).profiles@).push(
            (name@, description@),
        ));
    }

    /// Appends a row with the placeholder name and description.
    pub fn add_new_profile(&mut self)
        ensures
            final(self)@ == old(self)@.add_new_profile(),
    {
        self.append_sidebar_profile("New Profile", "A brief description of the profile.")
    }

    /// Brings the window to the foreground.
    pub fn present(&mut self)
        ensures
            final(self)@ == old(self)@.present(),
    {
        self.visible = true;
    }

    /// Runs one handler.
    pub fn run_handler(&mut self, handler: Handler)
        ensures
            final(self)@ == old(self)@.run_handler(handler),
    {
        match handler {
            Handler::AddNewProfile => self.add_new_profile(),
            Handler::ToggleSidebar => self.toggle_sidebar(),
        }
    }

    /// Serves `signal`: runs the handler of every binding to it, in the
    /// order in which they were bound.
    pub fn emit(&mut self, signal: Signal)
        ensures
            final(self)@ == old(self)@.emit(signal),
    {
        let count = self.bindings.len();
        let mut served: usize = 0;
        while served < count
            invariant
                served <= count,
                count == old(self)@.bindings.len(),
                self@.bindings == old(self)@.bindings,
                self@ == old(self)@.emit_prefix(signal, served as nat),
            decreases count - served,
        {
            let binding = self.bindings[served];
            if binding.signal == signal {
                self.run_handler(binding.handler);
            }
            served += 1;
        }
    }

    /// Takes in what the toolkit reports. A click runs what is bound to the
    /// button. A toggle records the button's new state and runs what is
    /// bound to the toggle button.
    pub fn handle_event(&mut self, event: WindowEvent)
        ensures
            final(self)@ == old(self)@.handle_event(event),
    {
        match event {
            WindowEvent::NewProfileClicked => self.emit(Signal::NewProfileClicked),
            WindowEvent::GetStartedClicked => self.emit(Signal::GetStartedClicked),
            WindowEvent::SidebarToggled { active } => {
                self.toggle_active = active;
                self.emit(Signal::SidebarToggled)
            },
        }
    }

    /// The identifier of the application that the window belongs to.
    pub fn application_id(&self) -> (id: &str)
        ensures
            id@ == self@.application_id,
    {
        self.application_id.as_str()
    }

    /// Whether the sidebar toggle button is pressed in.
    pub fn is_toggle_active(&self) -> (active: bool)
        ensures
            active == self@.toggle_active,
    {
        self.toggle_active
    }

    /// Whether the split view shows its sidebar.
    pub fn shows_sidebar(&self) -> (shown: bool)
        ensures
            shown == self@.show_sidebar,
    {
        self.show_sidebar
    }

    /// Whether the window has been presented.
    pub fn is_visible(&self) -> (visible: bool)
        ensures
            visible == self@.visible,
    {
        self.visible
    }

    /// The rows of the profile list, first row first.
    pub fn profiles(&self) -> (profiles: &Vec<ProfileEntry>)
        ensures
            profile_views(profiles@) == self@.profiles,
    {
        &self.profiles
    }

    /// The handlers bound so far, in the order in which they were bound.
    pub fn bindings(&self) -> (bindings: &Vec<Binding>)
        ensures
            bindings@ == self@.bindings,
    {
        &self.bindings
    }
}

/// Serving a signal by the first `count` bindings comes to this: the
/// sidebar follows the toggle button if one of them runs the sidebar handler
/// on the signal, and the profile list gains one placeholder row for each of
/// them that adds a profile on the signal. Nothing else changes.
pub proof fn lemma_emit_prefix(window: WindowView, signal: Signal, count: nat)
    requires
        count <= window.bindings.len(),
    ensures
        window.emit_prefix(signal, count) == (WindowView {
            show_sidebar: if window.toggles_within(signal, count) {
                window.toggle_active
            } else {
                window.show_sidebar
            },
            profiles: window.profiles + placeholders(window.additions_within(signal, count)),
            ..window
        }),
    decreases count,
{
    if count == 0 {
        assert(window.profiles + placeholders(0) =~= window.profiles);
    } else {
        let served = (count - 1) as nat;
        lemma_emit_prefix(window, signal, served);
        let binding = window.bindings[count - 1];
        let added = window.additions_within(signal, served);
        let runs_toggle = binding == (Binding { signal, handler: Handler::ToggleSidebar });
        assert(window.toggles_within(signal, count) == (window.toggles_within(signal, served)
            || runs_toggle)) by {
            if window.toggles_within(signal, served) {
                let i = choose|i: int|
                    0 <= i < served && #[trigger] window.bindings[i] == (Binding {
                        signal,
                        handler: Handler::ToggleSidebar,
                    });
                assert(0 <= i < count);
            }
            if runs_toggle {
                assert(window.bindings[count - 1] == (Binding {
                    signal,
                    handler: Handler::ToggleSidebar,
                }));
            }
        }
        assert(placeholders(added + 1) =~= placeholders(added).push(placeholder_profile()));
        assert((window.profiles + placeholders(added)).push(placeholder_profile())
            =~= window.profiles + placeholders(added + 1));
    }
}

/// What an event does to a window: a click adds one placeholder row for each
/// binding of the button that adds a profile; a toggle records the button's
/// state and adds rows likewise; either moves the sidebar to the toggle
/// button's state if a binding of the widget runs the sidebar handler.
pub proof fn lemma_emit(window: WindowView, signal: Signal)
    ensures
        window.emit(signal) == (WindowView {
            show_sidebar: if window.toggles_within(signal, window.bindings.len()) {
                window.toggle_active
            } else {
                window.show_sidebar
            },
            profiles: window.profiles + placeholders(
                window.additions_within(signal, window.bindings.len()),
            ),
            ..window
        }),
{
    lemma_emit_prefix(window, signal, window.bindings.len());
}

/// Wiring is idempotent: a window that has been wired is wired, and wiring
/// it again changes nothing. One click then still adds one row.
pub proof fn lemma_attach_callbacks_twice(window: WindowView)
    ensures
        window.attach_callbacks().is_wired(),
        window.attach_callbacks().attach_callbacks() == window.attach_callbacks(),
{
    if !window.is_wired() {
        let wired = window.bindings + default_bindings();
        let start = window.bindings.len() as int;
        assert(wired[start] == default_bindings()[0]);
        assert(wired[start + 1] == default_bindings()[1]);
        assert(wired[start + 2] == default_bindings()[2]);
    }
}

/// Wiring a window that has no binding yet gives it exactly the three
/// default bindings, however often it is wired.
pub proof fn lemma_attach_callbacks_to_fresh(application_id: Seq<char>)
    ensures
        WindowView::fresh(application_id).attach_callbacks().bindings == default_bindings(),
        WindowView::fresh(application_id).attach_callbacks().attach_callbacks().bindings
            == default_bindings(),
{
    let fresh = WindowView::fresh(application_id);
    assert(!fresh.is_wired());
    assert(fresh.bindings + default_bindings() =~= default_bindings());
    lemma_attach_callbacks_twice(fresh);
}

/// In a window whose handlers were bound exactly once, a click on either
/// button adds exactly one placeholder row and changes nothing else, and a
/// toggle moves the button and the sidebar to the new state and changes
/// nothing else.
pub proof fn lemma_events_of_wired_window(window: WindowView, active: bool)
    requires
        window.bindings == default_bindings(),
    ensures
        window.handle_event(WindowEvent::NewProfileClicked) == window.add_new_profile(),
        window.handle_event(WindowEvent::GetStartedClicked) == window.add_new_profile(),
        window.handle_event(WindowEvent::SidebarToggled { active }) == (WindowView {
            toggle_active: active,
            show_sidebar: active,
            ..window
        }),
{
    reveal_with_fuel(WindowView::emit_prefix, 4);
}

/// Toggling the button to a state puts the sidebar in that state: shown for
/// active, hidden for inactive, whatever both were before. This holds of
/// every window in which the toggle button is bound to the sidebar handler,
/// and the window stays such a window.
pub proof fn lemma_toggle_sets_sidebar(window: WindowView, active: bool)
    requires
        window.syncs_sidebar(),
    ensures
        window.handle_event(WindowEvent::SidebarToggled { active }).show_sidebar == active,
        window.handle_event(WindowEvent::SidebarToggled { active }).toggle_active == active,
        window.handle_event(WindowEvent::SidebarToggled { active }).bindings == window.bindings,
        window.handle_event(WindowEvent::SidebarToggled { active }).syncs_sidebar(),
{
    let toggled = WindowView { toggle_active: active, ..window };
    assert(toggled.toggles_within(Signal::SidebarToggled, toggled.bindings.len())) by {
        let i = choose|i: int|
            0 <= i < window.bindings.len() && #[trigger] window.bindings[i] == (Binding {
                signal: Signal::SidebarToggled,
                handler: Handler::ToggleSidebar,
            });
        assert(toggled.bindings[i] == window.bindings[i]);
    }
    lemma_emit(toggled, Signal::SidebarToggled);
    let after = window.handle_event(WindowEvent::SidebarToggled { active });
    assert(after.syncs_sidebar()) by {
        let i = choose|i: int|
            0 <= i < window.bindings.len() && #[trigger] window.bindings[i] == (Binding {
                signal: Signal::SidebarToggled,
                handler: Handler::ToggleSidebar,
            });
        assert(after.bindings[i] == window.bindings[i]);
    }
}

/// After any run of toggles, the sidebar is in the state of the last one.
pub proof fn lemma_toggle_sequence(window: WindowView, states: Seq<bool>)
    requires
        window.syncs_sidebar(),
    ensures
        window.toggle_all(states).bindings == window.bindings,
        window.toggle_all(states).syncs_sidebar(),
        states.len() > 0 ==> window.toggle_all(states).show_sidebar == states.last(),
        states.len() > 0 ==> window.toggle_all(states).toggle_active == states.last(),
    decreases states.len(),
{
    if states.len() > 0 {
        lemma_toggle_sequence(window, states.drop_last());
        lemma_toggle_sets_sidebar(window.toggle_all(states.drop_last()), states.last());
    }
}

/// Toggling to the same state a second time changes nothing, in a window
/// whose handlers were bound exactly once.
pub proof fn lemma_toggle_repeated(window: WindowView, active: bool)
    requires
        window.bindings == default_bindings(),
    ensures
        window.handle_event(WindowEvent::SidebarToggled { active }).handle_event(
            WindowEvent::SidebarToggled { active },
        ) == window.handle_event(WindowEvent::SidebarToggled { active }),
{
    lemma_events_of_wired_window(window, active);
    lemma_events_of_wired_window(
        window.handle_event(WindowEvent::SidebarToggled { active }),
        active,
    );
}

/// Appending a run of entries puts exactly those entries behind the rows
/// that were there, in the order of the calls, and changes nothing else.
pub proof fn lemma_append_all(window: WindowView, entries: Seq<ProfileView>)
    ensures
        window.append_all(entries) == (WindowView {
            profiles: window.profiles + entries,
            ..window
        }),
    decreases entries.len(),
{
    if entries.len() == 0 {
        assert(window.profiles + entries =~= window.profiles);
    } else {
        lemma_append_all(window, entries.drop_last());
        assert((window.profiles + entries.drop_last()).push(entries.last()) =~= window.profiles
            + entries);
    }
}

/// Appending `entries` to a window that has no profile yet leaves a list of
/// exactly that many rows, and the row at each position holds the name and
/// the description of the call of that position.
pub proof fn lemma_append_all_to_empty(window: WindowView, entries: Seq<ProfileView>)
    requires
        window.profiles.len() == 0,
    ensures
        window.append_all(entries).profiles == entries,
        window.append_all(entries).profiles.len() == entries.len(),
        forall|i: int|
            0 <= i < entries.len() ==> window.append_all(entries).profiles[i] == entries[i],
{
    lemma_append_all(window, entries);
    assert(window.profiles + entries =~= entries);
}

} // verus!
