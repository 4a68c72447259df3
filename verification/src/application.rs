//! The application: its identity, its global actions, and the single main
//! window that activation finds or creates.

use vstd::prelude::*;

use crate::about::{about_dialog, about_dialog_view, string_views, AboutDialog};
use crate::window::{
    default_bindings, lemma_attach_callbacks_to_fresh, AutopilotWindow, WindowEvent, WindowView,
};

verus! {

/// The launch flags of an application, as a set of bits.
#[derive(Clone, Copy, Debug, PartialEq, Eq, Structural)]
pub struct ApplicationFlags {
    pub bits: u32,
}

impl ApplicationFlags {
    /// The default flags: no bit is set.
    pub fn empty() -> (flags: ApplicationFlags)
        ensures
            flags.bits == 0,
    {
        ApplicationFlags { bits: 0 }
    }
}

impl Default for ApplicationFlags {
    fn default() -> (flags: ApplicationFlags)
        ensures
            flags.bits == 0,
    {
        ApplicationFlags::empty()
    }
}

/// What a global action does when it is invoked.
#[derive(Clone, Copy, Debug, PartialEq, Eq, Structural)]
pub enum ActionKind {
    /// End the application.
    Quit,
    /// Open the about dialog.
    About,
}

/// What a registered action is to a contract: its name, then what it does.
pub type ActionView = (Seq<char>, ActionKind);

/// A global action, registered under a name.
#[derive(Clone, Debug, PartialEq, Eq)]
pub struct ActionEntry {
    pub name: String,
    pub kind: ActionKind,
}

impl View for ActionEntry {
    type V = ActionView;

    open spec fn view(&self) -> ActionView {
        (self.name@, self.kind)
    }
}

/// The views of a run of action entries, in the same order.
pub open spec fn action_views(entries: Seq<ActionEntry>) -> Seq<ActionView> {
    entries.map_values(|entry: ActionEntry| entry@)
}

/// What an accelerator is to a contract: the action's detailed name, then the
/// key combinations that invoke it.
pub type AcceleratorView = (Seq<char>, Seq<Seq<char>>);

/// The key combinations that invoke an action.
#[derive(Clone, Debug, PartialEq, Eq)]
pub struct Accelerator {
    /// The action's name with its group in front, as in `app.quit`.
    pub action: String,
    pub keys: Vec<String>,
}

impl View for Accelerator {
    type V = AcceleratorView;

    open spec fn view(&self) -> AcceleratorView {
        (self.action@, string_views(self.keys@))
    }
}

/// The views of a run of accelerators, in the same order.
pub open spec fn accelerator_views(accels: Seq<Accelerator>) -> Seq<AcceleratorView> {
    accels.map_values(|accel: Accelerator| accel@)
}

/// The two global actions, in the order in which they are registered.
pub open spec fn global_actions() -> Seq<ActionView> {
    seq![("quit"@, ActionKind::Quit), ("about"@, ActionKind::About)]
}

/// The accelerator of the `quit` action: control and Q.
pub open spec fn quit_accelerator() -> AcceleratorView {
    ("app.quit"@, seq!["<control>q"@])
}

/// What is registered under `name`: the kind of the last entry of that name,
/// since a later registration replaces an earlier one.
pub open spec fn find_action(actions: Seq<ActionView>, name: Seq<char>) -> Option<ActionKind>
    decreases actions.len(),
{
    if actions.len() == 0 {
        None
    } else if actions.last().0 == name {
        Some(actions.last().1)
    } else {
        find_action(actions.drop_last(), name)
    }
}

/// Whether an activation had to create the window.
#[derive(Clone, Copy, Debug, PartialEq, Eq, Structural)]
pub enum Activation {
    /// There was no window: one was created, wired and presented.
    Created,
    /// There was a window: it was presented again.
    Reused,
}

/// What invoking an action by its name led to.
#[derive(Clone, Debug, PartialEq, Eq)]
pub enum ActionOutcome {
    /// No action is registered under the name: nothing is to be done.
    NotRegistered,
    /// The application is to end.
    Quit,
    /// The dialog is to be shown over the main window.
    About(AboutDialog),
    /// The about dialog was asked for while there is no window to show it
    /// over: nothing is to be done.
    NoWindow,
}

/// The state of an application as contracts see it.
#[verifier::ext_equal]
pub struct ApplicationView {
    /// The application's identifier, in reverse-DNS form.
    pub application_id: Seq<char>,
    /// The flags that the application was launched with.
    pub flags: ApplicationFlags,
    /// The path below which the application's resources are found.
    pub resource_base_path: Seq<char>,
    /// The registered actions, in the order of registration.
    pub actions: Seq<ActionView>,
    /// The accelerators, in the order in which they were set.
    pub accels: Seq<AcceleratorView>,
    /// The application's window, if it has one.
    pub window: Option<WindowView>,
}

impl ApplicationView {
    /// The application with the two global actions registered behind those
    /// it has.
    pub open spec fn setup_gactions(self) -> ApplicationView {
        ApplicationView { actions: self.actions + global_actions(), ..self }
    }

    /// The application with its global actions registered and control and Q
    /// bound to `quit`.
    pub open spec fn constructed(self) -> ApplicationView {
        ApplicationView {
            accels: self.accels.push(quit_accelerator()),
            ..self.setup_gactions()
        }
    }

    /// The application as it is built from an identifier and flags: the
    /// resource path is fixed, the global actions are in place, and there is
    /// no window yet.
    pub open spec fn fresh(application_id: Seq<char>, flags: ApplicationFlags) -> ApplicationView {
        ApplicationView {
            application_id,
            flags,
            resource_base_path: "/io/github/v81d/Autopilot"@,
            actions: Seq::empty(),
            accels: Seq::empty(),
            window: None,
        }.constructed()
    }

    /// The window that an activation presents: the one that is there, or
    /// else a new one with its handlers bound.
    pub open spec fn window_to_present(self) -> WindowView {
        match self.window {
            Some(window) => window,
            None => WindowView::fresh(self.application_id).attach_callbacks(),
        }
    }

    /// The application after an activation: it has a window, presented, and
    /// nothing else has changed.
    pub open spec fn activate(self) -> ApplicationView {
        ApplicationView { window: Some(self.window_to_present().present()), ..self }
    }

    /// What an activation reports: whether it had to create the window.
    pub open spec fn activation(self) -> Activation {
        if self.window is Some {
            Activation::Reused
        } else {
            Activation::Created
        }
    }

    /// The application after `count` activations in a row.
    pub open spec fn activate_times(self, count: nat) -> ApplicationView
        decreases count,
    {
        if count == 0 {
            self
        } else {
            self.activate_times((count - 1) as nat).activate()
        }
    }

    /// The application after the toolkit has reported `event` of the main
    /// window. Without a window the event is dropped.
    pub open spec fn window_event(self, event: WindowEvent) -> ApplicationView {
        match self.window {
            Some(window) => ApplicationView { window: Some(window.handle_event(event)), ..self },
            None => self,
        }
    }
}

/// The application.
#[derive(Clone, Debug, PartialEq, Eq)]
pub struct AutopilotApplication {
    application_id: String,
    flags: ApplicationFlags,
    resource_base_path: String,
    actions: Vec<ActionEntry>,
    accels: Vec<Accelerator>,
    window: Option<AutopilotWindow>,
}

impl View for AutopilotApplication {
    type V = ApplicationView;

    closed spec fn view(&self) -> ApplicationView {
        ApplicationView {
            application_id: self.application_id@,
            flags: self.flags,
            resource_base_path: self.resource_base_path@,
            actions: action_views(self.actions@),
            accels: accelerator_views(self.accels@),
            window: match self.window {
                Some(window) => Some(window@),
                None => None,
            },
        }
    }
}

impl AutopilotApplication {
    /// Builds the application with its identifier, its launch flags and the
    /// fixed resource path, and registers its global actions. It has no
    /// window until it is activated.
    pub fn new(application_id: &str, flags: &ApplicationFlags) -> (application: Self)
        ensures
            application@ == ApplicationView::fresh(application_id@, *flags),
    {
        let mut application = AutopilotApplication {
            application_id: application_id.to_owned(),
            flags: *flags,
            resource_base_path: "/io/github/v81d/Autopilot".to_owned(),
            actions: Vec::new(),
            accels: Vec::new(),
            window: None,
        };
        assert(application@.actions =~= Seq::empty());
        assert(application@.accels =~= Seq::empty());
        application.constructed();
        application
    }

    /// Finishes construction: registers the global actions and binds control
    /// and Q to `quit`.
    pub fn constructed(&mut self)
        ensures
            final(self)@ == old(self)@.constructed(),
    {
        self.setup_gactions();
        let mut keys: Vec<String> = Vec::new();
        keys.push("<control>q".to_owned());
        assert(string_views(keys@) =~= seq!["<control>q"@]);
        self.accels.push(Accelerator { action: "app.quit".to_owned(), keys });
        assert(accelerator_views(self.accels@) =~= accelerator_views(old(self).accels@).push(
            quit_accelerator(),
        ));
    }

    /// Registers the two global actions: `quit`, which ends the
    /// application, and `about`, which opens the about dialog.
    pub fn setup_gactions(&mut self)
        ensures
            final(self)@ == old(self)@.setup_gactions(),
    {
        let quit_action = ActionEntry { name: "quit".to_owned(), kind: ActionKind::Quit };
        let about_action = ActionEntry { name: "about".to_owned(), kind: ActionKind::About };
        self.actions.push(quit_action);
        self.actions.push(about_action);
        assert(action_views(self.actions@) =~= action_views(old(self).actions@)
            + global_actions());
    }

    /// Answers an activation, at launch or when the user starts the
    /// application again. If there is no window, one is created and its
    /// handlers are bound; if there is one, it is kept as it is. Either way
    /// the window is then brought to the foreground.
    pub fn activate(&mut self) -> (activation: Activation)
        ensures
            final(self)@ == old(self)@.activate(),
            activation == old(self)@.activation(),
    {
        let activation = if self.window.is_some() {
            Activation::Reused
        } else {
            AutopilotWindow::new(self);
            Activation::Created
        };
        match self.window.take() {
            Some(mut window) => {
                if activation == Activation::Created {
                    window.attach_callbacks();
                }
                window.present();
                self.window = Some(window);
            },
            None => {},
        }
        activation
    }

    /// Makes `window` the application's window, in place of the one that it
    /// may have had.
    pub(crate) fn set_window(&mut self, window: AutopilotWindow)
        ensures
            final(self)@ == (ApplicationView { window: Some(window@), ..old(self)@ }),
    {
        self.window = Some(window);
    }

    /// Fills in the about dialog, to be shown over the main window, from the
    /// version string and the credit to the translators, both taken as
    /// given. Without a window there is nothing to show the dialog over, and
    /// none is made.
    pub fn show_about(&self, version: &str, translator_credits: String) -> (dialog: Option<
        AboutDialog,
    >)
        ensures
            match dialog {
                Some(dialog) => self@.window is Some && dialog@ == about_dialog_view(
                    version@,
                    translator_credits@,
                ),
                None => self@.window is None,
            },
    {
        if self.window.is_some() {
            Some(about_dialog(version, translator_credits))
        } else {
            None
        }
    }

    /// Finds what is registered under `name`.
    pub fn lookup_action(&self, name: &str) -> (kind: Option<ActionKind>)
        ensures
            kind == find_action(self@.actions, name@),
    {
        let wanted = name.to_owned();
        let mut rest: usize = self.actions.len();
        assert(self@.actions.take(rest as int) =~= self@.actions);
        while rest > 0
            invariant
                rest <= self.actions@.len(),
                wanted@ == name@,
                find_action(self@.actions, name@) == find_action(
                    self@.actions.take(rest as int),
                    name@,
                ),
            decreases rest,
        {
            rest -= 1;
            assert(self@.actions.take(rest + 1).drop_last() =~= self@.actions.take(rest as int));
            if self.actions[rest].name == wanted {
                return Some(self.actions[rest].kind);
            }
        }
        None
    }

    /// Invokes the action registered under `name`. `quit` asks for the end
    /// of the application. `about` fills in the about dialog from `version`
    /// and `translator_credits` if there is a window to show it over, and
    /// does nothing if there is none. A name that nothing is registered under
    /// does nothing.
    pub fn activate_action(&self, name: &str, version: &str, translator_credits: String) -> (outcome:
        ActionOutcome)
        ensures
            match find_action(self@.actions, name@) {
                None => outcome is NotRegistered,
                Some(ActionKind::Quit) => outcome is Quit,
                Some(ActionKind::About) => match outcome {
                    ActionOutcome::About(dialog) => self@.window is Some && dialog@
                        == about_dialog_view(version@, translator_credits@),
                    ActionOutcome::NoWindow => self@.window is None,
                    _ => false,
                },
            },
    {
        match self.lookup_action(name) {
            None => ActionOutcome::NotRegistered,
            Some(ActionKind::Quit) => ActionOutcome::Quit,
            Some(ActionKind::About) => match self.show_about(version, translator_credits) {
                Some(dialog) => ActionOutcome::About(dialog),
                None => ActionOutcome::NoWindow,
            },
        }
    }

    /// Hands an event of the main window on to it, and says whether there
    /// was a window to take it.
    pub fn window_event(&mut self, event: WindowEvent) -> (delivered: bool)
        ensures
            final(self)@ == old(self)@.window_event(event),
            delivered == (old(self)@.window is Some),
    {
        match self.window.take() {
            Some(mut window) => {
                window.handle_event(event);
                self.window = Some(window);
                true
            },
            None => false,
        }
    }

    /// The application's identifier.
    pub fn application_id(&self) -> (id: &str)
        ensures
            id@ == self@.application_id,
    {
        self.application_id.as_str()
    }

    /// The flags that the application was launched with.
    pub fn flags(&self) -> (flags: ApplicationFlags)
        ensures
            flags == self@.flags,
    {
        self.flags
    }

    /// The path below which the application's resources are found.
    pub fn resource_base_path(&self) -> (path: &str)
        ensures
            path@ == self@.resource_base_path,
    {
        self.resource_base_path.as_str()
    }

    /// The registered actions, in the order of registration.
    pub fn actions(&self) -> (actions: &Vec<ActionEntry>)
        ensures
            action_views(actions@) == self@.actions,
    {
        &self.actions
    }

    /// The accelerators, in the order in which they were set.
    pub fn accels(&self) -> (accels: &Vec<Accelerator>)
        ensures
            accelerator_views(accels@) == self@.accels,
    {
        &self.accels
    }

    /// Whether the application has its main window.
    pub fn has_window(&self) -> (present: bool)
        ensures
            present == (self@.window is Some),
    {
        self.window.is_some()
    }

    /// The main window, to work on it, if the application has one. The
    /// application takes on whatever is done to the window.
    pub fn window_mut(&mut self) -> (window: Option<&mut AutopilotWindow>)
        ensures
            match window {
                Some(window) => old(self)@.window == Some(window@) && final(self)@ == (
                ApplicationView { window: Some(final(window)@), ..old(self)@ }),
                None => old(self)@.window is None && final(self)@ == old(self)@,
            },
    {
        self.window.as_mut()
    }

    /// The main window, if the application has one.
    pub fn window(&self) -> (window: Option<&AutopilotWindow>)
        ensures
            match window {
                Some(window) => self@.window == Some(window@),
                None => self@.window is None,
            },
    {
        self.window.as_ref()
    }
}

/// Activating an application that has no window creates one window, binds
/// its handlers once and presents it. The window starts with the sidebar
/// hidden, the toggle button released and an empty profile list. Nothing
/// else of the application changes.
pub proof fn lemma_first_activation(application: ApplicationView)
    requires
        application.window is None,
    ensures
        application.activation() == Activation::Created,
        application.activate() == (ApplicationView {
            window: Some(
                WindowView {
                    visible: true,
                    bindings: default_bindings(),
                    ..WindowView::fresh(application.application_id)
                },
            ),
            ..application
        }),
{
    lemma_attach_callbacks_to_fresh(application.application_id);
}

/// Activating an application that has a window keeps that window, with its
/// profiles, its handlers and the state of its sidebar, and presents it.
/// Nothing else of the application changes.
pub proof fn lemma_activation_reuses_window(application: ApplicationView)
    requires
        application.window is Some,
    ensures
        application.activation() == Activation::Reused,
        application.activate() == (ApplicationView {
            window: Some(application.window.unwrap().present()),
            ..application
        }),
{
}

/// An application that has a window keeps having one: neither an activation
/// nor an event of the window takes it away.
pub proof fn lemma_window_is_kept(application: ApplicationView, event: WindowEvent)
    requires
        application.window is Some,
    ensures
        application.activate().window is Some,
        application.window_event(event).window is Some,
{
}

/// A second activation finds the window of the first: it creates none, and
/// it leaves the application as the first activation left it.
pub proof fn lemma_second_activation(application: ApplicationView)
    ensures
        application.activate().window is Some,
        application.activate().activation() == Activation::Reused,
        application.activate().activate() == application.activate(),
{
}

/// However often the application is activated, once or more, it is left as
/// one activation leaves it: with one window.
pub proof fn lemma_activate_times(application: ApplicationView, count: nat)
    requires
        count >= 1,
    ensures
        application.activate_times(count) == application.activate(),
    decreases count,
{
    if count > 1 {
        lemma_activate_times(application, (count - 1) as nat);
        lemma_second_activation(application);
    } else {
        assert(application.activate_times(0) == application);
    }
}

/// In an application as it is built, `quit` ends the application, `about`
/// opens the about dialog, and nothing is registered under any other name.
pub proof fn lemma_actions_of_fresh_application(
    application_id: Seq<char>,
    flags: ApplicationFlags,
    name: Seq<char>,
)
    ensures
        find_action(ApplicationView::fresh(application_id, flags).actions, "quit"@) == Some(
            ActionKind::Quit,
        ),
        find_action(ApplicationView::fresh(application_id, flags).actions, "about"@) == Some(
            ActionKind::About,
        ),
        name != "quit"@ && name != "about"@ ==> find_action(
            ApplicationView::fresh(application_id, flags).actions,
            name,
        ) is None,
{
    reveal_strlit("quit");
    reveal_strlit("about");
    assert("quit"@.len() != "about"@.len());
    let actions = ApplicationView::fresh(application_id, flags).actions;
    assert(actions =~= global_actions());
    reveal_with_fuel(find_action, 3);
    assert(actions.drop_last() =~= seq![("quit"@, ActionKind::Quit)]);
    assert(actions.drop_last().drop_last() =~= Seq::<ActionView>::empty());
}

} // verus!
