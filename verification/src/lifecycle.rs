//! The window-visibility lifecycle controller.
//!
//! Exactly two logical windows exist: the main window, created by the
//! host shell before the controller starts and kept for the whole
//! process, and the configuration window, created lazily on the first
//! request. A platform close request on the main window is converted
//! into a hide, so the main window is never destroyed; only the `quit`
//! tray command ends the process.

use vstd::prelude::*;

verus! {

/// Identifies one of the two logical windows of the shell.
#[derive(Clone, Copy, PartialEq, Eq, Structural, Debug)]
pub enum WindowId {
    Main,
    Configuration,
}

/// Whether an existing window is currently shown or hidden.
#[derive(Clone, Copy, PartialEq, Eq, Structural, Debug)]
pub enum Visibility {
    Visible,
    Hidden,
}

/// Existence and visibility of one logical window. Visibility is
/// carried only while the window exists, so the visibility of an
/// absent window can never be asked for.
#[derive(Clone, Copy, PartialEq, Eq, Structural, Debug)]
pub enum WindowState {
    Absent,
    Present { visibility: Visibility },
}

/// The conditions under which a lifecycle operation refuses to act.
#[derive(Clone, Copy, PartialEq, Eq, Structural, Debug)]
pub enum LifecycleError {
    /// The operation needed a window that has not been created yet.
    NotFound,
    /// The host shell refused to construct the requested window.
    WindowCreationFailed,
}

/// The controller's answer to a platform close request.
#[derive(Clone, Copy, PartialEq, Eq, Structural, Debug)]
pub enum CloseDisposition {
    /// Suppress the destructive close and hide the window instead.
    SuppressAndHide,
    /// Leave the request to the host shell's default close action.
    HostDefault,
}

/// The controller's answer to a request to open the configuration window.
#[derive(Clone, Copy, PartialEq, Eq, Structural, Debug)]
pub enum EnsureOutcome {
    /// The configuration window does not exist yet: the host shell must
    /// build one and report the result through
    /// [`Controller::on_configuration_created`].
    CreationRequired,
    /// The window already existed; it was marked visible again and the
    /// host shell should show and focus it.
    ShownExisting,
}

impl WindowState {
    /// A hidden window if one exists; nothing otherwise.
    pub open spec fn hidden_if_present(self) -> WindowState {
        match self {
            WindowState::Absent => WindowState::Absent,
            WindowState::Present { .. } => WindowState::Present { visibility: Visibility::Hidden },
        }
    }
}

/// Existence and visibility of both logical windows, plus whether the
/// process has been told to terminate. All state is mutated only from
/// the host shell's single event-dispatch thread.
#[derive(Clone, Copy, PartialEq, Eq, Structural, Debug)]
pub struct Controller {
    /// The main window; present for the whole process lifetime.
    pub main: WindowState,
    /// The configuration window; absent until first requested.
    pub configuration: WindowState,
    /// True once the `quit` command ran; no event is delivered afterwards.
    pub terminated: bool,
}

impl Controller {
    /// The state in which the controller starts: the main window is
    /// already created and visible, the configuration window does not
    /// exist, and the process is running.
    pub open spec fn initial() -> Controller {
        Controller {
            main: WindowState::Present { visibility: Visibility::Visible },
            configuration: WindowState::Absent,
            terminated: false,
        }
    }

    /// The state of the window named by `id`.
    pub open spec fn window(self, id: WindowId) -> WindowState {
        match id {
            WindowId::Main => self.main,
            WindowId::Configuration => self.configuration,
        }
    }

    /// The controller with the window named by `id` replaced.
    pub open spec fn with_window(self, id: WindowId, w: WindowState) -> Controller {
        match id {
            WindowId::Main => Controller {
                main: w,
                configuration: self.configuration,
                terminated: self.terminated,
            },
            WindowId::Configuration => Controller {
                main: self.main,
                configuration: w,
                terminated: self.terminated,
            },
        }
    }

    /// Well-formedness: the main window exists. The host shell creates
    /// it before the controller starts, and no operation destroys it.
    pub open spec fn wf(self) -> bool {
        self.main is Present
    }

    /// The state after the platform asked to close `id`: a request on
    /// the main window only hides it; a request on any other window is
    /// left to the host shell and changes nothing here.
    pub open spec fn after_close_requested(self, id: WindowId) -> Controller {
        match id {
            WindowId::Main => self.with_window(
                WindowId::Main,
                WindowState::Present { visibility: Visibility::Hidden },
            ),
            WindowId::Configuration => self,
        }
    }

    /// The state after `id` was shown; meaningful only while `id` exists.
    pub open spec fn after_show(self, id: WindowId) -> Controller {
        self.with_window(id, WindowState::Present { visibility: Visibility::Visible })
    }

    /// The state after `id` was hidden: hidden if it existed, untouched
    /// otherwise.
    pub open spec fn after_hide(self, id: WindowId) -> Controller {
        self.with_window(id, self.window(id).hidden_if_present())
    }

    /// The state after the host shell built the configuration window.
    pub open spec fn after_configuration_created(self) -> Controller {
        self.with_window(
            WindowId::Configuration,
            WindowState::Present { visibility: Visibility::Visible },
        )
    }

    /// The state after a request to open the configuration window ran
    /// to completion: created and visible if it was absent (and the
    /// host shell's construction succeeded), shown again otherwise.
    pub open spec fn after_ensure_configuration(self) -> Controller {
        if self.configuration is Absent {
            self.after_configuration_created()
        } else {
            self.after_show(WindowId::Configuration)
        }
    }

    /// The state after the `quit` command: the windows are left as they
    /// are and the process is marked terminated.
    pub open spec fn after_quit(self) -> Controller {
        Controller {
            main: self.main,
            configuration: self.configuration,
            terminated: true,
        }
    }

    /// Captures the main window at startup. Called exactly once, after
    /// the host shell created the main window and before any event is
    /// delivered; from here on every close request on the main window
    /// goes through [`Controller::on_close_requested`].
    pub fn register_main_window() -> (c: Controller)
        ensures
            c == Controller::initial(),
    {
        Controller {
            main: WindowState::Present { visibility: Visibility::Visible },
            configuration: WindowState::Absent,
            terminated: false,
        }
    }

    /// The state of the window named by `id`.
    pub fn window_state(&self, id: WindowId) -> (w: WindowState)
        ensures
            w == self.window(id),
    {
        match id {
            WindowId::Main => self.main,
            WindowId::Configuration => self.configuration,
        }
    }

    /// Replaces the window named by `id`.
    fn set_window(&mut self, id: WindowId, w: WindowState)
        ensures
            *final(self) == old(self).with_window(id, w),
    {
        match id {
            WindowId::Main => {
                self.main = w;
            }
            WindowId::Configuration => {
                self.configuration = w;
            }
        }
    }

    /// The platform asked to close the window named by `id`. For the
    /// main window the destructive close is suppressed and the window
    /// is hidden instead — whatever its visibility was before, it ends
    /// present and hidden. For any other window the host shell's
    /// default action stands and the controller changes nothing.
    pub fn on_close_requested(&mut self, id: WindowId) -> (r: CloseDisposition)
        requires
            old(self).wf(),
            !old(self).terminated,
        ensures
            *final(self) == old(self).after_close_requested(id),
            final(self).wf(),
            !final(self).terminated,
            id == WindowId::Main ==> r == CloseDisposition::SuppressAndHide
                && final(self).main == (WindowState::Present { visibility: Visibility::Hidden }),
            id == WindowId::Configuration ==> r == CloseDisposition::HostDefault
                && *final(self) == *old(self),
    {
        match id {
            WindowId::Main => {
                self.main = WindowState::Present { visibility: Visibility::Hidden };
                CloseDisposition::SuppressAndHide
            }
            WindowId::Configuration => CloseDisposition::HostDefault,
        }
    }

    /// Shows the window named by `id` and asks the host shell to give
    /// it input focus. Fails with `NotFound` — leaving everything
    /// unchanged — exactly when the window does not exist; showing an
    /// already visible window succeeds and leaves it visible.
    pub fn show(&mut self, id: WindowId) -> (r: Result<(), LifecycleError>)
        requires
            old(self).wf(),
            !old(self).terminated,
        ensures
            r is Ok <==> old(self).window(id) is Present,
            r is Ok ==> *final(self) == old(self).after_show(id)
                && final(self).window(id) == (WindowState::Present {
                    visibility: Visibility::Visible,
                }),
            r is Err ==> *final(self) == *old(self)
                && r == Err::<(), LifecycleError>(LifecycleError::NotFound),
            final(self).wf(),
            !final(self).terminated,
    {
        match self.window_state(id) {
            WindowState::Absent => Err(LifecycleError::NotFound),
            WindowState::Present { .. } => {
                self.set_window(id, WindowState::Present { visibility: Visibility::Visible });
                Ok(())
            }
        }
    }

    /// Hides the window named by `id`. If the window does not exist
    /// this is silently a no-op; otherwise the window ends hidden. No
    /// focus side effect either way.
    pub fn hide_window(&mut self, id: WindowId)
        requires
            old(self).wf(),
            !old(self).terminated,
        ensures
            *final(self) == old(self).after_hide(id),
            final(self).wf(),
            !final(self).terminated,
            old(self).window(id) is Present ==> final(self).window(id)
                == (WindowState::Present { visibility: Visibility::Hidden }),
            old(self).window(id) is Absent ==> *final(self) == *old(self),
    {
        match self.window_state(id) {
            WindowState::Absent => {}
            WindowState::Present { .. } => {
                self.set_window(id, WindowState::Present { visibility: Visibility::Hidden });
            }
        }
    }

    /// A request to open the configuration window. If it does not
    /// exist yet, nothing changes here: the host shell must construct
    /// it and report back through
    /// [`Controller::on_configuration_created`]. If it already exists,
    /// the one existing window is reused: it is marked visible and the
    /// host shell should show and focus it — no duplicate is ever
    /// created.
    pub fn ensure_configuration_window(&mut self) -> (r: EnsureOutcome)
        requires
            old(self).wf(),
            !old(self).terminated,
        ensures
            old(self).configuration is Absent ==> r == EnsureOutcome::CreationRequired
                && *final(self) == *old(self),
            old(self).configuration is Present ==> r == EnsureOutcome::ShownExisting
                && *final(self) == old(self).after_show(WindowId::Configuration)
                && final(self).configuration == (WindowState::Present {
                    visibility: Visibility::Visible,
                }),
            final(self).wf(),
            !final(self).terminated,
    {
        match self.window_state(WindowId::Configuration) {
            WindowState::Absent => EnsureOutcome::CreationRequired,
            WindowState::Present { .. } => {
                let _ = self.show(WindowId::Configuration);
                EnsureOutcome::ShownExisting
            }
        }
    }

    /// The host shell reports whether it managed to construct the
    /// configuration window after
    /// [`Controller::ensure_configuration_window`] asked for one. On
    /// success the window is recorded as present and visible; on
    /// failure the attempt is reported as `WindowCreationFailed` and
    /// the state is exactly as before it — the window stays absent.
    pub fn on_configuration_created(&mut self, created: bool) -> (r: Result<
        (),
        LifecycleError,
    >)
        requires
            old(self).wf(),
            !old(self).terminated,
            old(self).configuration is Absent,
        ensures
            created ==> r == Ok::<(), LifecycleError>(())
                && *final(self) == old(self).after_configuration_created()
                && final(self).configuration == (WindowState::Present {
                    visibility: Visibility::Visible,
                }),
            !created ==> r == Err::<(), LifecycleError>(LifecycleError::WindowCreationFailed)
                && *final(self) == *old(self),
            final(self).wf(),
            !final(self).terminated,
    {
        if created {
            self.configuration = WindowState::Present { visibility: Visibility::Visible };
            Ok(())
        } else {
            Err(LifecycleError::WindowCreationFailed)
        }
    }
}

/// The two events that can reach the main window from the platform
/// while the shell runs in the background: an explicit hide and a
/// close request (which the hide-on-close policy converts into a hide).
pub enum MainEvent {
    Hide,
    CloseRequested,
}

/// The controller after one of these events hit the main window.
pub open spec fn main_event_step(c: Controller, e: MainEvent) -> Controller {
    match e {
        MainEvent::Hide => c.after_hide(WindowId::Main),
        MainEvent::CloseRequested => c.after_close_requested(WindowId::Main),
    }
}

/// The controller after a whole sequence of such events, in order.
pub open spec fn apply_main_events(c: Controller, events: Seq<MainEvent>) -> Controller
    decreases events.len(),
{
    if events.len() == 0 {
        c
    } else {
        apply_main_events(main_event_step(c, events[0]), events.subrange(1, events.len() as int))
    }
}

/// However many hide calls and close requests reach the main window,
/// in whatever order, the main window still exists afterwards and the
/// process has not been told to terminate.
pub proof fn lemma_main_survives_hide_and_close(c: Controller, events: Seq<MainEvent>)
    requires
        c.wf(),
        !c.terminated,
    ensures
        apply_main_events(c, events).main is Present,
        !apply_main_events(c, events).terminated,
        apply_main_events(c, events).wf(),
    decreases events.len(),
{
    if events.len() > 0 {
        lemma_main_survives_hide_and_close(
            main_event_step(c, events[0]),
            events.subrange(1, events.len() as int),
        );
    }
}

/// A close request on the main window always leaves it present and
/// hidden, whatever its visibility was before; a second request on the
/// result changes nothing more.
pub proof fn lemma_close_requested_idempotent(c: Controller)
    ensures
        c.after_close_requested(WindowId::Main).main == (WindowState::Present {
            visibility: Visibility::Hidden,
        }),
        c.after_close_requested(WindowId::Main).after_close_requested(WindowId::Main)
            == c.after_close_requested(WindowId::Main),
{
}

/// Opening the configuration window twice in a row creates exactly one
/// window: after the first completed request the window exists and is
/// visible, so the second request takes the reuse path — it performs
/// no creation and leaves the state exactly as it was.
pub proof fn lemma_ensure_configuration_idempotent(c: Controller)
    ensures
        c.after_ensure_configuration().configuration == (WindowState::Present {
            visibility: Visibility::Visible,
        }),
        c.after_ensure_configuration().configuration is Present,
        c.after_ensure_configuration().after_ensure_configuration()
            == c.after_ensure_configuration(),
{
}

} // verus!
