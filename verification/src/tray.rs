//! The tray command dispatcher and the fixed tray menu surface.
//!
//! The dispatcher is stateless: it matches a menu command id against a
//! closed set of identifiers and calls the matching lifecycle
//! operation, answering with the one platform action the host shell
//! must perform. Unknown ids are ignored, not errors. The menu itself
//! is static: four items, set once at startup, all enabled.

use vstd::prelude::*;

use crate::lifecycle::{Controller, EnsureOutcome, WindowId};

verus! {

/// The platform action the host shell must perform after a tray menu
/// selection was dispatched.
#[derive(Clone, Copy, PartialEq, Eq, Structural, Debug)]
pub enum DispatchOutcome {
    /// Build the configuration window as
    /// [`configuration_window_request`] describes it, then report the
    /// result through `Controller::on_configuration_created`.
    CreateConfigurationWindow,
    /// Show the window and give it input focus.
    ShowAndFocus(WindowId),
    /// Hide the window.
    HideWindow(WindowId),
    /// Terminate the process with the given exit code. No further
    /// event is dispatched afterwards.
    Exit(i32),
    /// Nothing to do.
    NoAction,
}

/// The closed set of command ids the dispatcher recognizes.
pub open spec fn known_command(id: Seq<char>) -> bool {
    ||| id == "open_config"@
    ||| id == "show_main"@
    ||| id == "hide_main"@
    ||| id == "quit"@
}

/// Runtime equality of two string slices, specified over their views.
fn str_equal(a: &str, b: &str) -> (r: bool)
    ensures
        r <==> a@ == b@,
{
    a.to_owned() == b.to_owned()
}

/// Maps one tray menu command id to its lifecycle operation:
/// `open_config` opens or reuses the configuration window, `show_main`
/// and `hide_main` toggle the main window, `quit` marks the process
/// terminated, and every other id changes nothing and is no error.
/// The answer is the one platform action left for the host shell.
pub fn dispatch(c: &mut Controller, command: &str) -> (r: DispatchOutcome)
    requires
        old(c).wf(),
        !old(c).terminated,
    ensures
        final(c).wf(),
        command@ == "open_config"@ && old(c).configuration is Absent ==> r
            == DispatchOutcome::CreateConfigurationWindow && *final(c) == *old(c),
        command@ == "open_config"@ && old(c).configuration is Present ==> r
            == DispatchOutcome::ShowAndFocus(WindowId::Configuration)
            && *final(c) == old(c).after_show(WindowId::Configuration),
        command@ == "show_main"@ ==> r == DispatchOutcome::ShowAndFocus(WindowId::Main)
            && *final(c) == old(c).after_show(WindowId::Main),
        command@ == "hide_main"@ ==> r == DispatchOutcome::HideWindow(WindowId::Main)
            && *final(c) == old(c).after_hide(WindowId::Main),
        command@ == "quit"@ ==> r == DispatchOutcome::Exit(0) && *final(c) == old(c).after_quit(),
        !known_command(command@) ==> r == DispatchOutcome::NoAction && *final(c) == *old(c),
{
    proof {
        reveal_strlit("open_config");
        reveal_strlit("show_main");
        reveal_strlit("hide_main");
        reveal_strlit("quit");
        // The four command ids are pairwise distinct, so at most one
        // branch below can apply to any given `command`.
        assert("open_config"@.len() == 11);
        assert("show_main"@.len() == 9);
        assert("hide_main"@.len() == 9);
        assert("quit"@.len() == 4);
        assert("show_main"@[0] == 's' && "hide_main"@[0] == 'h');
        assert("open_config"@ != "show_main"@);
        assert("open_config"@ != "hide_main"@);
        assert("open_config"@ != "quit"@);
        assert("show_main"@ != "hide_main"@);
        assert("show_main"@ != "quit"@);
        assert("hide_main"@ != "quit"@);
    }
    if str_equal(command, "open_config") {
        match c.ensure_configuration_window() {
            EnsureOutcome::CreationRequired => DispatchOutcome::CreateConfigurationWindow,
            EnsureOutcome::ShownExisting => DispatchOutcome::ShowAndFocus(WindowId::Configuration),
        }
    } else if str_equal(command, "show_main") {
        let _ = c.show(WindowId::Main);
        DispatchOutcome::ShowAndFocus(WindowId::Main)
    } else if str_equal(command, "hide_main") {
        c.hide_window(WindowId::Main);
        DispatchOutcome::HideWindow(WindowId::Main)
    } else if str_equal(command, "quit") {
        c.terminated = true;
        DispatchOutcome::Exit(0)
    } else {
        DispatchOutcome::NoAction
    }
}

/// How the host shell is to build a new window: under which key it is
/// registered, which front-end route it displays, its title, and its
/// inner size in logical units.
pub struct WindowRequest {
    /// The key under which the host shell registers the window.
    pub label: String,
    /// The front-end route the window displays.
    pub url: String,
    /// The window title.
    pub title: String,
    /// Inner width in logical units.
    pub width: u32,
    /// Inner height in logical units.
    pub height: u32,
}

/// The fixed build request for the configuration window: registered
/// under `configuration`, displaying the `/configuration` route, 800
/// by 600 logical units.
pub fn configuration_window_request() -> (r: WindowRequest)
    ensures
        r.label@ == "configuration"@,
        r.url@ == "/configuration"@,
        r.title@ == "Configuration"@,
        r.width == 800,
        r.height == 600,
{
    WindowRequest {
        label: "configuration".to_owned(),
        url: "/configuration".to_owned(),
        title: "Configuration".to_owned(),
        width: 800,
        height: 600,
    }
}

/// The host-shell key under which each logical window is registered.
pub fn window_label(id: WindowId) -> (r: String)
    ensures
        id == WindowId::Main ==> r@ == "main"@,
        id == WindowId::Configuration ==> r@ == "configuration"@,
{
    match id {
        WindowId::Main => "main".to_owned(),
        WindowId::Configuration => "configuration".to_owned(),
    }
}

/// One entry of the static tray menu.
pub struct MenuItemDef {
    /// The command id handed to [`dispatch`] when the entry is selected.
    pub id: String,
    /// The text shown in the menu.
    pub label: String,
    /// Whether the entry can be selected.
    pub enabled: bool,
}

/// The fixed tray menu surface: four entries, set once at startup and
/// never changed, all enabled — open the configuration window, show
/// the main window, hide it, and quit.
pub fn tray_menu_items() -> (r: Vec<MenuItemDef>)
    ensures
        r@.len() == 4,
        r@[0].id@ == "open_config"@ && r@[0].label@ == "Configure Danmugo"@ && r@[0].enabled,
        r@[1].id@ == "show_main"@ && r@[1].label@ == "Show Damnu"@ && r@[1].enabled,
        r@[2].id@ == "hide_main"@ && r@[2].label@ == "Hide Damnu"@ && r@[2].enabled,
        r@[3].id@ == "quit"@ && r@[3].label@ == "Quit"@ && r@[3].enabled,
{
    let mut items: Vec<MenuItemDef> = Vec::new();
    items.push(
        MenuItemDef {
            id: "open_config".to_owned(),
            label: "Configure Danmugo".to_owned(),
            enabled: true,
        },
    );
    items.push(
        MenuItemDef { id: "show_main".to_owned(), label: "Show Damnu".to_owned(), enabled: true },
    );
    items.push(
        MenuItemDef { id: "hide_main".to_owned(), label: "Hide Damnu".to_owned(), enabled: true },
    );
    items.push(MenuItemDef { id: "quit".to_owned(), label: "Quit".to_owned(), enabled: true });
    items
}

} // verus!
