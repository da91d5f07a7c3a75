//! What the desktop shell asks of the bridge: its status, what its tray and
//! menu events do to the window, and how starting at login is switched on
//! and off through the Windows registry.

use crate::codec::lossy_text;
use crate::codec::utf8_lossy;
use crate::config::Config;
use crate::printer::Invocation;
use crate::printer::InvocationView;
use crate::printer::ProcessOutput;
use crate::text::contains;
use crate::text::decimal;
use crate::text::decimal_text;
use crate::text::occurs_in;
use vstd::prelude::*;
use vstd::utf8::decode_utf8;
use vstd::utf8::valid_utf8;

verus! {

/// The state of the bridge as the shell shows it.
#[derive(Debug, Clone, PartialEq, Eq)]
pub struct BridgeStatus {
    pub active: bool,
    pub port: u16,
    pub version: String,
    pub requests_processed: u32,
}

/// The address of the health route of a bridge on `host` and `port`.
pub open spec fn health_address(host: Seq<char>, port: u16) -> Seq<char> {
    "http://"@ + host + ":"@ + decimal(port as nat) + "/health"@
}

/// The address that is polled to learn whether the bridge is up.
pub fn health_url(config: &Config) -> (url: String)
    ensures
        url@ == health_address(config.host@, config.port),
{
    let port = decimal_text(config.port as u64);
    String::from_str("http://").concat(config.host.as_str()).concat(":").concat(
        port.as_str(),
    ).concat("/health")
}

/// The status to show, given whether the health route answered with
/// success. Requests are not counted: the count is always zero.
pub fn bridge_status(config: &Config, active: bool, version: &str) -> (status: BridgeStatus)
    ensures
        status.active == active,
        status.port == config.port,
        status.version@ == version@,
        status.requests_processed == 0,
{
    BridgeStatus {
        active,
        port: config.port,
        version: String::from_str(version),
        requests_processed: 0,
    }
}

/// Whether an update of the settings switches starting at login on or off.
pub fn auto_start_changed(old: &Config, new: &Config) -> (changed: bool)
    ensures
        changed == (old.auto_start != new.auto_start),
{
    old.auto_start != new.auto_start
}

/// The registry command that adds the program at `exe_path` to the
/// programs started at login, or removes it.
pub open spec fn registry_command(enable: bool, exe_path: Seq<char>) -> InvocationView {
    if enable {
        InvocationView {
            program: "reg"@,
            args: seq![
                "add"@,
                "HKEY_CURRENT_USER\\Software\\Microsoft\\Windows\\CurrentVersion\\Run"@,
                "/v"@,
                "Print My Bridge"@,
                "/t"@,
                "REG_SZ"@,
                "/d"@,
                "\""@ + exe_path + "\""@,
                "/f"@,
            ],
        }
    } else {
        InvocationView {
            program: "reg"@,
            args: seq![
                "delete"@,
                "HKEY_CURRENT_USER\\Software\\Microsoft\\Windows\\CurrentVersion\\Run"@,
                "/v"@,
                "Print My Bridge"@,
                "/f"@,
            ],
        }
    }
}

/// What went wrong with the registry command, if anything: a failed
/// addition always counts; a failed removal does not count when the key
/// was not there to begin with.
pub open spec fn registry_failure(enable: bool, success: bool, stderr: Seq<u8>) -> Option<
    Seq<char>,
> {
    if success {
        None
    } else if enable {
        Some("Failed to enable auto-start: "@ + utf8_lossy(stderr))
    } else if occurs_in(
        utf8_lossy(stderr),
        "The system was unable to find the specified registry key"@,
    ) {
        None
    } else {
        Some("Failed to disable auto-start: "@ + utf8_lossy(stderr))
    }
}

/// The registry command for switching starting at login on or off.
pub fn auto_start_command(enable: bool, exe_path: &str) -> (call: Invocation)
    ensures
        call@ == registry_command(enable, exe_path@),
{
    let mut args: Vec<String> = Vec::new();
    if enable {
        args.push(String::from_str("add"));
        args.push(
            String::from_str(
                "HKEY_CURRENT_USER\\Software\\Microsoft\\Windows\\CurrentVersion\\Run",
            ),
        );
        args.push(String::from_str("/v"));
        args.push(String::from_str("Print My Bridge"));
        args.push(String::from_str("/t"));
        args.push(String::from_str("REG_SZ"));
        args.push(String::from_str("/d"));
        args.push(String::from_str("\"").concat(exe_path).concat("\""));
        args.push(String::from_str("/f"));
    } else {
        args.push(String::from_str("delete"));
        args.push(
            String::from_str(
                "HKEY_CURRENT_USER\\Software\\Microsoft\\Windows\\CurrentVersion\\Run",
            ),
        );
        args.push(String::from_str("/v"));
        args.push(String::from_str("Print My Bridge"));
        args.push(String::from_str("/f"));
    }
    assert(args.deep_view() =~= registry_command(enable, exe_path@).args);
    Invocation { program: String::from_str("reg"), args }
}

/// Judges the outcome of the registry command. Error output that is valid
/// UTF-8 is read as the text it encodes.
pub fn auto_start_outcome(enable: bool, output: &ProcessOutput) -> (r: Result<(), String>)
    ensures
        match r {
            Ok(_) => registry_failure(enable, output.success, output.stderr@) is None,
            Err(reason) => registry_failure(enable, output.success, output.stderr@) == Some(
                reason@,
            ),
        },
        !output.success && valid_utf8(output.stderr@) ==> utf8_lossy(output.stderr@)
            == decode_utf8(output.stderr@),
{
    if output.success {
        return Ok(());
    }
    let stderr = lossy_text(output.stderr.as_slice());
    if enable {
        Err(String::from_str("Failed to enable auto-start: ").concat(stderr.as_str()))
    } else if contains(
        stderr.as_str(),
        "The system was unable to find the specified registry key",
    ) {
        Ok(())
    } else {
        Err(String::from_str("Failed to disable auto-start: ").concat(stderr.as_str()))
    }
}

/// What the shell does to its window in answer to an event.
#[derive(Debug, Clone, Copy, PartialEq, Eq)]
pub enum ShellAction {
    /// Show the window and give it the focus.
    Show,
    /// Hide the window; the bridge goes on serving from the tray.
    Hide,
    /// End the program.
    Quit,
    /// Leave everything as it is.
    Nothing,
}

/// One entry of the tray menu.
#[derive(Debug, Clone, PartialEq, Eq)]
pub struct TrayEntry {
    pub id: String,
    pub label: String,
}

/// What the tray menu entry with identifier `id` does.
pub open spec fn menu_choice(id: Seq<char>) -> ShellAction {
    if id == "quit"@ {
        ShellAction::Quit
    } else if id == "show"@ {
        ShellAction::Show
    } else if id == "hide"@ {
        ShellAction::Hide
    } else {
        ShellAction::Nothing
    }
}

/// What a left click on the tray icon does: it hides a visible window and
/// shows a hidden one.
pub open spec fn tray_toggle(visible: bool) -> ShellAction {
    if visible {
        ShellAction::Hide
    } else {
        ShellAction::Show
    }
}

/// The entries of the tray menu, in order: show, hide, and, set apart by a
/// separator, quit.
pub fn tray_menu() -> (entries: Vec<TrayEntry>)
    ensures
        entries.len() == 3,
        entries[0].id@ == "show"@ && entries[0].label@ == "Mostrar"@,
        entries[1].id@ == "hide"@ && entries[1].label@ == "Ocultar"@,
        entries[2].id@ == "quit"@ && entries[2].label@ == "Cerrar"@,
        forall|i: int| 0 <= i < entries.len() ==> menu_choice(#[trigger] entries[i].id@)
            != ShellAction::Nothing,
{
    let mut entries: Vec<TrayEntry> = Vec::new();
    entries.push(TrayEntry { id: String::from_str("show"), label: String::from_str("Mostrar") });
    entries.push(TrayEntry { id: String::from_str("hide"), label: String::from_str("Ocultar") });
    entries.push(TrayEntry { id: String::from_str("quit"), label: String::from_str("Cerrar") });
    entries
}

/// Decides [`menu_choice`].
pub fn menu_action(id: &str) -> (action: ShellAction)
    ensures
        action == menu_choice(id@),
{
    let chosen = String::from_str(id);
    if chosen == String::from_str("quit") {
        ShellAction::Quit
    } else if chosen == String::from_str("show") {
        ShellAction::Show
    } else if chosen == String::from_str("hide") {
        ShellAction::Hide
    } else {
        ShellAction::Nothing
    }
}

/// Decides [`tray_toggle`]. A window whose visibility cannot be told is
/// taken as hidden by the caller.
pub fn tray_click_action(visible: bool) -> (action: ShellAction)
    ensures
        action == tray_toggle(visible),
{
    if visible {
        ShellAction::Hide
    } else {
        ShellAction::Show
    }
}

} // verus!
