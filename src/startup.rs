use crate::readiness::Event;
use crate::text::{decimal, push_decimal};
use vstd::prelude::*;
use vstd::string::*;

verus! {

/// Label of the failure dialog's button that copies the logs before exiting.
pub open spec fn copy_logs_label() -> Seq<char> {
    "Copy Logs And Exit"@
}

pub fn copy_logs_button() -> (r: String)
    ensures
        r@ == copy_logs_label(),
{
    String::from_str("Copy Logs And Exit")
}

/// The event reported when the failure dialog closes; `button` is the label of
/// the custom button pressed, if any. Only the copy-logs button asks for the logs.
pub fn dialog_closed(button: Option<&String>) -> (e: Event)
    ensures
        e == (Event::DialogClosed {
            copy_logs: button is Some && button->Some_0@ == copy_logs_label(),
        }),
{
    let copy_logs = match button {
        Some(label) => {
            let expected = copy_logs_button();
            *label == expected
        },
        None => false,
    };
    Event::DialogClosed { copy_logs }
}

pub open spec fn bool_text(b: bool) -> Seq<char> {
    if b {
        "true"@
    } else {
        "false"@
    }
}

/// The script that hands the port and the updater flag to the window.
pub open spec fn init_script(updater_enabled: bool, port: u16) -> Seq<char> {
    "window.__OPENCODE__ ??= {};\nwindow.__OPENCODE__.updaterEnabled = "@ + bool_text(
        updater_enabled,
    ) + ";\nwindow.__OPENCODE__.port = "@ + decimal(port as nat) + ";\n"@
}

/// Builds the script that makes the port and the updater flag available to
/// the main window when it starts.
pub fn initialization_script(updater_enabled: bool, port: u16) -> (r: String)
    ensures
        r@ == init_script(updater_enabled, port),
{
    let mut r = String::from_str(
        "window.__OPENCODE__ ??= {};\nwindow.__OPENCODE__.updaterEnabled = ",
    );
    if updater_enabled {
        r.append("true");
    } else {
        r.append("false");
    }
    r.append(";\nwindow.__OPENCODE__.port = ");
    push_decimal(&mut r, port as u32);
    r.append(";\n");
    r
}

} // verus!
