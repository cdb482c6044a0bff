//! How an error is shown: the line on standard error, and the dialog programs that
//! put it on the screen.

use vstd::prelude::*;
use crate::launch::{
    escape_quotes, invocation_views, push_escaped, Invocation, InvocationView, Platform,
};
use crate::text::string_views;

verus! {

/// The title of every error dialog.
pub open spec fn error_title() -> Seq<char> {
    "rund - Error"@
}

/// The line that standard error gets.
pub open spec fn error_line(message: Seq<char>) -> Seq<char> {
    "Error: "@ + message
}

/// The line that standard error gets.
pub fn stderr_line(message: &str) -> (r: String)
    ensures
        r@ == error_line(message@),
{
    let mut out = "Error: ".to_owned();
    out.append(message);
    out
}

/// The script that has macOS show the message, its double quotes escaped.
pub open spec fn mac_dialog_script(message: Seq<char>) -> Seq<char> {
    "display dialog \""@ + escape_quotes(message)
        + "\" with title \"rund - Error\" buttons {\"OK\"} default button \"OK\" with icon stop"@
}

/// The dialog programs that show `message`, in the order in which they are tried;
/// the first that starts is the last that is tried. Windows shows its own message
/// box and needs none.
pub open spec fn error_dialogs(platform: Platform, message: Seq<char>) -> Seq<InvocationView> {
    match platform {
        Platform::Windows => Seq::empty(),
        Platform::MacOs => seq![
            InvocationView { program: "osascript"@, args: seq!["-e"@, mac_dialog_script(message)] },
        ],
        Platform::Posix => seq![
            InvocationView {
                program: "zenity"@,
                args: seq![
                    "--error"@,
                    "--title=rund - Error"@,
                    "--text="@ + message,
                    "--width=400"@,
                ],
            },
            InvocationView {
                program: "kdialog"@,
                args: seq!["--error"@, message, "--title"@, error_title()],
            },
            InvocationView {
                program: "notify-send"@,
                args: seq!["-u"@, "critical"@, error_title(), message],
            },
        ],
    }
}

/// The dialog programs that show `message` on `platform`, in the order in which
/// they are tried.
pub fn error_dialog_invocations(platform: Platform, message: &str) -> (r: Vec<Invocation>)
    ensures
        invocation_views(r@) == error_dialogs(platform, message@),
{
    let mut out: Vec<Invocation> = Vec::new();
    match platform {
        Platform::Windows => {
            proof {
                assert(invocation_views(out@) =~= error_dialogs(platform, message@));
            }
        },
        Platform::MacOs => {
            let mut script = "display dialog \"".to_owned();
            push_escaped(&mut script, message);
            script.append(
                "\" with title \"rund - Error\" buttons {\"OK\"} default button \"OK\" with icon stop",
            );
            let mut args: Vec<String> = Vec::new();
            args.push("-e".to_owned());
            args.push(script);
            proof {
                assert(string_views(args@) =~= seq!["-e"@, mac_dialog_script(message@)]);
            }
            out.push(Invocation { program: "osascript".to_owned(), args });
            proof {
                assert(invocation_views(out@) =~= error_dialogs(platform, message@));
            }
        },
        Platform::Posix => {
            let mut text = "--text=".to_owned();
            text.append(message);
            let mut zenity: Vec<String> = Vec::new();
            zenity.push("--error".to_owned());
            zenity.push("--title=rund - Error".to_owned());
            zenity.push(text);
            zenity.push("--width=400".to_owned());
            let mut kdialog: Vec<String> = Vec::new();
            kdialog.push("--error".to_owned());
            kdialog.push(message.to_owned());
            kdialog.push("--title".to_owned());
            kdialog.push("rund - Error".to_owned());
            let mut notify: Vec<String> = Vec::new();
            notify.push("-u".to_owned());
            notify.push("critical".to_owned());
            notify.push("rund - Error".to_owned());
            notify.push(message.to_owned());
            proof {
                assert(string_views(zenity@) =~= error_dialogs(platform, message@)[0].args);
                assert(string_views(kdialog@) =~= error_dialogs(platform, message@)[1].args);
                assert(string_views(notify@) =~= error_dialogs(platform, message@)[2].args);
            }
            out.push(Invocation { program: "zenity".to_owned(), args: zenity });
            out.push(Invocation { program: "kdialog".to_owned(), args: kdialog });
            out.push(Invocation { program: "notify-send".to_owned(), args: notify });
            proof {
                assert(invocation_views(out@) =~= error_dialogs(platform, message@));
            }
        },
    }
    out
}

} // verus!
