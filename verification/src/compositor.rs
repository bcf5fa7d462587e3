//! What is said to a compositor to bring the windows of an application
//! to the front. Talking to the compositor is left to the caller.

use vstd::prelude::*;
use vstd::string::StringExecFns;
use crate::text::{lowercased, str_equal, texts, to_lowercase, trim, trimmed};

verus! {

/// The commands that ask Hyprland to focus a window of an application,
/// in the order in which they are tried: by class, by title, by the
/// lower-case class as a whole, and by initial class.
pub open spec fn hyprland_focus_commands(app_name: Seq<char>) -> Seq<Seq<char>> {
    seq![
        "dispatch focuswindow class:"@ + app_name,
        "dispatch focuswindow title:"@ + app_name,
        "dispatch focuswindow class:^"@ + lowercased(app_name) + "$"@,
        "dispatch focuswindow initialclass:"@ + app_name,
    ]
}

/// Whether a reply of Hyprland, given what is left of it without the
/// white space at its ends, says that a command was carried out: it is
/// `ok`, or it is empty.
pub open spec fn hyprland_accepted(trimmed_reply: Seq<char>, reply: Seq<char>) -> bool {
    trimmed_reply == "ok"@ || reply.len() == 0
}

/// The arguments that ask Sway to focus a window of an application, by
/// application identifier or by class.
pub open spec fn sway_focus_arguments(app_name: Seq<char>, by_class: bool) -> Seq<Seq<char>> {
    seq![
        if by_class {
            "[class="@
        } else {
            "[app_id="@
        },
        app_name + "]"@,
        "focus"@,
    ]
}

/// A text followed by another.
fn joined(head: &str, tail: &str) -> (r: String)
    ensures
        r@ == head@ + tail@,
{
    let mut s = head.to_string();
    s.append(tail);
    s
}

/// What is said to Hyprland.
pub struct HyprlandIpc;

impl HyprlandIpc {
    /// Where Hyprland listens, given the runtime directory of the
    /// session and the signature of the running instance.
    pub fn socket_path(runtime_dir: &str, signature: &str) -> (r: String)
        ensures
            r@ == runtime_dir@ + "/hypr/"@ + signature@ + "/.socket.sock"@,
    {
        let mut s = joined(runtime_dir, "/hypr/");
        s.append(signature);
        s.append("/.socket.sock");
        s
    }

    /// The commands that ask for the focus on a window of an application,
    /// in the order in which they are tried.
    pub fn focus_commands(app_name: &str) -> (r: Vec<String>)
        ensures
            texts(r@) == hyprland_focus_commands(app_name@),
    {
        let lower = to_lowercase(app_name);
        let mut whole = joined("dispatch focuswindow class:^", lower.as_str());
        whole.append("$");
        let mut out: Vec<String> = Vec::new();
        out.push(joined("dispatch focuswindow class:", app_name));
        out.push(joined("dispatch focuswindow title:", app_name));
        out.push(whole);
        out.push(joined("dispatch focuswindow initialclass:", app_name));
        out
    }

    /// Decides whether a reply says that a command was carried out, from
    /// the reply and what is left of it without the white space at its
    /// ends.
    pub fn reply_verdict(trimmed_reply: &str, reply: &str) -> (r: bool)
        ensures
            r == hyprland_accepted(trimmed_reply@, reply@),
    {
        str_equal(trimmed_reply, "ok") || reply.is_empty()
    }

    /// Whether a reply says that a command was carried out.
    pub fn accepted(reply: &str) -> (r: bool)
        ensures
            r == hyprland_accepted(trimmed(reply@), reply@),
    {
        HyprlandIpc::reply_verdict(trim(reply), reply)
    }

    /// The command that hands arguments to Hyprland's dispatcher.
    pub fn dispatch_command(args: &str) -> (r: String)
        ensures
            r@ == "dispatch "@ + args@,
    {
        joined("dispatch ", args)
    }

    /// The command that asks for the list of windows.
    pub fn windows_command() -> (r: &'static str)
        ensures
            r@ == "j/clients"@,
    {
        "j/clients"
    }

    /// The command that asks for the active window.
    pub fn active_window_command() -> (r: &'static str)
        ensures
            r@ == "j/activewindow"@,
    {
        "j/activewindow"
    }
}

/// The compositors that can be asked for the focus.
#[derive(Debug, Clone, Copy, PartialEq, Eq, Structural)]
pub enum Compositor {
    Hyprland,
    Sway,
}

/// Picks the compositor to talk to.
pub struct CompositorIpc;

impl CompositorIpc {
    /// The compositor that is asked for the focus: Hyprland where it
    /// runs, else Sway where it runs, else none.
    pub fn pick(hyprland_runs: bool, sway_runs: bool) -> (r: Option<Compositor>)
        ensures
            r == (if hyprland_runs {
                Some(Compositor::Hyprland)
            } else if sway_runs {
                Some(Compositor::Sway)
            } else {
                None
            }),
    {
        if hyprland_runs {
            Some(Compositor::Hyprland)
        } else if sway_runs {
            Some(Compositor::Sway)
        } else {
            None
        }
    }

    /// The arguments that ask Sway to focus a window of an application.
    pub fn sway_focus_args(app_name: &str, by_class: bool) -> (r: Vec<String>)
        ensures
            texts(r@) == sway_focus_arguments(app_name@, by_class),
    {
        let mut out: Vec<String> = Vec::new();
        if by_class {
            out.push("[class=".to_string());
        } else {
            out.push("[app_id=".to_string());
        }
        out.push(joined(app_name, "]"));
        out.push("focus".to_string());
        out
    }
}

} // verus!
