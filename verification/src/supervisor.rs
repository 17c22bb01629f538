//! The session supervisors: the user-service runner (s6) and the browser
//! profile syncer decide what to do on a signal or a readiness notice; the
//! runner's environment, the scanner's command line, and the interest its
//! D-Bus watch is polled for.
use vstd::prelude::*;
use crate::strings::{decimal, decimal_spec};

verus! {

/// What the supervisor does next.
#[derive(Clone, Copy, Debug, PartialEq, Eq, Structural)]
pub enum SupervisorAction {
    /// Keep waiting.
    Continue,
    /// Send `SIGTERM` to the supervised program, wait for it, and exit.
    StopChildAndExit,
    /// The supervised program is gone: exit.
    Exit,
}

/// Whether a signal asks to terminate (`SIGTERM` or `SIGINT`).
pub open spec fn is_termination_spec(signo: u32) -> bool {
    signo == 15 || signo == 2
}

/// Whether a signal asks to terminate (`SIGTERM` or `SIGINT`).
pub fn is_termination(signo: u32) -> (r: bool)
    ensures
        r == is_termination_spec(signo),
{
    signo == 15 || signo == 2
}

/// What the service runner does on a signal from `sender` while supervising
/// the process `child`: terminate on `SIGTERM`/`SIGINT`, exit when its child
/// is the one that changed state (`SIGCHLD`), ignore anything else.
pub open spec fn on_signal_spec(signo: u32, sender: i32, child: i32) -> SupervisorAction {
    if is_termination_spec(signo) {
        SupervisorAction::StopChildAndExit
    } else if signo == 17 && sender == child {
        SupervisorAction::Exit
    } else {
        SupervisorAction::Continue
    }
}

/// What the service runner does on a signal.
pub fn on_signal(signo: u32, sender: i32, child: i32) -> (r: SupervisorAction)
    ensures
        r == on_signal_spec(signo, sender, child),
{
    if is_termination(signo) {
        SupervisorAction::StopChildAndExit
    } else if signo == 17 && sender == child {
        SupervisorAction::Exit
    } else {
        SupervisorAction::Continue
    }
}

/// Whether the service scanner's readiness notice has arrived: the bytes read
/// from its notification pipe hold a newline.
pub fn scanner_ready(buf: &[u8]) -> (r: bool)
    ensures
        r == buf@.contains(10u8),
{
    let mut i: usize = 0;
    while i < buf.len()
        invariant
            i <= buf@.len(),
            forall|j: int| 0 <= j < i ==> buf@[j] != 10u8,
        decreases buf@.len() - i,
    {
        if buf[i] == 10u8 {
            return true;
        }
        i = i + 1;
    }
    false
}

/// The interest to poll a D-Bus watch descriptor for, given whether the
/// watch wants reading and writing.
#[derive(Clone, Copy, Debug, PartialEq, Eq, Structural)]
pub enum PollInterest {
    Readable,
    Writable,
    All,
    Nothing,
}

/// The interest to poll a D-Bus watch for.
pub fn watch_interest(read: bool, write: bool) -> (r: PollInterest)
    ensures
        r == (if read && write {
            PollInterest::All
        } else if read {
            PollInterest::Readable
        } else if write {
            PollInterest::Writable
        } else {
            PollInterest::Nothing
        }),
{
    match (read, write) {
        (true, false) => PollInterest::Readable,
        (false, true) => PollInterest::Writable,
        (true, true) => PollInterest::All,
        (false, false) => PollInterest::Nothing,
    }
}

/// The environment the service runner sets before starting the scanner:
/// `!` is its own process id, and a Wayland session also gets the display
/// names, the session type and the desktop name.
pub open spec fn session_environment_spec(pid: u32, wayland_session: bool) -> Seq<(Seq<char>, Seq<char>)> {
    seq![("!"@, decimal_spec(pid as nat))] + if wayland_session {
        seq![
            ("WAYLAND_DISPLAY"@, "wayland-0"@),
            ("DISPLAY"@, ":0"@),
            ("XDG_SESSION_TYPE"@, "wayland"@),
            ("XDG_CURRENT_DESKTOP"@, "dwl"@),
        ]
    } else {
        Seq::empty()
    }
}

fn pair(k: &str, v: &str) -> (p: (String, String))
    ensures
        p.0@ == k@,
        p.1@ == v@,
{
    (k.to_owned(), v.to_owned())
}

/// The variables to set, in order, as `(name, value)`.
pub fn session_environment(pid: u32, wayland_session: bool) -> (env: Vec<(String, String)>)
    ensures
        env@.map_values(|p: (String, String)| (p.0@, p.1@)) == session_environment_spec(pid, wayland_session),
{
    let mut env: Vec<(String, String)> = Vec::new();
    env.push(("!".to_owned(), decimal(pid as u64)));
    if wayland_session {
        env.push(pair("WAYLAND_DISPLAY", "wayland-0"));
        env.push(pair("DISPLAY", ":0"));
        env.push(pair("XDG_SESSION_TYPE", "wayland"));
        env.push(pair("XDG_CURRENT_DESKTOP", "dwl"));
    }
    assert(env@.map_values(|p: (String, String)| (p.0@, p.1@)) =~= session_environment_spec(pid, wayland_session));
    env
}

/// The scanner's command line: `s6-svscan -d <fd> <service dir>`, where `fd`
/// is the pipe it writes its readiness notice to.
pub fn svscan_argv(notify_fd: u32, service_dir: &str) -> (argv: Vec<String>)
    ensures
        argv@.map_values(|s: String| s@) == seq!["s6-svscan"@, "-d"@, decimal_spec(notify_fd as nat), service_dir@],
{
    let mut argv: Vec<String> = Vec::new();
    argv.push("s6-svscan".to_owned());
    argv.push("-d".to_owned());
    argv.push(decimal(notify_fd as u64));
    argv.push(service_dir.to_owned());
    assert(argv@.map_values(|s: String| s@) =~= seq!["s6-svscan"@, "-d"@, decimal_spec(notify_fd as nat), service_dir@]);
    argv
}

} // verus!
