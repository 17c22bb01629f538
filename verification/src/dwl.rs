//! The compositor's session glue: when the screen locks, and the keys that
//! drive the volume/brightness overlay.
use vstd::prelude::*;
use crate::strings::str_eq;

verus! {

/// Whether a login1 signal locks the screen: any `Session` signal (only
/// `Lock` is subscribed), or a `PrepareForSleep` that starts sleeping.
/// `prepare_for_sleep` is the decoded `start` argument, when the message
/// decodes as `PrepareForSleep`.
pub open spec fn lock_requested_spec(interface: Option<Seq<char>>, prepare_for_sleep: Option<bool>) -> bool {
    match interface {
        Some(i) => if i == "org.freedesktop.login1.Session"@ {
            true
        } else if i == "org.freedesktop.login1.Manager"@ {
            prepare_for_sleep == Some(true)
        } else {
            false
        },
        None => false,
    }
}

/// Whether a login1 signal locks the screen.
pub fn lock_requested(interface: Option<&str>, prepare_for_sleep: Option<bool>) -> (r: bool)
    ensures
        r == lock_requested_spec(
            match interface {
                Some(i) => Some(i@),
                None => None,
            },
            prepare_for_sleep,
        ),
{
    match interface {
        Some(i) => {
            if str_eq(i, "org.freedesktop.login1.Session") {
                true
            } else if str_eq(i, "org.freedesktop.login1.Manager") {
                match prepare_for_sleep {
                    Some(start) => start,
                    None => false,
                }
            } else {
                false
            }
        },
        None => false,
    }
}

/// A key command that the compositor forwards to the bar.
#[derive(Clone, Copy, Debug, PartialEq, Eq, Structural)]
pub enum WobCommand {
    VolumeUp,
    VolumeDown,
    LightUp,
    LightDown,
    LaunchApp,
    LaunchBrowser,
    Overlay,
    PowerButton,
}

/// The icon shown in the level bar for a key command.
pub open spec fn wob_icon_spec(c: WobCommand) -> char {
    match c {
        WobCommand::VolumeUp | WobCommand::VolumeDown => '\u{f057e}',
        WobCommand::LightUp | WobCommand::LightDown => '\u{f00e0}',
        _ => ' ',
    }
}

impl WobCommand {
    /// The icon shown in the level bar for this command.
    pub fn icon(self) -> (c: char)
        ensures
            c == wob_icon_spec(self),
    {
        match self {
            WobCommand::VolumeUp | WobCommand::VolumeDown => '\u{f057e}',
            WobCommand::LightUp | WobCommand::LightDown => '\u{f00e0}',
            _ => ' ',
        }
    }
}

/// A program and its arguments.
pub struct ProgramCall {
    pub program: String,
    pub args: Vec<String>,
}

/// The programs behind a level key: one that changes the level (if the
/// query does not change it itself), and one whose output is the new level
/// in percent.
pub struct LevelCommands {
    pub adjust: Option<ProgramCall>,
    pub query: ProgramCall,
}

/// The view of a program call: the program and its arguments as texts.
pub open spec fn call_view(c: ProgramCall) -> (Seq<char>, Seq<Seq<char>>) {
    (c.program@, c.args@.map_values(|a: String| a@))
}

/// The programs behind each level key; other keys have none.
pub open spec fn level_commands_spec(c: WobCommand) -> Option<(Option<(Seq<char>, Seq<Seq<char>>)>, (Seq<char>, Seq<Seq<char>>))> {
    match c {
        WobCommand::VolumeUp => Some((None, ("pamixer"@, seq!["-i"@, "5"@, "--get-volume"@]))),
        WobCommand::VolumeDown => Some((None, ("pamixer"@, seq!["-d"@, "5"@, "--get-volume"@]))),
        WobCommand::LightUp => Some((Some(("light"@, seq!["-A"@, "5"@])), ("light"@, seq!["-G"@]))),
        WobCommand::LightDown => Some((Some(("light"@, seq!["-U"@, "5"@])), ("light"@, seq!["-G"@]))),
        _ => None,
    }
}

fn call(program: &str, args: &[&str]) -> (c: ProgramCall)
    ensures
        call_view(c) == (program@, args@.map_values(|a: &str| a@)),
{
    let mut v: Vec<String> = Vec::new();
    let mut i: usize = 0;
    while i < args.len()
        invariant
            i <= args@.len(),
            v@.map_values(|a: String| a@) == args@.take(i as int).map_values(|a: &str| a@),
        decreases args@.len() - i,
    {
        let ghost before = v@.map_values(|a: String| a@);
        let a: &str = args[i];
        let s = a.to_owned();
        v.push(s);
        assert(args@.take(i + 1) =~= args@.take(i as int).push(args@[i as int]));
        assert(v@.map_values(|a: String| a@) =~= before.push(a@));
        assert(v@.map_values(|a: String| a@) =~= args@.take(i + 1).map_values(|a: &str| a@));
        i = i + 1;
    }
    assert(args@.take(args@.len() as int) =~= args@);
    ProgramCall { program: program.to_owned(), args: v }
}

impl WobCommand {
    /// The programs behind a level key, or nothing for other keys.
    pub fn level_commands(self) -> (r: Option<LevelCommands>)
        ensures
            match r {
                Some(l) => level_commands_spec(self) == Some((match l.adjust {
                    Some(a) => Some(call_view(a)),
                    None => None,
                }, call_view(l.query))),
                None => level_commands_spec(self) is None,
            },
    {
        match self {
            WobCommand::VolumeUp => {
                let q = call("pamixer", &["-i", "5", "--get-volume"]);
                assert(seq!["-i", "5", "--get-volume"].map_values(|a: &str| a@) =~= seq!["-i"@, "5"@, "--get-volume"@]);
                Some(LevelCommands { adjust: None, query: q })
            },
            WobCommand::VolumeDown => {
                let q = call("pamixer", &["-d", "5", "--get-volume"]);
                assert(seq!["-d", "5", "--get-volume"].map_values(|a: &str| a@) =~= seq!["-d"@, "5"@, "--get-volume"@]);
                Some(LevelCommands { adjust: None, query: q })
            },
            WobCommand::LightUp => {
                let a = call("light", &["-A", "5"]);
                let q = call("light", &["-G"]);
                assert(seq!["-A", "5"].map_values(|a: &str| a@) =~= seq!["-A"@, "5"@]);
                assert(seq!["-G"].map_values(|a: &str| a@) =~= seq!["-G"@]);
                Some(LevelCommands { adjust: Some(a), query: q })
            },
            WobCommand::LightDown => {
                let a = call("light", &["-U", "5"]);
                let q = call("light", &["-G"]);
                assert(seq!["-U", "5"].map_values(|a: &str| a@) =~= seq!["-U"@, "5"@]);
                assert(seq!["-G"].map_values(|a: &str| a@) =~= seq!["-G"@]);
                Some(LevelCommands { adjust: Some(a), query: q })
            },
            _ => None,
        }
    }
}

impl From<WobCommand> for char {
    /// The icon shown in the level bar for a key command.
    fn from(value: WobCommand) -> (c: char) {
        value.icon()
    }
}

impl vstd::std_specs::convert::FromSpecImpl<WobCommand> for char {
    open spec fn obeys_from_spec() -> bool {
        true
    }

    open spec fn from_spec(v: WobCommand) -> char {
        wob_icon_spec(v)
    }
}

/// What the selected monitor's bar shows.
#[derive(Clone, Copy, Debug, PartialEq, Eq, Structural)]
pub enum BarMode {
    /// Tags and status blocks.
    Normal,
    /// The level bar of a volume or brightness key, with its icon.
    Level { icon: char },
    /// The application launcher or the bookmark picker.
    Launcher,
}

/// The selected monitor's bar: what it shows, and whether it sits in the
/// overlay layer (above full-screen windows) rather than the bottom layer.
#[derive(Clone, Copy, Debug, PartialEq, Eq, Structural)]
pub struct OverlayState {
    pub mode: BarMode,
    pub in_overlay: bool,
}

/// What the bar does with its surface after a key command. Every key
/// command first cancels the timer that hides the level bar.
#[derive(Clone, Copy, Debug, PartialEq, Eq, Structural)]
pub struct KeyEffects {
    /// Move the surface to the overlay layer (it was not there).
    pub raise: bool,
    /// Move the surface back to the bottom layer.
    pub lower: bool,
    /// Take the keyboard exclusively, for a launcher.
    pub grab_keyboard: bool,
    /// Open the information surface.
    pub open_info: bool,
    /// Start the timer that hides the level bar after the configured time.
    pub start_hide_timer: bool,
}

/// Whether a key command shows the level bar.
pub open spec fn is_level_command(c: WobCommand) -> bool {
    c == WobCommand::VolumeUp || c == WobCommand::VolumeDown || c == WobCommand::LightUp
        || c == WobCommand::LightDown
}

/// The bar and the effects after the key command `c` on the bar `s`:
/// level keys show the level bar in the overlay and start its hide timer;
/// the launchers open in the overlay with the keyboard; the overlay key
/// leaves the overlay if the bar was in it and enters it otherwise; the power
/// button opens the information surface. The surface is raised first
/// whenever the bar was not in the overlay.
pub open spec fn key_command_spec(s: OverlayState, c: WobCommand) -> (OverlayState, KeyEffects) {
    let none = KeyEffects {
        raise: !s.in_overlay,
        lower: false,
        grab_keyboard: false,
        open_info: false,
        start_hide_timer: false,
    };
    if is_level_command(c) {
        (
            OverlayState { mode: BarMode::Level { icon: wob_icon_spec(c) }, in_overlay: true },
            KeyEffects { start_hide_timer: true, ..none },
        )
    } else if c == WobCommand::LaunchApp || c == WobCommand::LaunchBrowser {
        (OverlayState { mode: BarMode::Launcher, in_overlay: true }, KeyEffects { grab_keyboard: true, ..none })
    } else if c == WobCommand::Overlay {
        if s.in_overlay {
            (OverlayState { in_overlay: false, ..s }, KeyEffects { lower: true, ..none })
        } else {
            (OverlayState { in_overlay: true, ..s }, none)
        }
    } else {
        (s, KeyEffects { open_info: true, ..none })
    }
}

impl OverlayState {
    /// The normal bar in the bottom layer.
    pub fn new() -> (s: Self)
        ensures
            s.mode == BarMode::Normal,
            !s.in_overlay,
    {
        OverlayState { mode: BarMode::Normal, in_overlay: false }
    }

    /// Takes a key command from the compositor (see `key_command_spec`).
    pub fn key_command(&mut self, c: WobCommand) -> (e: KeyEffects)
        ensures
            (*final(self), e) == key_command_spec(*old(self), c),
    {
        let none = KeyEffects {
            raise: !self.in_overlay,
            lower: false,
            grab_keyboard: false,
            open_info: false,
            start_hide_timer: false,
        };
        match c {
            WobCommand::VolumeUp | WobCommand::VolumeDown | WobCommand::LightUp | WobCommand::LightDown => {
                *self = OverlayState { mode: BarMode::Level { icon: c.icon() }, in_overlay: true };
                KeyEffects { start_hide_timer: true, ..none }
            },
            WobCommand::LaunchApp | WobCommand::LaunchBrowser => {
                *self = OverlayState { mode: BarMode::Launcher, in_overlay: true };
                KeyEffects { grab_keyboard: true, ..none }
            },
            WobCommand::Overlay => {
                if self.in_overlay {
                    self.in_overlay = false;
                    KeyEffects { lower: true, ..none }
                } else {
                    self.in_overlay = true;
                    none
                }
            },
            WobCommand::PowerButton => KeyEffects { open_info: true, ..none },
        }
    }

    /// The level bar's hide timer fired, or the launcher was closed: the
    /// normal bar is shown again, and a bar in the overlay goes back to the
    /// bottom layer. Returns whether it was lowered.
    pub fn back_to_normal(&mut self) -> (lowered: bool)
        ensures
            lowered == old(self).in_overlay,
            final(self).mode == BarMode::Normal,
            !final(self).in_overlay,
    {
        let lowered = self.in_overlay;
        *self = OverlayState { mode: BarMode::Normal, in_overlay: false };
        lowered
    }
}

/// The level keys and their programs: exactly the four level keys have
/// programs. The volume keys ask `pamixer` to raise (`-i`, up) or lower
/// (`-d`, down) the volume and print it, and differ in nothing but that flag;
/// the brightness keys have `light` raise (`-A`, up) or lower (`-U`, down)
/// it, differ in nothing but that flag, and both read it back with `light -G`.
pub proof fn lemma_level_directions(c: WobCommand)
    ensures
        level_commands_spec(c) is Some <==> is_level_command(c),
        ({
            let up = level_commands_spec(WobCommand::VolumeUp);
            let down = level_commands_spec(WobCommand::VolumeDown);
            &&& up matches Some((None, q)) && q.0 == "pamixer"@ && q.1.len() == 3 && q.1[0] == "-i"@
            &&& down matches Some((None, q)) && q.0 == "pamixer"@ && q.1.len() == 3 && q.1[0] == "-d"@
            &&& ((up->0).1).1.drop_first() == ((down->0).1).1.drop_first()
            &&& "-i"@ != "-d"@
        }),
        ({
            let up = level_commands_spec(WobCommand::LightUp);
            let down = level_commands_spec(WobCommand::LightDown);
            &&& up matches Some((Some(a), q)) && a.0 == "light"@ && a.1.len() == 2 && a.1[0] == "-A"@
                && q == ("light"@, seq!["-G"@])
            &&& down matches Some((Some(a), q)) && a.0 == "light"@ && a.1.len() == 2 && a.1[0] == "-U"@
                && q == ("light"@, seq!["-G"@])
            &&& (((up->0).0)->0).1.drop_first() == (((down->0).0)->0).1.drop_first()
            &&& "-A"@ != "-U"@
        }),
{
    reveal_strlit("-i");
    reveal_strlit("-d");
    reveal_strlit("-A");
    reveal_strlit("-U");
    assert("-i"@[1] != "-d"@[1]);
    assert("-A"@[1] != "-U"@[1]);
    assert(seq!["-i"@, "5"@, "--get-volume"@].drop_first() =~= seq!["-d"@, "5"@, "--get-volume"@].drop_first());
    assert(seq!["-A"@, "5"@].drop_first() =~= seq!["-U"@, "5"@].drop_first());
}

} // verus!
