//! The application launcher and the bookmark picker: turning a desktop
//! entry's `Exec` line into a shell command, the key handling, the lines
//! shown, and the bookmark commands.
use vstd::prelude::*;
use crate::strings::{chars_of, string_of, string_pop, string_push_str};
use crate::dwl::WobCommand;

verus! {

/// Position of the first `c` in `s`, or -1.
pub open spec fn first_index(s: Seq<char>, c: char) -> int
    decreases s.len(),
{
    if s.len() == 0 {
        -1
    } else if s[0] == c {
        0
    } else {
        let r = first_index(s.drop_first(), c);
        if r < 0 {
            -1
        } else {
            r + 1
        }
    }
}

/// An `Exec` line with its field codes (`%f`, `%U`, ...) taken out: the first
/// `%` is removed together with the character after it; a `%` at the very end
/// is removed together with the character before it; repeat until no `%` is
/// left.
pub open spec fn strip_field_codes_spec(s: Seq<char>) -> Seq<char>
    decreases s.len(),
{
    let p = first_index(s, '%');
    if p < 0 || p >= s.len() {
        s
    } else if p + 1 == s.len() {
        if s.len() >= 2 {
            strip_field_codes_spec(s.subrange(0, s.len() - 2))
        } else {
            Seq::empty()
        }
    } else {
        strip_field_codes_spec(s.subrange(0, p) + s.subrange(p + 2, s.len() as int))
    }
}

pub proof fn lemma_first_index(s: Seq<char>, c: char)
    ensures
        -1 <= first_index(s, c) < s.len(),
        first_index(s, c) >= 0 ==> s[first_index(s, c)] == c,
        forall|j: int| 0 <= j < s.len() && (first_index(s, c) < 0 || j < first_index(s, c))
            ==> s[j] != c,
    decreases s.len(),
{
    if s.len() > 0 {
        lemma_first_index(s.drop_first(), c);
        assert forall|j: int| 0 <= j < s.len() && (first_index(s, c) < 0 || j < first_index(s, c))
            implies s[j] != c by {
            if j > 0 {
                assert(s[j] == s.drop_first()[j - 1]);
            }
        }
    }
}

/// Whatever the `Exec` line, the command that comes out holds no `%`.
pub proof fn lemma_stripped_has_no_percent(s: Seq<char>)
    ensures
        !strip_field_codes_spec(s).contains('%'),
    decreases s.len(),
{
    lemma_first_index(s, '%');
    let p = first_index(s, '%');
    if p < 0 || p >= s.len() {
        assert forall|j: int| 0 <= j < s.len() implies s[j] != '%' by {}
    } else if p + 1 == s.len() {
        if s.len() >= 2 {
            lemma_stripped_has_no_percent(s.subrange(0, s.len() - 2));
        }
    } else {
        lemma_stripped_has_no_percent(s.subrange(0, p) + s.subrange(p + 2, s.len() as int));
    }
}

/// A command with no `%` in it is left as it is, so stripping twice strips
/// nothing more than stripping once.
pub proof fn lemma_strip_idempotent(s: Seq<char>)
    ensures
        strip_field_codes_spec(strip_field_codes_spec(s)) == strip_field_codes_spec(s),
{
    let t = strip_field_codes_spec(s);
    lemma_stripped_has_no_percent(s);
    lemma_first_index(t, '%');
    if first_index(t, '%') >= 0 {
        assert(t[first_index(t, '%')] == '%');
        assert(t.contains('%'));
    }
}

fn find_percent(v: &Vec<char>) -> (r: Option<usize>)
    ensures
        match r {
            Some(p) => p == first_index(v@, '%') && p < v@.len(),
            None => first_index(v@, '%') < 0,
        },
{
    proof {
        lemma_first_index(v@, '%');
    }
    let mut i: usize = 0;
    while i < v.len()
        invariant
            i <= v.len(),
            forall|j: int| 0 <= j < i ==> v@[j] != '%',
            -1 <= first_index(v@, '%') < v@.len(),
            first_index(v@, '%') >= 0 ==> v@[first_index(v@, '%')] == '%',
            forall|j: int| 0 <= j < v@.len() && (first_index(v@, '%') < 0 || j < first_index(v@, '%'))
                ==> v@[j] != '%',
        decreases v.len() - i,
    {
        if v[i] == '%' {
            return Some(i);
        }
        i = i + 1;
    }
    None
}

/// The shell command for a desktop entry's `Exec` line, with field codes removed.
pub fn strip_field_codes(exec: &str) -> (command: String)
    ensures
        command@ == strip_field_codes_spec(exec@),
{
    let mut cmd = chars_of(exec);
    loop
        invariant
            strip_field_codes_spec(cmd@) == strip_field_codes_spec(exec@),
        ensures
            cmd@ == strip_field_codes_spec(exec@),
        decreases cmd.len(),
    {
        let found = find_percent(&cmd);
        let index = match found {
            Some(index) => index,
            None => {
                break;
            },
        };
        let ghost before = cmd@;
        if index + 1 == cmd.len() {
            cmd.pop();
            cmd.pop();
            proof {
                if before.len() >= 2 {
                    assert(cmd@ =~= before.subrange(0, before.len() - 2));
                } else {
                    assert(cmd@ =~= Seq::<char>::empty());
                }
            }
        } else {
            cmd.remove(index + 1);
            cmd.remove(index);
            assert(cmd@ =~= before.subrange(0, index as int) + before.subrange(
                index + 2,
                before.len() as int,
            ));
        }
    }
    string_of(&cmd)
}

/// A launcher entry: what is shown, and the shell command it runs.
pub struct DesktopCommand {
    pub name: String,
    pub command: String,
}

impl DesktopCommand {
    /// The entry for a desktop file with the given name and `Exec` line.
    pub fn from_entry(name: &str, exec: &str) -> (d: Self)
        ensures
            d.name@ == name@,
            d.command@ == strip_field_codes_spec(exec@),
    {
        DesktopCommand { name: name.to_owned(), command: strip_field_codes(exec) }
    }

    /// The text matched against the user's query.
    pub fn as_str(&self) -> (r: &str)
        ensures
            r@ == self.name@,
    {
        self.name.as_str()
    }
}

/// A key that the application launcher reacts to.
#[derive(Clone, Copy, Debug, PartialEq, Eq, Structural)]
pub enum LauncherKey {
    Escape,
    BackSpace,
    Down,
    Right,
    Up,
    Left,
    Return,
    /// Any other key, typing its text (if it has one).
    Other,
}

/// What the bar does after a key press in the launcher.
#[derive(Debug, PartialEq, Eq)]
pub enum LauncherAction {
    /// Close the launcher without running anything.
    Close,
    /// Lay the launcher out again (the input or the selection changed).
    Relayout,
    /// Run this shell command and close the launcher.
    Run(String),
    /// Nothing changed.
    Nothing,
}

/// The application launcher (or the browser's bookmark picker): the typed
/// query, the highlighted match, and the command prefix used when no match
/// is highlighted.
pub struct Launcher {
    pub current_input: String,
    pub default: String,
    pub selected: usize,
    pub prompt: String,
}

impl Launcher {
    /// An empty launcher with the given prompt and fallback command prefix.
    pub fn new(prompt: &str, default: &str) -> (l: Self)
        ensures
            l.current_input@.len() == 0,
            l.default@ == default@,
            l.selected == 0,
            l.prompt@ == prompt@,
    {
        Launcher {
            current_input: String::new(),
            default: default.to_owned(),
            selected: 0,
            prompt: prompt.to_owned(),
        }
    }

    /// Handles a key press; `text` is what the key types and `matches` are the
    /// commands of the entries matching the query, best first. Moving up from
    /// the first entry is not allowed.
    pub fn press_key(&mut self, key: LauncherKey, text: Option<&str>, matches: &Vec<String>) -> (a: LauncherAction)
        requires
            (key == LauncherKey::Up || key == LauncherKey::Left) ==> old(self).selected > 0,
            (key == LauncherKey::Down || key == LauncherKey::Right) ==> old(self).selected < usize::MAX,
        ensures
            final(self).default == old(self).default,
            final(self).prompt == old(self).prompt,
            key == LauncherKey::Escape ==> a == LauncherAction::Close && final(self).current_input == old(self).current_input
                && final(self).selected == old(self).selected,
            key == LauncherKey::BackSpace ==> a == LauncherAction::Relayout
                && final(self).selected == old(self).selected
                && (old(self).current_input@.len() > 0 ==> final(self).current_input@ == old(self).current_input@.drop_last())
                && (old(self).current_input@.len() == 0 ==> final(self).current_input@.len() == 0),
            (key == LauncherKey::Down || key == LauncherKey::Right) ==> a == LauncherAction::Relayout
                && final(self).selected == old(self).selected + 1 && final(self).current_input == old(self).current_input,
            (key == LauncherKey::Up || key == LauncherKey::Left) ==> a == LauncherAction::Relayout
                && final(self).selected == old(self).selected - 1 && final(self).current_input == old(self).current_input,
            key == LauncherKey::Return ==> final(self).current_input == old(self).current_input
                && final(self).selected == old(self).selected
                && (a matches LauncherAction::Run(c) && (if old(self).selected < matches@.len() {
                    c@ == matches@[old(self).selected as int]@
                } else {
                    c@ == old(self).default@ + old(self).current_input@
                })),
            key == LauncherKey::Other ==> final(self).selected == old(self).selected && match text {
                Some(t) => a == LauncherAction::Relayout && final(self).current_input@ == old(self).current_input@ + t@,
                None => a == LauncherAction::Nothing && final(self).current_input == old(self).current_input,
            },
    {
        match key {
            LauncherKey::Escape => LauncherAction::Close,
            LauncherKey::BackSpace => {
                string_pop(&mut self.current_input);
                LauncherAction::Relayout
            },
            LauncherKey::Down | LauncherKey::Right => {
                self.selected = self.selected + 1;
                LauncherAction::Relayout
            },
            LauncherKey::Up | LauncherKey::Left => {
                self.selected = self.selected - 1;
                LauncherAction::Relayout
            },
            LauncherKey::Return => {
                if self.selected < matches.len() {
                    LauncherAction::Run(matches[self.selected].clone())
                } else {
                    let mut c = self.default.clone();
                    string_push_str(&mut c, self.current_input.as_str());
                    LauncherAction::Run(c)
                }
            },
            LauncherKey::Other => {
                match text {
                    Some(t) => {
                        string_push_str(&mut self.current_input, t);
                        LauncherAction::Relayout
                    },
                    None => LauncherAction::Nothing,
                }
            },
        }
    }

    /// The launcher's input line: the prompt, a colon and a space, then the
    /// typed query.
    pub fn prompt_line(&self) -> (r: String)
        ensures
            r@ == self.prompt@ + ": "@ + self.current_input@,
    {
        let mut r = self.prompt.clone();
        string_push_str(&mut r, ": ");
        string_push_str(&mut r, self.current_input.as_str());
        r
    }

    /// The entries shown after the input line: the names of the first 15
    /// matches (best first), each with whether it is the highlighted one.
    pub fn shown_entries(&self, names: &Vec<String>) -> (r: Vec<(String, bool)>)
        ensures
            r@.len() == if names@.len() < 15 { names@.len() } else { 15 },
            forall|i: int| 0 <= i < r@.len() ==> (#[trigger] r@[i]).0@ == names@[i]@,
            forall|i: int| 0 <= i < r@.len() ==> (#[trigger] r@[i]).1 == (i == self.selected),
    {
        let n: usize = if names.len() < 15 { names.len() } else { 15 };
        let mut r: Vec<(String, bool)> = Vec::new();
        let mut i: usize = 0;
        while i < n
            invariant
                i <= n,
                n <= names@.len(),
                r@.len() == i,
                forall|j: int| 0 <= j < i ==> (#[trigger] r@[j]).0@ == names@[j]@,
                forall|j: int| 0 <= j < i ==> (#[trigger] r@[j]).1 == (j == self.selected),
            decreases n - i,
        {
            r.push((names[i].clone(), i == self.selected));
            i = i + 1;
        }
        r
    }
}

/// The launcher that a key command opens: the application launcher (prompt
/// `run`, no fallback prefix) or the bookmark picker (prompt `browser`, the
/// browser command as fallback prefix); other commands open none.
pub fn launcher_for(command: WobCommand, browser: &str) -> (l: Option<Launcher>)
    ensures
        command == WobCommand::LaunchApp ==> (l matches Some(x) && x.prompt@ == "run"@ && x.default@.len() == 0
            && x.current_input@.len() == 0 && x.selected == 0),
        command == WobCommand::LaunchBrowser ==> (l matches Some(x) && x.prompt@ == "browser"@ && x.default@
            == browser@ && x.current_input@.len() == 0 && x.selected == 0),
        command != WobCommand::LaunchApp && command != WobCommand::LaunchBrowser ==> l is None,
{
    match command {
        WobCommand::LaunchApp => {
            proof {
                reveal_strlit("");
            }
            Some(Launcher::new("run", ""))
        },
        WobCommand::LaunchBrowser => Some(Launcher::new("browser", browser)),
        _ => None,
    }
}

/// The shell command that prints the URI of the browser profile's bookmark
/// database (opened read-only), for a profile directory under the home
/// directory.
pub fn places_uri_command(browser_path: &str) -> (r: String)
    ensures
        r@ == "echo file:$(realpath ~/"@ + browser_path@ + "/*.default-release/places.sqlite)?immutable=true"@,
{
    let mut r = String::new();
    string_push_str(&mut r, "echo file:$(realpath ~/");
    string_push_str(&mut r, browser_path);
    string_push_str(&mut r, "/*.default-release/places.sqlite)?immutable=true");
    assert(r@ =~= "echo file:$(realpath ~/"@ + browser_path@ + "/*.default-release/places.sqlite)?immutable=true"@);
    r
}

/// The bookmark picker's entry for a bookmark: its title, and the browser
/// command (the browser setting with its trailing space) followed by the URL.
pub fn bookmark_entry(title: &str, browser: &str, url: &str) -> (d: DesktopCommand)
    ensures
        d.name@ == title@,
        d.command@ == browser@ + url@,
{
    let mut command = browser.to_owned();
    string_push_str(&mut command, url);
    DesktopCommand { name: title.to_owned(), command }
}

} // verus!
