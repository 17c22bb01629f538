//! The greeter's power menu: which command shuts down or reboots.
use vstd::prelude::*;
use crate::desktop::first_index;
use crate::strings::{chars_of, string_of};

verus! {

/// A power action.
#[derive(Clone, Copy, Debug, PartialEq, Eq, Hash, Structural)]
pub enum PowerOption {
    Shutdown,
    Reboot,
}

/// `s` split at every space (empty pieces included; an empty text is one
/// empty piece).
pub open spec fn split_spaces(s: Seq<char>) -> Seq<Seq<char>>
    decreases s.len(),
{
    let p = first_index(s, ' ');
    if p < 0 || p >= s.len() {
        seq![s]
    } else {
        seq![s.subrange(0, p)] + split_spaces(s.subrange(p + 1, s.len() as int))
    }
}

/// A program and its arguments.
pub struct PowerCommand {
    pub program: String,
    pub args: Vec<String>,
}

/// The program and arguments that carry out `option`: the configured command
/// line (split at spaces, run under `setsid` if asked), or `shutdown -h now`
/// / `shutdown -r now` when none is configured.
pub open spec fn power_command_spec(option: PowerOption, configured: Option<Seq<char>>, setsid: bool) -> (Seq<char>, Seq<Seq<char>>) {
    match configured {
        None => ("shutdown"@, seq![if option == PowerOption::Shutdown { "-h"@ } else { "-r"@ }, "now"@]),
        Some(line) => {
            let parts = split_spaces(line);
            if setsid {
                ("setsid"@, parts)
            } else {
                (parts[0], parts.drop_first())
            }
        },
    }
}

/// The pieces of `s` split at every space.
pub fn split_at_spaces(s: &str) -> (r: Vec<String>)
    ensures
        r@.map_values(|p: String| p@) == split_spaces(s@),
        r@.len() >= 1,
{
    let v = chars_of(s);
    let mut parts: Vec<String> = Vec::new();
    let mut piece: Vec<char> = Vec::new();
    let mut i: usize = 0;
    let mut start: usize = 0;
    assert(v@.subrange(0, v@.len() as int) =~= v@);
    while i < v.len()
        invariant
            start <= i <= v.len(),
            piece@ == v@.subrange(start as int, i as int),
            forall|j: int| start <= j < i ==> v@[j] != ' ',
            parts@.map_values(|p: String| p@) + split_spaces(v@.subrange(start as int, v@.len() as int))
                == split_spaces(v@),
        decreases v.len() - i,
    {
        if v[i] == ' ' {
            let ghost rest = v@.subrange(start as int, v@.len() as int);
            proof {
                crate::desktop::lemma_first_index(rest, ' ');
                assert forall|j: int| 0 <= j < i - start implies rest[j] != ' ' by {
                    assert(rest[j] == v@[start + j]);
                }
                assert(rest[i - start] == ' ');
                assert(first_index(rest, ' ') == i - start);
                assert(rest.subrange(0, i - start) =~= piece@);
                assert(rest.subrange(i - start + 1, rest.len() as int) =~= v@.subrange(
                    i + 1,
                    v@.len() as int,
                ));
            }
            let ghost old_parts = parts@.map_values(|p: String| p@);
            parts.push(string_of(&piece));
            assert(parts@.map_values(|p: String| p@) =~= old_parts.push(piece@));
            piece = Vec::new();
            start = i + 1;
            assert(piece@ =~= v@.subrange(start as int, start as int));
        } else {
            piece.push(v[i]);
        }
        i = i + 1;
    }
    let ghost rest = v@.subrange(start as int, v@.len() as int);
    proof {
        crate::desktop::lemma_first_index(rest, ' ');
        assert forall|j: int| 0 <= j < rest.len() implies rest[j] != ' ' by {
            assert(rest[j] == v@[start + j]);
        }
        assert(first_index(rest, ' ') < 0);
        assert(rest =~= piece@);
    }
    let ghost old_parts = parts@.map_values(|p: String| p@);
    parts.push(string_of(&piece));
    assert(parts@.map_values(|p: String| p@) =~= old_parts.push(piece@));
    assert(old_parts.push(piece@) =~= old_parts + seq![piece@]);
    parts
}

/// The command that carries out `option`, given the command line configured
/// for it (if any) and whether configured commands run under `setsid`.
pub fn power(option: PowerOption, configured: Option<&str>, setsid: bool) -> (c: PowerCommand)
    ensures
        (c.program@, c.args@.map_values(|p: String| p@)) == power_command_spec(
            option,
            match configured {
                Some(s) => Some(s@),
                None => None,
            },
            setsid,
        ),
{
    match configured {
        None => {
            let mut args: Vec<String> = Vec::new();
            match option {
                PowerOption::Shutdown => args.push("-h".to_owned()),
                PowerOption::Reboot => args.push("-r".to_owned()),
            }
            args.push("now".to_owned());
            let c = PowerCommand { program: "shutdown".to_owned(), args };
            assert(c.args@.map_values(|p: String| p@) =~= seq![
                if option == PowerOption::Shutdown { "-h"@ } else { "-r"@ },
                "now"@,
            ]);
            c
        },
        Some(line) => {
            let parts = split_at_spaces(line);
            if setsid {
                PowerCommand { program: "setsid".to_owned(), args: parts }
            } else {
                let ghost pv = parts@.map_values(|p: String| p@);
                let mut parts = parts;
                let program = parts.remove(0);
                assert(parts@.map_values(|p: String| p@) =~= pv.drop_first());
                PowerCommand { program, args: parts }
            }
        },
    }
}

/// Without a configured command, shutting down runs `shutdown -h now` and
/// rebooting runs `shutdown -r now`, whether or not `setsid` is asked for.
pub proof fn lemma_default_power_command(option: PowerOption, setsid: bool)
    ensures
        power_command_spec(option, None, setsid) == power_command_spec(option, None, !setsid),
        power_command_spec(option, None, setsid).0 == "shutdown"@,
        power_command_spec(option, None, setsid).1.len() == 2,
        power_command_spec(option, None, setsid).1[0] == "-h"@ <==> option == PowerOption::Shutdown,
        power_command_spec(option, None, setsid).1[0] == "-r"@ <==> option == PowerOption::Reboot,
        power_command_spec(option, None, setsid).1[1] == "now"@,
{
    reveal_strlit("-h");
    reveal_strlit("-r");
    assert("-h"@[1] != "-r"@[1]);
}

} // verus!
