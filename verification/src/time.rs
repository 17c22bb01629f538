//! The clock block: its settings, its icons, and the command that sets the
//! clock from network time servers; and the brightness block's text.
use vstd::prelude::*;
use rand::seq::SliceRandom;
use crate::strings::{decimal, decimal_spec, string_pop, string_push_str};

verus! {

/// The clock icon for an hour of the day (the dial repeats every 12 hours).
pub open spec fn clock_icon_spec(hour: u32) -> Seq<char> {
    if hour == 0 { "\u{f144a} "@ }
    else if hour == 1 { "\u{f143f} "@ }
    else if hour == 2 { "\u{f1440} "@ }
    else if hour == 3 { "\u{f1441} "@ }
    else if hour == 4 { "\u{f1442} "@ }
    else if hour == 5 { "\u{f1443} "@ }
    else if hour == 6 { "\u{f1444} "@ }
    else if hour == 7 { "\u{f1445} "@ }
    else if hour == 8 { "\u{f1446} "@ }
    else if hour == 9 { "\u{f1447} "@ }
    else if hour == 10 { "\u{f1448} "@ }
    else if hour == 11 { "\u{f1449} "@ }
    else if hour == 12 { "\u{f144a} "@ }
    else if hour == 13 { "\u{f143f} "@ }
    else if hour == 14 { "\u{f1440} "@ }
    else if hour == 15 { "\u{f1441} "@ }
    else if hour == 16 { "\u{f1442} "@ }
    else if hour == 17 { "\u{f1443} "@ }
    else if hour == 18 { "\u{f1444} "@ }
    else if hour == 19 { "\u{f1445} "@ }
    else if hour == 20 { "\u{f1446} "@ }
    else if hour == 21 { "\u{f1447} "@ }
    else if hour == 22 { "\u{f1448} "@ }
    else { "\u{f1449} "@ }
}

/// The clock icon for an hour of the day.
pub fn clock_icon(hour: u32) -> (r: &'static str)
    requires
        hour < 24,
    ensures
        r@ == clock_icon_spec(hour),
{
    match hour {
        0 => "\u{f144a} ",
        1 => "\u{f143f} ",
        2 => "\u{f1440} ",
        3 => "\u{f1441} ",
        4 => "\u{f1442} ",
        5 => "\u{f1443} ",
        6 => "\u{f1444} ",
        7 => "\u{f1445} ",
        8 => "\u{f1446} ",
        9 => "\u{f1447} ",
        10 => "\u{f1448} ",
        11 => "\u{f1449} ",
        12 => "\u{f144a} ",
        13 => "\u{f143f} ",
        14 => "\u{f1440} ",
        15 => "\u{f1441} ",
        16 => "\u{f1442} ",
        17 => "\u{f1443} ",
        18 => "\u{f1444} ",
        19 => "\u{f1445} ",
        20 => "\u{f1446} ",
        21 => "\u{f1447} ",
        22 => "\u{f1448} ",
        _ => "\u{f1449} ",
    }
}

/// The default time servers, in their configured order.
pub open spec fn ntp_server_list() -> Seq<Seq<char>> {
    seq![
        "time-a-g.nist.gov"@,
        "time-b-g.nist.gov"@,
        "time-c-g.nist.gov"@,
        "time-d-g.nist.gov"@,
        "time-e-g.nist.gov"@,
        "time-a-wwv.nist.gov"@,
        "time-b-wwv.nist.gov"@,
        "time-c-wwv.nist.gov"@,
        "time-d-wwv.nist.gov"@,
        "time-e-wwv.nist.gov"@,
        "time-a-b.nist.gov"@,
        "time-b-b.nist.gov"@,
        "time-c-b.nist.gov"@,
        "time-d-b.nist.gov"@,
        "time-e-b.nist.gov"@,
        "utcnist.colorado.edu"@,
        "utcnist2.colorado.edu"@,
        "utcnist3.colorado.edu"@,
    ]
}

/// The default time servers.
pub fn ntp_servers() -> (v: Vec<String>)
    ensures
        v@.map_values(|s: String| s@) == ntp_server_list(),
{
    let mut v: Vec<String> = Vec::new();
    v.push("time-a-g.nist.gov".to_owned());
    v.push("time-b-g.nist.gov".to_owned());
    v.push("time-c-g.nist.gov".to_owned());
    v.push("time-d-g.nist.gov".to_owned());
    v.push("time-e-g.nist.gov".to_owned());
    v.push("time-a-wwv.nist.gov".to_owned());
    v.push("time-b-wwv.nist.gov".to_owned());
    v.push("time-c-wwv.nist.gov".to_owned());
    v.push("time-d-wwv.nist.gov".to_owned());
    v.push("time-e-wwv.nist.gov".to_owned());
    v.push("time-a-b.nist.gov".to_owned());
    v.push("time-b-b.nist.gov".to_owned());
    v.push("time-c-b.nist.gov".to_owned());
    v.push("time-d-b.nist.gov".to_owned());
    v.push("time-e-b.nist.gov".to_owned());
    v.push("utcnist.colorado.edu".to_owned());
    v.push("utcnist2.colorado.edu".to_owned());
    v.push("utcnist3.colorado.edu".to_owned());
    assert(v@.map_values(|s: String| s@) =~= ntp_server_list());
    v
}

/// Puts the servers in a random order (`SliceRandom::shuffle` with the
/// operating system's random source); the same servers come back, each as
/// often as before.
#[verifier::external_body]
pub(crate) fn shuffle(v: &mut Vec<String>)
    ensures
        final(v)@.to_multiset() == old(v)@.to_multiset(),
{
    v.shuffle(&mut rand::rngs::OsRng)
}

/// The servers, each followed by a space.
pub open spec fn spaced(servers: Seq<Seq<char>>) -> Seq<char>
    decreases servers.len(),
{
    if servers.len() == 0 {
        Seq::empty()
    } else {
        spaced(servers.drop_last()) + servers.last() + seq![' ']
    }
}

/// The shell command that sets the clock from `servers`, asked in that order.
pub open spec fn ntp_command(servers: Seq<Seq<char>>) -> Seq<char> {
    ("doas ntpdate "@ + spaced(servers)).drop_last() + "; doas hwclock -w"@
}

/// The clock block's settings and state.
pub struct TimeBlock {
    pub is_time_updated: bool,
    pub update_time_ntp: bool,
    pub time_servers: Vec<String>,
    pub time_fmt: String,
    pub date_fmt: String,
}

impl TimeBlock {
    /// A clock block that has not set the clock yet.
    pub fn new(update_time_ntp: bool, time_servers: Vec<String>, time_fmt: String, date_fmt: String) -> (t: Self)
        ensures
            !t.is_time_updated,
            t.update_time_ntp == update_time_ntp,
            t.time_servers == time_servers,
            t.time_fmt == time_fmt,
            t.date_fmt == date_fmt,
    {
        TimeBlock { is_time_updated: false, update_time_ntp, time_servers, time_fmt, date_fmt }
    }

    /// Marks the clock as set, shuffles the servers, and returns the shell
    /// command that sets the clock from them in their new order.
    pub fn update_time(&mut self) -> (command: String)
        ensures
            final(self).is_time_updated,
            final(self).update_time_ntp == old(self).update_time_ntp,
            final(self).time_fmt == old(self).time_fmt,
            final(self).date_fmt == old(self).date_fmt,
            final(self).time_servers@.to_multiset() == old(self).time_servers@.to_multiset(),
            command@ == ntp_command(final(self).time_servers@.map_values(|s: String| s@)),
    {
        self.is_time_updated = true;
        shuffle(&mut self.time_servers);
        let mut args = String::new();
        string_push_str(&mut args, "doas ntpdate ");
        let ghost servers = self.time_servers@.map_values(|s: String| s@);
        let mut i: usize = 0;
        while i < self.time_servers.len()
            invariant
                i <= self.time_servers.len(),
                servers == self.time_servers@.map_values(|s: String| s@),
                args@ == "doas ntpdate "@ + spaced(servers.take(i as int)),
            decreases self.time_servers.len() - i,
        {
            string_push_str(&mut args, self.time_servers[i].as_str());
            string_push_str(&mut args, " ");
            proof {
                reveal_strlit(" ");
                assert(servers.take(i + 1).drop_last() =~= servers.take(i as int));
            }
            i = i + 1;
        }
        assert(servers.take(servers.len() as int) =~= servers);
        string_pop(&mut args);
        proof {
            reveal_strlit("doas ntpdate ");
        }
        string_push_str(&mut args, "; doas hwclock -w");
        args
    }
}

/// How long until the next full minute, in seconds, at `second` past a minute;
/// the clock block first ticks then, and every minute after.
pub fn seconds_to_next_minute(second: u32) -> (r: u64)
    requires
        second < 60,
    ensures
        r == 60 - second,
        1 <= r <= 60,
{
    60 - second as u64
}

/// The brightness icon for a brightness percentage.
pub open spec fn brightness_icon_spec(b: usize) -> Seq<char> {
    if b <= 15 { "\u{f00da} "@ }
    else if b <= 31 { "\u{f00db} "@ }
    else if b <= 47 { "\u{f00dc} "@ }
    else if b <= 63 { "\u{f00dd} "@ }
    else if b <= 79 { "\u{f00de} "@ }
    else if b <= 95 { "\u{f00df} "@ }
    else { "\u{f00e0} "@ }
}

/// The brightness icon for a brightness percentage.
pub fn brightness_icon(b: usize) -> (r: &'static str)
    ensures
        r@ == brightness_icon_spec(b),
{
    if b <= 15 { "\u{f00da} " }
    else if b <= 31 { "\u{f00db} " }
    else if b <= 47 { "\u{f00dc} " }
    else if b <= 63 { "\u{f00dd} " }
    else if b <= 79 { "\u{f00de} " }
    else if b <= 95 { "\u{f00df} " }
    else { "\u{f00e0} " }
}

/// Appends the brightness block's text: a space, the icon, the percentage
/// and `"% "`.
pub fn fmt_brightness(brightness: usize, f: &mut String)
    ensures
        final(f)@ == old(f)@ + seq![' '] + brightness_icon_spec(brightness) + decimal_spec(
            brightness as nat,
        ) + seq!['%', ' '],
{
    string_push_str(f, " ");
    string_push_str(f, brightness_icon(brightness));
    let n = decimal(brightness as u64);
    string_push_str(f, n.as_str());
    string_push_str(f, "% ");
    proof {
        reveal_strlit(" ");
        reveal_strlit("% ");
    }
}

} // verus!
