//! The network block: ConnMan's connection state and the connected service.
use vstd::prelude::*;
use crate::strings::{str_eq, string_push_str};
use crate::time::{ntp_command, TimeBlock};

verus! {

/// ConnMan's global connection state.
#[derive(Clone, Copy, Debug, PartialEq, Eq, Structural)]
pub enum ConnmanState {
    Offline,
    Idle,
    Ready,
    Online,
}

/// The state that ConnMan's `State` property names; anything unknown is offline.
pub open spec fn connman_state_of(s: Seq<char>) -> ConnmanState {
    if s == "idle"@ {
        ConnmanState::Idle
    } else if s == "ready"@ {
        ConnmanState::Ready
    } else if s == "online"@ {
        ConnmanState::Online
    } else {
        ConnmanState::Offline
    }
}

/// The icon for a connection state.
pub open spec fn connman_icon_spec(s: ConnmanState) -> Seq<char> {
    match s {
        ConnmanState::Offline => "\u{f05aa} "@,
        ConnmanState::Idle => "\u{f0164} "@,
        ConnmanState::Ready => "\u{f05a9} "@,
        ConnmanState::Online => "\u{f015f} "@,
    }
}

/// Whether a state counts as connected (a service is shown, the clock may be set).
pub open spec fn is_connected(s: ConnmanState) -> bool {
    s == ConnmanState::Ready || s == ConnmanState::Online
}

impl ConnmanState {
    /// Reads ConnMan's `State` property; this never fails.
    pub fn from_str(s: &str) -> (r: Result<Self, ()>)
        ensures
            r == Ok::<ConnmanState, ()>(connman_state_of(s@)),
    {
        if str_eq(s, "idle") {
            Ok(ConnmanState::Idle)
        } else if str_eq(s, "ready") {
            Ok(ConnmanState::Ready)
        } else if str_eq(s, "online") {
            Ok(ConnmanState::Online)
        } else {
            Ok(ConnmanState::Offline)
        }
    }

    /// The icon shown for this state.
    pub fn icon(&self) -> (r: &'static str)
        ensures
            r@ == connman_icon_spec(*self),
    {
        match self {
            ConnmanState::Offline => "\u{f05aa} ",
            ConnmanState::Idle => "\u{f0164} ",
            ConnmanState::Ready => "\u{f05a9} ",
            ConnmanState::Online => "\u{f015f} ",
        }
    }

    /// Whether this state counts as connected.
    pub fn is_connected(&self) -> (r: bool)
        ensures
            r == is_connected(*self),
    {
        match self {
            ConnmanState::Ready | ConnmanState::Online => true,
            _ => false,
        }
    }
}

impl Default for ConnmanState {
    fn default() -> (s: Self)
        ensures
            s == ConnmanState::Offline,
    {
        ConnmanState::Offline
    }
}

/// Whether a service state counts as connected.
pub open spec fn service_connected(state: Seq<char>) -> bool {
    state == "ready"@ || state == "online"@
}

/// The name of the first connected service (by `(state, name)`), or the empty
/// string when none is connected.
pub open spec fn connected_service_spec(services: Seq<(Seq<char>, Seq<char>)>) -> Seq<char>
    decreases services.len(),
{
    if services.len() == 0 {
        Seq::empty()
    } else if service_connected(services[0].0) {
        services[0].1
    } else {
        connected_service_spec(services.drop_first())
    }
}

/// The name of the first connected service among `(state, name)` pairs, or
/// the empty string.
pub fn find_connected_service(services: &Vec<(String, String)>) -> (name: String)
    ensures
        name@ == connected_service_spec(services@.map_values(|p: (String, String)| (p.0@, p.1@))),
{
    let ghost all = services@.map_values(|p: (String, String)| (p.0@, p.1@));
    let mut i: usize = 0;
    assert(all.subrange(0, all.len() as int) =~= all);
    while i < services.len()
        invariant
            i <= services.len(),
            all == services@.map_values(|p: (String, String)| (p.0@, p.1@)),
            connected_service_spec(all) == connected_service_spec(all.subrange(i as int, all.len() as int)),
        decreases services.len() - i,
    {
        let st = services[i].0.as_str();
        let ghost rest = all.subrange(i as int, all.len() as int);
        assert(rest[0] == all[i as int]);
        if str_eq(st, "ready") || str_eq(st, "online") {
            return services[i].1.clone();
        }
        assert(rest.drop_first() =~= all.subrange(i + 1, all.len() as int));
        i = i + 1;
    }
    assert(all.subrange(i as int, all.len() as int) =~= Seq::<(Seq<char>, Seq<char>)>::empty());
    String::new()
}

/// What became of a `PropertyChanged` signal.
#[derive(Clone, Copy, Debug, PartialEq, Eq, Structural)]
pub enum ConnmanEvent {
    /// The signal was not about the connection state; nothing changed.
    Ignored,
    /// The state changed to one that is not connected.
    Disconnected,
    /// The state changed to a connected one: the caller fetches the services
    /// and hands them to `services_received`.
    NeedServices,
}

/// The clock block `after` is `before` after it set the clock with the
/// shell command `command`: marked as set, its settings kept, its servers the
/// same ones in some order, and the command asks them in that order.
pub open spec fn clock_set(before: TimeBlock, after: TimeBlock, command: Seq<char>) -> bool {
    &&& after.is_time_updated
    &&& after.update_time_ntp == before.update_time_ntp
    &&& after.time_fmt == before.time_fmt
    &&& after.date_fmt == before.date_fmt
    &&& after.time_servers@.to_multiset() == before.time_servers@.to_multiset()
    &&& command == ntp_command(after.time_servers@.map_values(|s: String| s@))
}

/// The network block.
pub struct ConnmanBlock {
    pub connected_service: String,
    pub online: ConnmanState,
}

impl ConnmanBlock {
    /// The block for ConnMan's `State` property and its `(state, name)`
    /// services. When connected and the clock block sets the clock from the
    /// network, the clock is set: the command to run is returned.
    pub fn new(state: &str, services: &Vec<(String, String)>, time_block: &mut Option<TimeBlock>) -> (r: (Self, Option<String>))
        ensures
            r.0.online == connman_state_of(state@),
            r.0.connected_service@ == connected_service_spec(services@.map_values(|p: (String, String)| (p.0@, p.1@))),
            r.1 is Some <==> (is_connected(r.0.online) && (*old(time_block) matches Some(t) && t.update_time_ntp)),
            r.1 matches Some(c) ==> (*old(time_block) matches Some(t) && *final(time_block) matches Some(t2)
                && clock_set(t, t2, c@)),
            r.1 is None ==> *final(time_block) == *old(time_block),
            old(time_block).is_some() == final(time_block).is_some(),
    {
        let online = match ConnmanState::from_str(state) {
            Ok(s) => s,
            Err(_) => ConnmanState::Offline,
        };
        let mut command = None;
        if online.is_connected() {
            if let Some(block) = time_block {
                if block.update_time_ntp {
                    command = Some(block.update_time());
                }
            }
        }
        let connected_service = find_connected_service(services);
        (ConnmanBlock { connected_service, online }, command)
    }

    /// Appends the block's text: the state icon, the service name when
    /// connected, and two spaces.
    pub fn fmt(&self, f: &mut String)
        ensures
            final(f)@ == old(f)@ + connman_icon_spec(self.online) + (if is_connected(self.online) {
                self.connected_service@
            } else {
                Seq::empty()
            }) + seq![' ', ' '],
    {
        string_push_str(f, self.online.icon());
        if self.online.is_connected() {
            string_push_str(f, self.connected_service.as_str());
        }
        string_push_str(f, "  ");
        proof {
            reveal_strlit("  ");
        }
    }

    /// Handles ConnMan's `PropertyChanged(name, value)` signal. A new state
    /// that is not connected marks the clock as needing to be set again.
    pub fn query_connman(&mut self, name: &str, value: &str, time_block: &mut Option<TimeBlock>) -> (r: ConnmanEvent)
        ensures
            name@ != "State"@ ==> r == ConnmanEvent::Ignored && final(self).online == old(self).online
                && final(self).connected_service == old(self).connected_service,
            name@ == "State"@ ==> final(self).online == connman_state_of(value@)
                && final(self).connected_service == old(self).connected_service
                && r == (if is_connected(connman_state_of(value@)) { ConnmanEvent::NeedServices } else { ConnmanEvent::Disconnected }),
            old(time_block).is_some() == final(time_block).is_some(),
            r != ConnmanEvent::Disconnected ==> *final(time_block) == *old(time_block),
            r == ConnmanEvent::Disconnected ==> (*old(time_block) matches Some(t) ==> (*final(time_block) matches Some(t2) && t2 == (TimeBlock { is_time_updated: false, ..t }))),
    {
        if str_eq(name, "State") {
            self.online = match ConnmanState::from_str(value) {
                Ok(s) => s,
                Err(_) => ConnmanState::Offline,
            };
            if self.online.is_connected() {
                ConnmanEvent::NeedServices
            } else {
                if let Some(time) = time_block {
                    time.is_time_updated = false;
                }
                ConnmanEvent::Disconnected
            }
        } else {
            ConnmanEvent::Ignored
        }
    }

    /// Takes the `(state, name)` services fetched after a `NeedServices` event.
    /// If the clock has not been set since the network came up and the clock
    /// block sets it from the network, it is set: the command is returned.
    pub fn services_received(&mut self, services: &Vec<(String, String)>, time_block: &mut Option<TimeBlock>) -> (r: Option<String>)
        ensures
            final(self).online == old(self).online,
            final(self).connected_service@ == connected_service_spec(services@.map_values(|p: (String, String)| (p.0@, p.1@))),
            r is Some <==> (*old(time_block) matches Some(t) && !t.is_time_updated && t.update_time_ntp),
            old(time_block).is_some() == final(time_block).is_some(),
            r is None ==> *final(time_block) == *old(time_block),
            r matches Some(c) ==> (*old(time_block) matches Some(t) && *final(time_block) matches Some(t2)
                && clock_set(t, t2, c@)),
    {
        self.connected_service = find_connected_service(services);
        if let Some(time) = time_block {
            if !time.is_time_updated && time.update_time_ntp {
                return Some(time.update_time());
            }
        }
        None
    }
}

} // verus!
