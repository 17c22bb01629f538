//! The registry of D-Bus match rules and their callbacks, keyed by the token
//! that `add_match` hands out and `remove_match` takes back, and how the
//! event-loop source of a connection registers and keeps its rules.
use vstd::prelude::*;
use std::collections::BTreeMap;
use crate::supervisor::PollInterest;

verus! {

broadcast use {vstd::laws_cmp::group_laws_cmp, vstd::std_specs::btree::group_btree_axioms};

/// The handle of one registered match rule.
#[derive(Clone, Copy, Debug, PartialEq, Eq, Structural)]
pub struct Token(pub usize);

/// Registered match rules `R`, each with its callback `F`.
pub struct Filters<R, F> {
    list: BTreeMap<usize, (R, F)>,
    next_id: usize,
}

impl<R, F> Filters<R, F> {
    /// Every live token is below the next one to be handed out, which is never 0.
    #[verifier::type_invariant]
    spec fn fresh_tokens(self) -> bool {
        &&& 1 <= self.next_id
        &&& forall|k: usize| #[trigger] self.list@.contains_key(k) ==> k < self.next_id
    }

    /// The number that the next `add` hands out.
    pub closed spec fn next_token(self) -> nat {
        self.next_id as nat
    }
}

impl<R, F> View for Filters<R, F> {
    type V = Map<usize, (R, F)>;

    closed spec fn view(&self) -> Map<usize, (R, F)> {
        self.list@
    }
}

impl<R, F> Default for Filters<R, F> {
    /// An empty registry; the first token it hands out is 1.
    fn default() -> (s: Self)
        ensures
            s@ == Map::<usize, (R, F)>::empty(),
            s.next_token() == 1,
    {
        Filters { list: BTreeMap::new(), next_id: 1 }
    }
}

impl<R, F> Filters<R, F> {
    /// Registers `f` for the rule `m` under a fresh token, and returns the token.
    pub fn add(&mut self, m: R, f: F) -> (id: Token)
        requires
            old(self).next_token() < usize::MAX,
        ensures
            id.0 == old(self).next_token(),
            final(self).next_token() == old(self).next_token() + 1,
            !old(self)@.contains_key(id.0),
            forall|k: usize| old(self)@.contains_key(k) ==> k < id.0,
            final(self)@ == old(self)@.insert(id.0, (m, f)),
    {
        proof {
            use_type_invariant(&*self);
        }
        let id = self.next_id;
        let mut list = BTreeMap::new();
        std::mem::swap(&mut list, &mut self.list);
        list.insert(id, (m, f));
        let next_id = self.next_id + 1;
        *self = Filters { list, next_id };
        Token(id)
    }

    /// Unregisters the rule under `id`, handing back the rule and its callback
    /// if one was registered.
    pub fn remove(&mut self, id: Token) -> (r: Option<(R, F)>)
        ensures
            final(self)@ == old(self)@.remove(id.0),
            final(self).next_token() == old(self).next_token(),
            old(self)@.contains_key(id.0) ==> r == Some(old(self)@[id.0]),
            !old(self)@.contains_key(id.0) ==> r is None,
    {
        proof {
            use_type_invariant(&*self);
        }
        let mut list = BTreeMap::new();
        std::mem::swap(&mut list, &mut self.list);
        let r = list.remove(&id.0);
        *self = Filters { list, next_id: self.next_id };
        r
    }
}

/// Removing the token that `add` just handed out gives back exactly what was
/// added and leaves the registry as it was before the `add`; removing it a
/// second time finds nothing. (`add` hands out a token that is not live, as
/// its `ensures` states, so `before` does not hold it.)
pub proof fn lemma_remove_undoes_add<R, F>(before: Map<usize, (R, F)>, id: usize, m: R, f: F)
    requires
        !before.contains_key(id),
    ensures
        before.insert(id, (m, f)).contains_key(id),
        before.insert(id, (m, f))[id] == (m, f),
        before.insert(id, (m, f)).remove(id) == before,
        !before.insert(id, (m, f)).remove(id).contains_key(id),
{
    assert(before.insert(id, (m, f)).remove(id) =~= before);
}

/// One call on a registry: `add`, which handed out this token, or `remove`
/// of this token.
#[derive(Clone, Copy, Debug, PartialEq, Eq, Structural)]
pub enum FilterCall {
    Add(usize),
    Remove(usize),
}

/// What the contracts of `add` and `remove` say of one call that took the
/// registry from `before` to `after`.
pub open spec fn call_step<R, F>(before: Filters<R, F>, after: Filters<R, F>, call: FilterCall) -> bool {
    match call {
        FilterCall::Add(t) => {
            &&& t == before.next_token()
            &&& after.next_token() == before.next_token() + 1
            &&& !before@.contains_key(t)
            &&& after@.contains_key(t)
        },
        FilterCall::Remove(t) => {
            &&& after.next_token() == before.next_token()
            &&& after@ == before@.remove(t)
        },
    }
}

/// How many of the first `n` calls are `add`s.
pub open spec fn adds_in(calls: Seq<FilterCall>, n: int) -> nat
    decreases n,
{
    if n <= 0 {
        0
    } else {
        adds_in(calls, n - 1) + if calls[n - 1] is Add {
            1nat
        } else {
            0nat
        }
    }
}

/// From a fresh registry (next token 1), any sequence of `add` and `remove`
/// calls hands out the tokens 1, 2, 3, ... in call order: the `add` that
/// follows `k` earlier `add`s returns `k + 1`, whatever was removed in
/// between, so no token is ever handed out twice.
pub proof fn lemma_tokens_in_call_order<R, F>(states: Seq<Filters<R, F>>, calls: Seq<FilterCall>)
    requires
        states.len() == calls.len() + 1,
        states[0].next_token() == 1,
        forall|i: int| 0 <= i < calls.len() ==> #[trigger] call_step(states[i], states[i + 1], calls[i]),
    ensures
        forall|i: int| 0 <= i < calls.len() && #[trigger] calls[i] is Add ==> calls[i]->Add_0 == adds_in(calls, i) + 1,
        forall|i: int, j: int|
            0 <= i < j < calls.len() && #[trigger] calls[i] is Add && #[trigger] calls[j] is Add ==> calls[i]->Add_0
                < calls[j]->Add_0,
        states[calls.len() as int].next_token() == adds_in(calls, calls.len() as int) + 1,
{
    assert forall|k: int| 0 <= k <= calls.len() implies #[trigger] states[k].next_token() == adds_in(calls, k) + 1 by {
        lemma_next_token(states, calls, k);
    }
    assert forall|i: int| 0 <= i < calls.len() && #[trigger] calls[i] is Add implies calls[i]->Add_0 == adds_in(calls, i) + 1 by {
        assert(call_step(states[i], states[i + 1], calls[i]));
        assert(states[i].next_token() == adds_in(calls, i) + 1);
    }
    assert forall|i: int, j: int|
        0 <= i < j < calls.len() && #[trigger] calls[i] is Add && #[trigger] calls[j] is Add implies calls[i]->Add_0
            < calls[j]->Add_0 by {
        lemma_adds_grow(calls, i + 1, j);
        assert(calls[i]->Add_0 == adds_in(calls, i) + 1);
        assert(calls[j]->Add_0 == adds_in(calls, j) + 1);
        assert(adds_in(calls, i + 1) == adds_in(calls, i) + 1);
    }
}

proof fn lemma_next_token<R, F>(states: Seq<Filters<R, F>>, calls: Seq<FilterCall>, k: int)
    requires
        states.len() == calls.len() + 1,
        states[0].next_token() == 1,
        forall|i: int| 0 <= i < calls.len() ==> #[trigger] call_step(states[i], states[i + 1], calls[i]),
        0 <= k <= calls.len(),
    ensures
        states[k].next_token() == adds_in(calls, k) + 1,
    decreases k,
{
    if k > 0 {
        lemma_next_token(states, calls, k - 1);
        let i = k - 1;
        assert(call_step(states[i], states[i + 1], calls[i]));
        assert(i + 1 == k);
    }
}

proof fn lemma_adds_grow(calls: Seq<FilterCall>, a: int, b: int)
    requires
        0 <= a <= b,
    ensures
        adds_in(calls, a) <= adds_in(calls, b),
    decreases b - a,
{
    if a < b {
        lemma_adds_grow(calls, a, b - 1);
    }
}

/// The interest that a connection's watch descriptor is registered with in
/// the event loop; a watch that wants neither reading nor writing cannot be
/// registered (`None`).
pub fn source_interest(read: bool, write: bool) -> (r: Option<PollInterest>)
    ensures
        r == (if read && write {
            Some(PollInterest::All)
        } else if read {
            Some(PollInterest::Readable)
        } else if write {
            Some(PollInterest::Writable)
        } else {
            None::<PollInterest>
        }),
{
    match (read, write) {
        (true, true) => Some(PollInterest::All),
        (false, true) => Some(PollInterest::Writable),
        (true, false) => Some(PollInterest::Readable),
        (false, false) => None,
    }
}

/// Whether a match rule stays registered after a message arrived for it:
/// messages whose arguments do not parse are skipped and keep it; otherwise
/// it stays exactly when its callback asks for more (`callback_result`).
pub fn filter_keeps(args_parsed: bool, callback_result: bool) -> (keep: bool)
    ensures
        keep == (!args_parsed || callback_result),
{
    if args_parsed {
        callback_result
    } else {
        true
    }
}

/// Internal helper trait: turns a callback into the stored filter callback.
pub trait MakeSignal<G, S, T> {
    /// Internal helper trait
    fn make(self, match_str: String) -> G;
}

/// Internal helper trait: turns a callback that also sees the loop data into
/// the stored filter callback.
pub trait MakeDataSignal<G, S, T> {
    /// Internal helper trait
    fn make(self, match_str: String) -> G;
}

} // verus!
