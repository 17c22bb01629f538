//! The dwl tag bar: per-tag state and where the inactive background goes.
use vstd::prelude::*;

verus! {

/// What dwl reports about one tag.
#[derive(Clone, Copy, Debug, PartialEq, Eq, Structural)]
pub enum TagState {
    Inactive,
    Active,
    Urgent,
}

/// One tag of a monitor.
#[derive(Clone, Copy, Debug, PartialEq, Eq, Structural)]
pub struct Tag {
    pub state: TagState,
    pub num_clients: u32,
    pub focused_client: i32,
}

/// A tag nobody has reported on yet.
pub open spec fn default_tag() -> Tag {
    Tag { state: TagState::Inactive, num_clients: 0, focused_client: 0 }
}

/// Whether a tag is drawn in the active colours (it is active or urgent).
pub open spec fn spec_highlighted(t: Tag) -> bool {
    t.state == TagState::Active || t.state == TagState::Urgent
}

impl Tag {
    /// Whether this tag is drawn in the active colours.
    pub fn is_highlighted(&self) -> (r: bool)
        ensures
            r == spec_highlighted(*self),
    {
        match self.state {
            TagState::Active | TagState::Urgent => true,
            TagState::Inactive => false,
        }
    }
}

impl Default for Tag {
    fn default() -> (t: Self)
        ensures
            t == default_tag(),
    {
        Tag { state: TagState::Inactive, num_clients: 0, focused_client: 0 }
    }
}

/// The background runs drawn in the inactive colour, in tag units: each is a
/// half-open range `[start, end)` of tags.
///
/// They are exactly the maximal runs of tags that are not highlighted, in
/// order, preceded by an empty run at 0 when the bar has no tags or its first
/// tag is highlighted.
pub open spec fn inactive_runs_spec(tags: Seq<Tag>, runs: Seq<(usize, usize)>) -> bool {
    let n = tags.len();
    &&& forall|k: int| 0 <= k < runs.len() ==> #[trigger] runs[k].0 <= runs[k].1 <= n
    &&& forall|k: int, i: int|
        0 <= k < runs.len() && runs[k].0 <= i < runs[k].1 ==> !spec_highlighted(
            #[trigger] tags[i],
        ) && #[trigger] runs[k].0 <= i
    &&& forall|k: int|
        0 <= k < runs.len() ==> #[trigger] runs[k].0 == 0 || spec_highlighted(
            tags[runs[k].0 - 1],
        )
    &&& forall|k: int|
        0 <= k < runs.len() ==> #[trigger] runs[k].1 == n || spec_highlighted(tags[runs[k].1 as int])
    &&& forall|k: int, j: int| 0 <= k < j < runs.len() ==> #[trigger] runs[k].1 < #[trigger] runs[j].0
    &&& forall|i: int|
        0 <= i < n && !spec_highlighted(#[trigger] tags[i]) ==> exists|k: int|
            0 <= k < runs.len() && #[trigger] runs[k].0 <= i < runs[k].1
    &&& forall|k: int|
        0 <= k < runs.len() ==> #[trigger] runs[k].0 < runs[k].1 || (k == 0 && runs[k] == (
            0usize,
            0usize,
        ))
    &&& (n == 0 || spec_highlighted(tags[0])) <==> (runs.len() > 0 && runs[0] == (0usize, 0usize))
}

/// The tags of one monitor.
pub struct Tags {
    pub tags: Vec<Tag>,
}

impl Tags {
    /// `tag_count` tags, all in their default state.
    pub fn new(tag_count: usize) -> (t: Self)
        ensures
            t.tags@.len() == tag_count,
            forall|i: int| 0 <= i < tag_count ==> #[trigger] t.tags@[i] == default_tag(),
    {
        let mut tags: Vec<Tag> = Vec::new();
        let mut i: usize = 0;
        while i < tag_count
            invariant
                i <= tag_count,
                tags@.len() == i,
                forall|j: int| 0 <= j < i ==> #[trigger] tags@[j] == default_tag(),
            decreases tag_count - i,
        {
            tags.push(Tag::default());
            i = i + 1;
        }
        Tags { tags }
    }

    /// Records what dwl reported about tag number `tag`.
    pub fn tag_event(&mut self, tag: u32, tag_state: TagState, num_clients: u32, focused_client: i32)
        requires
            tag < old(self).tags@.len(),
        ensures
            final(self).tags@ == old(self).tags@.update(
                tag as int,
                Tag { state: tag_state, num_clients, focused_client },
            ),
    {
        let idx = tag as usize;
        self.tags.set(idx, Tag { state: tag_state, num_clients, focused_client });
    }

    /// The runs of tags whose background is drawn in the inactive colour.
    pub fn inactive_runs(&self) -> (runs: Vec<(usize, usize)>)
        ensures
            inactive_runs_spec(self.tags@, runs@),
    {
        let tags = &self.tags;
        let n = tags.len();
        let mut runs: Vec<(usize, usize)> = Vec::new();
        let mut x1: usize = 0;
        let mut i: usize = 0;
        let mut in_selection = false;
        while i < n
            invariant
                n == tags@.len(),
                i <= n,
                x1 <= i,
                in_selection ==> i > 0 && spec_highlighted(tags@[i - 1]),
                in_selection ==> x1 < i,
                !in_selection ==> forall|j: int| x1 <= j < i ==> !spec_highlighted(
                    #[trigger] tags@[j],
                ),
                !in_selection ==> x1 == 0 || spec_highlighted(tags@[x1 - 1]),
                forall|k: int| 0 <= k < runs@.len() ==> #[trigger] runs@[k].0 <= runs@[k].1 <= n,
                in_selection ==> forall|k: int| 0 <= k < runs@.len() ==> #[trigger] runs@[k].1 <= x1,
                !in_selection ==> forall|k: int| 0 <= k < runs@.len() ==> #[trigger] runs@[k].1 < x1,
                !in_selection && x1 == i ==> i == 0,
                i == 0 ==> runs@.len() == 0,
                forall|k: int, j: int|
                    0 <= k < runs@.len() && runs@[k].0 <= j < runs@[k].1 ==> !spec_highlighted(
                        #[trigger] tags@[j],
                    ) && #[trigger] runs@[k].0 <= j,
                forall|k: int|
                    0 <= k < runs@.len() ==> #[trigger] runs@[k].0 == 0 || spec_highlighted(
                        tags@[runs@[k].0 - 1],
                    ),
                forall|k: int|
                    0 <= k < runs@.len() ==> #[trigger] runs@[k].1 == n || spec_highlighted(
                        tags@[runs@[k].1 as int],
                    ),
                forall|k: int, j: int|
                    0 <= k < j < runs@.len() ==> #[trigger] runs@[k].1 < #[trigger] runs@[j].0,
                forall|j: int|
                    0 <= j < i && !spec_highlighted(#[trigger] tags@[j]) && (in_selection || j
                        < x1) ==> exists|k: int|
                        0 <= k < runs@.len() && #[trigger] runs@[k].0 <= j < runs@[k].1,
                forall|k: int|
                    0 <= k < runs@.len() ==> #[trigger] runs@[k].0 < runs@[k].1 || (k == 0
                        && runs@[k] == (0usize, 0usize)),
                (i > 0 && spec_highlighted(tags@[0])) <==> (runs@.len() > 0 && runs@[0] == (
                    0usize,
                    0usize,
                )),
            decreases n - i,
        {
            let t = tags[i];
            if t.is_highlighted() {
                if !in_selection {
                    in_selection = true;
                    let ghost old_runs = runs@;
                    runs.push((x1, i));
                    proof {
                        assert forall|j: int|
                            0 <= j < i + 1 && !spec_highlighted(#[trigger] tags@[j]) && (
                            in_selection || j < x1) implies exists|k: int|
                            0 <= k < runs@.len() && #[trigger] runs@[k].0 <= j < runs@[k].1 by {
                            if x1 <= j {
                                assert(runs@[old_runs.len() as int].0 <= j);
                            } else {
                                let k = choose|k: int|
                                    0 <= k < old_runs.len() && #[trigger] old_runs[k].0 <= j
                                        < old_runs[k].1;
                                assert(runs@[k] == old_runs[k]);
                            }
                        }
                    }
                    x1 = i;
                }
            } else {
                if in_selection {
                    in_selection = false;
                    x1 = i;
                }
            }
            i = i + 1;
        }
        if !in_selection {
            let ghost old_runs = runs@;
            runs.push((x1, i));
            proof {
                assert forall|j: int|
                    0 <= j < n && !spec_highlighted(#[trigger] tags@[j]) implies exists|k: int|
                    0 <= k < runs@.len() && #[trigger] runs@[k].0 <= j < runs@[k].1 by {
                    if x1 <= j {
                        assert(runs@[old_runs.len() as int].0 <= j);
                    } else {
                        let k = choose|k: int|
                            0 <= k < old_runs.len() && #[trigger] old_runs[k].0 <= j
                                < old_runs[k].1;
                        assert(runs@[k] == old_runs[k]);
                    }
                }
            }
        }
        runs
    }
}

} // verus!
