//! Per-flow tag state: flow bits, and their grouping by community id.

use crate::text::text_equal;
use vstd::prelude::*;

verus! {

/// A tag set on a flow.
#[derive(Debug, PartialEq, Eq)]
pub struct FlowBit {
    community_id: String,
    flowbit_type: u8,
    pad: [u8; 3],
    idx: u32,
}

/// The mathematical value of a [`FlowBit`].
pub struct FlowBitView {
    pub community_id: Seq<char>,
    pub flowbit_type: u8,
    pub pad: Seq<u8>,
    pub idx: u32,
}

impl View for FlowBit {
    type V = FlowBitView;

    closed spec fn view(&self) -> FlowBitView {
        FlowBitView {
            community_id: self.community_id@,
            flowbit_type: self.flowbit_type,
            pad: self.pad@,
            idx: self.idx,
        }
    }
}

impl Clone for FlowBit {
    fn clone(&self) -> (copy: FlowBit)
        ensures
            copy@ == self@,
    {
        FlowBit {
            community_id: self.community_id.clone(),
            flowbit_type: self.flowbit_type,
            pad: self.pad,
            idx: self.idx,
        }
    }
}

impl FlowBit {
    pub fn new(community_id: String, flowbit_type: u8, pad: [u8; 3], idx: u32) -> (flowbit: FlowBit)
        ensures
            flowbit@ == (FlowBitView { community_id: community_id@, flowbit_type, pad: pad@, idx }),
    {
        FlowBit { community_id, flowbit_type, pad, idx }
    }

    /// The community id of the flow that the tag is set on.
    pub fn community_id(&self) -> (id: &String)
        ensures
            id@ == self@.community_id,
    {
        &self.community_id
    }

    pub fn flowbit_type(&self) -> (flowbit_type: u8)
        ensures
            flowbit_type == self@.flowbit_type,
    {
        self.flowbit_type
    }

    pub fn pad(&self) -> (pad: [u8; 3])
        ensures
            pad@ == self@.pad,
    {
        self.pad
    }

    pub fn idx(&self) -> (idx: u32)
        ensures
            idx == self@.idx,
    {
        self.idx
    }
}

/// The views of a sequence of flow bits, in order.
pub open spec fn flowbit_views(flowbits: Seq<FlowBit>) -> Seq<FlowBitView> {
    Seq::new(flowbits.len(), |i: int| flowbits[i]@)
}

/// The flow bits of one community, in the order in which they came.
struct FlowGroup {
    community_id: String,
    flowbits: Vec<FlowBit>,
}

/// Flow bits by community id. Each community has its flow bits in the order
/// in which they were put in.
pub struct FlowBitsMap {
    groups: Vec<FlowGroup>,
}

/// Some group is that of the community `id`.
spec fn has_group(groups: Seq<FlowGroup>, id: Seq<char>) -> bool {
    exists|at: int| 0 <= at < groups.len() && groups[at].community_id@ == id
}

/// The place of the group of the community `id`.
spec fn group_of(groups: Seq<FlowGroup>, id: Seq<char>) -> int {
    choose|at: int| 0 <= at < groups.len() && groups[at].community_id@ == id
}

/// The flow bits among `flowbits` that belong to the community `id`, in
/// order.
pub open spec fn of_community(flowbits: Seq<FlowBitView>, id: Seq<char>) -> Seq<FlowBitView> {
    flowbits.filter(|flowbit: FlowBitView| flowbit.community_id == id)
}

/// A sequence of flow bits as a map: every community id that occurs, with the
/// flow bits of that community in the order of the sequence.
pub open spec fn grouped(flowbits: Seq<FlowBitView>) -> Map<Seq<char>, Seq<FlowBitView>> {
    Map::new(
        |id: Seq<char>| exists|at: int| 0 <= at < flowbits.len() && flowbits[at].community_id == id,
        |id: Seq<char>| of_community(flowbits, id),
    )
}

/// What a map holds for a community id: its flow bits, or none.
pub open spec fn flowbits_of(map: Map<Seq<char>, Seq<FlowBitView>>, id: Seq<char>) -> Seq<
    FlowBitView,
> {
    if map.contains_key(id) {
        map[id]
    } else {
        Seq::empty()
    }
}

impl View for FlowBitsMap {
    type V = Map<Seq<char>, Seq<FlowBitView>>;

    closed spec fn view(&self) -> Map<Seq<char>, Seq<FlowBitView>> {
        Map::new(
            |id: Seq<char>| has_group(self.groups@, id),
            |id: Seq<char>| flowbit_views(self.groups@[group_of(self.groups@, id)].flowbits@),
        )
    }
}

impl FlowBitsMap {
    /// No community id has two groups.
    #[verifier::type_invariant]
    spec fn wf(&self) -> bool {
        forall|i: int, j: int|
            0 <= i < j < self.groups@.len() ==> self.groups@[i].community_id@
                != self.groups@[j].community_id@
    }

    /// A map without flow bits.
    pub fn new() -> (map: FlowBitsMap)
        ensures
            map@ == Map::<Seq<char>, Seq<FlowBitView>>::empty(),
    {
        let map = FlowBitsMap { groups: Vec::new() };
        assert(map@ =~= Map::<Seq<char>, Seq<FlowBitView>>::empty());
        map
    }

    /// The place of the group of a community, if it has one.
    fn find(&self, community_id: &str) -> (place: Option<usize>)
        ensures
            match place {
                Some(at) => at < self.groups@.len() && self.groups@[at as int].community_id@
                    == community_id@ && group_of(self.groups@, community_id@) == at,
                None => !has_group(self.groups@, community_id@),
            },
    {
        proof {
            use_type_invariant(self);
        }
        let mut i: usize = 0;
        while i < self.groups.len()
            invariant
                self.wf(),
                i <= self.groups@.len(),
                forall|at: int| 0 <= at < i ==> self.groups@[at].community_id@ != community_id@,
            decreases self.groups@.len() - i,
        {
            if text_equal(self.groups[i].community_id.as_str(), community_id) {
                proof {
                    let chosen = group_of(self.groups@, community_id@);
                    assert(self.groups@[chosen].community_id@ == community_id@);
                    assert(chosen == i);
                }
                return Some(i);
            }
            i += 1;
        }
        None
    }

    /// Puts a flow bit behind those that its community has already.
    pub fn insert(self, flowbit: FlowBit) -> (map: FlowBitsMap)
        ensures
            map@ == self@.insert(
                flowbit@.community_id,
                flowbits_of(self@, flowbit@.community_id).push(flowbit@),
            ),
    {
        let ghost before = self.groups@;
        let ghost id = flowbit@.community_id;
        let ghost added = flowbit@;
        proof {
            use_type_invariant(&self);
        }
        let place = self.find(flowbit.community_id.as_str());
        let mut groups = self.groups;
        match place {
            Some(at) => {
                let ghost held = flowbit_views(groups@[at as int].flowbits@);
                groups[at].flowbits.push(flowbit);
                proof {
                    let after = groups@;
                    assert(after.len() == before.len());
                    assert(forall|k: int|
                        0 <= k < after.len() ==> after[k].community_id@ == before[k].community_id@);
                    assert(forall|k: int|
                        0 <= k < after.len() && k != at ==> after[k].flowbits@
                            == before[k].flowbits@);
                    assert(flowbit_views(after[at as int].flowbits@) =~= held.push(added));
                    assert forall|other: Seq<char>| has_group(after, other) == has_group(
                        before,
                        other,
                    ) by {
                        if has_group(after, other) {
                            let k = group_of(after, other);
                            assert(before[k].community_id@ == other);
                        }
                        if has_group(before, other) {
                            let k = group_of(before, other);
                            assert(after[k].community_id@ == other);
                        }
                    }
                    assert forall|other: Seq<char>| has_group(after, other) implies group_of(
                        after,
                        other,
                    ) == group_of(before, other) by {
                        let l = group_of(before, other);
                        assert(after[l].community_id@ == other);
                    }
                }
            },
            None => {
                let community_id = flowbit.community_id.clone();
                let mut flowbits: Vec<FlowBit> = Vec::new();
                flowbits.push(flowbit);
                groups.push(FlowGroup { community_id, flowbits });
                proof {
                    let after = groups@;
                    let last = before.len() as int;
                    assert(after[last].community_id@ == id);
                    assert(flowbit_views(after[last].flowbits@) =~= Seq::<FlowBitView>::empty().push(
                        added,
                    ));
                    assert(forall|k: int| 0 <= k < last ==> after[k] == before[k]);
                    assert forall|other: Seq<char>| has_group(after, other) == (other == id
                        || has_group(before, other)) by {
                        if has_group(after, other) {
                            let k = group_of(after, other);
                            if k < last {
                                assert(before[k].community_id@ == other);
                            }
                        }
                        if has_group(before, other) {
                            let k = group_of(before, other);
                            assert(after[k].community_id@ == other);
                        }
                    }
                    assert forall|other: Seq<char>| has_group(before, other) implies group_of(
                        after,
                        other,
                    ) == group_of(before, other) by {
                        let l = group_of(before, other);
                        assert(after[l].community_id@ == other);
                    }
                    assert(group_of(after, id) == last);
                }
            },
        }
        let map = FlowBitsMap { groups };
        assert(map@ =~= self@.insert(id, flowbits_of(self@, id).push(added)));
        map
    }

    /// The flow bits of a community, if it has any.
    pub fn get(&self, community_id: &str) -> (found: Option<&Vec<FlowBit>>)
        ensures
            match found {
                Some(flowbits) => self@.contains_key(community_id@) && flowbit_views(flowbits@)
                    == self@[community_id@],
                None => !self@.contains_key(community_id@),
            },
    {
        match self.find(community_id) {
            Some(at) => Some(&self.groups[at].flowbits),
            None => None,
        }
    }

    /// The number of communities.
    pub fn len(&self) -> (count: usize)
        ensures
            count == self@.dom().len(),
            self@.dom().finite(),
    {
        proof {
            use_type_invariant(self);
            self.communities_counted(self.groups@.len() as int);
            assert(self@.dom() =~= self.communities(self.groups@.len() as int));
        }
        self.groups.len()
    }

    /// The community ids of the first `n` groups.
    spec fn communities(&self, n: int) -> Set<Seq<char>> {
        Set::new(|id: Seq<char>| exists|at: int| 0 <= at < n && self.groups@[at].community_id@ == id)
    }

    /// The first `n` groups are those of `n` communities.
    proof fn communities_counted(&self, n: int)
        requires
            self.wf(),
            0 <= n <= self.groups@.len(),
        ensures
            self.communities(n).finite(),
            self.communities(n).len() == n,
        decreases n,
    {
        if n == 0 {
            assert(self.communities(0) =~= Set::<Seq<char>>::empty());
        } else {
            self.communities_counted(n - 1);
            let id = self.groups@[n - 1].community_id@;
            assert(self.communities(n) =~= self.communities(n - 1).insert(id));
            assert(!self.communities(n - 1).contains(id));
        }
    }
}

/// Adding a flow bit to a sequence puts it behind those of its community in
/// the map, and leaves the other communities as they were.
pub proof fn grouped_push(flowbits: Seq<FlowBitView>, flowbit: FlowBitView)
    ensures
        grouped(flowbits.push(flowbit)) == grouped(flowbits).insert(
            flowbit.community_id,
            flowbits_of(grouped(flowbits), flowbit.community_id).push(flowbit),
        ),
{
    let longer = flowbits.push(flowbit);
    let id = flowbit.community_id;
    reveal(Seq::filter);
    assert(longer.drop_last() == flowbits);
    assert(longer.last() == flowbit);
    assert forall|other: Seq<char>| #[trigger]
        grouped(longer).contains_key(other) == (other == id || grouped(flowbits).contains_key(
            other,
        )) by {
        if grouped(longer).contains_key(other) {
            let at = choose|at: int| 0 <= at < longer.len() && longer[at].community_id == other;
            if at < flowbits.len() {
                assert(flowbits[at].community_id == other);
            }
        }
        if grouped(flowbits).contains_key(other) {
            let at = choose|at: int| 0 <= at < flowbits.len() && flowbits[at].community_id == other;
            assert(longer[at].community_id == other);
        }
        if other == id {
            assert(longer[flowbits.len() as int].community_id == other);
        }
    }
    if !grouped(flowbits).contains_key(id) {
        nobody_of_absent_community(flowbits, id);
    }
    assert(grouped(longer) =~= grouped(flowbits).insert(
        id,
        flowbits_of(grouped(flowbits), id).push(flowbit),
    ));
}

/// A community id that does not occur has no flow bits.
pub proof fn nobody_of_absent_community(flowbits: Seq<FlowBitView>, id: Seq<char>)
    requires
        forall|at: int| 0 <= at < flowbits.len() ==> flowbits[at].community_id != id,
    ensures
        of_community(flowbits, id) == Seq::<FlowBitView>::empty(),
    decreases flowbits.len(),
{
    reveal(Seq::filter);
    if flowbits.len() > 0 {
        nobody_of_absent_community(flowbits.drop_last(), id);
    }
}

/// Groups flow bits by community id, each group in the order of `flowbits`.
pub fn group_flowbits(flowbits: Vec<FlowBit>) -> (map: FlowBitsMap)
    ensures
        map@ == grouped(flowbit_views(flowbits@)),
{
    let ghost all = flowbit_views(flowbits@);
    let mut map = FlowBitsMap::new();
    let mut i: usize = 0;
    assert(grouped(all.take(0)) =~= Map::<Seq<char>, Seq<FlowBitView>>::empty());
    while i < flowbits.len()
        invariant
            i <= flowbits@.len(),
            all == flowbit_views(flowbits@),
            map@ == grouped(all.take(i as int)),
        decreases flowbits@.len() - i,
    {
        let flowbit = flowbits[i].clone();
        proof {
            grouped_push(all.take(i as int), flowbit@);
            assert(all.take(i + 1) == all.take(i as int).push(flowbit@));
        }
        map = map.insert(flowbit);
        i += 1;
    }
    assert(all.take(i as int) == all);
    map
}

/// The flow bits of a community: copies of those that the map holds for it,
/// in their order, and none where it holds none.
pub fn get_flowbits(flowbits: &FlowBitsMap, community_id: &String) -> (found: Vec<FlowBit>)
    ensures
        flowbit_views(found@) == flowbits_of(flowbits@, community_id@),
{
    let mut found: Vec<FlowBit> = Vec::new();
    match flowbits.get(community_id.as_str()) {
        Some(held) => {
            let mut i: usize = 0;
            while i < held.len()
                invariant
                    i <= held@.len(),
                    flowbit_views(found@) == flowbit_views(held@).take(i as int),
                decreases held@.len() - i,
            {
                let copy = held[i].clone();
                let ghost before = found@;
                found.push(copy);
                proof {
                    assert(found@ == before.push(copy));
                    assert(flowbit_views(found@) =~= flowbit_views(before).push(copy@));
                    assert(flowbit_views(held@).take(i + 1) =~= flowbit_views(held@).take(
                        i as int,
                    ).push(held@[i as int]@));
                }
                i += 1;
            }
            assert(flowbit_views(held@).take(i as int) == flowbit_views(held@));
        },
        None => {},
    }
    found
}

} // verus!
