use vstd::prelude::*;

use crate::node::{
    dynamic_slot_of, fixed_inode_of, fixed_node, lemma_slot_ranges_disjoint, node_of_fixed_inode,
    slot_base, slot_end, slot_range, FsNode, NodeView, DYNAMIC_KINDS,
};

verus! {

/// The bidirectional map between inode numbers and nodes.
///
/// Structural nodes keep their fixed inodes. Every other node gets the next
/// free inode of its kind's range the first time it is interned, so the kind
/// can be read off the inode, and an inode, once handed out, is never handed
/// out again, even after it was forgotten.
pub struct InodeRegistry {
    entries: Vec<(u64, FsNode)>,
    next: Vec<u64>,
    table: Ghost<Map<u64, NodeView>>,
}

impl InodeRegistry {
    /// The dynamic inode table.
    pub closed spec fn table_view(&self) -> Map<u64, NodeView> {
        self.table@
    }

    /// The next inode each kind would hand out.
    pub closed spec fn counter(&self, slot: int) -> u64 {
        self.next@[slot]
    }

    /// The node that an inode currently names.
    pub open spec fn lookup_spec(&self, ino: u64) -> Option<NodeView> {
        if node_of_fixed_inode(ino) is Some {
            node_of_fixed_inode(ino)
        } else if self.table_view().contains_key(ino) {
            Some(self.table_view()[ino])
        } else {
            None
        }
    }

    /// Whether an inode has ever been handed out (fixed inodes always are).
    pub open spec fn issued(&self, ino: u64) -> bool {
        node_of_fixed_inode(ino) is Some || exists|s: int|
            0 <= s < DYNAMIC_KINDS && slot_base(s) <= ino && ino < #[trigger] self.counter(s)
    }

    /// The registry's internal invariant.
    pub closed spec fn wf(&self) -> bool {
        &&& self.next@.len() == DYNAMIC_KINDS
        &&& forall|s: int|
            0 <= s < DYNAMIC_KINDS ==> slot_base(s) <= #[trigger] self.next@[s] <= slot_end(s)
        &&& forall|j: int|
            0 <= j < self.entries@.len() ==> {
                let (ino, n) = #[trigger] self.entries@[j];
                &&& self.table@.contains_key(ino)
                &&& self.table@[ino] == n@
                &&& dynamic_slot_of(n@) matches Some(s) && slot_base(s) <= ino < self.next@[s]
            }
        &&& forall|ino: u64|
            #[trigger] self.table@.contains_key(ino) ==> exists|j: int|
                0 <= j < self.entries@.len() && (#[trigger] self.entries@[j]).0 == ino
        &&& forall|a: int, b: int|
            0 <= a < self.entries@.len() && 0 <= b < self.entries@.len() && a != b ==> (
            #[trigger] self.entries@[a]).1@ != (#[trigger] self.entries@[b]).1@
    }

    /// The table maps only inodes of the right kind and range.
    pub proof fn lemma_table_well_kinded(&self, ino: u64)
        requires
            self.wf(),
            self.table_view().contains_key(ino),
        ensures
            dynamic_slot_of(self.table_view()[ino]) matches Some(s) && slot_base(s) <= ino
                < self.counter(s),
            node_of_fixed_inode(ino) is None,
            self.issued(ino),
    {
        let j = choose|j: int| 0 <= j < self.entries@.len() && (#[trigger] self.entries@[j]).0 == ino;
        let s = dynamic_slot_of(self.entries@[j].1@)->Some_0;
        assert(0 <= s < DYNAMIC_KINDS);
        lemma_slot_ranges_disjoint(s, s, ino);
    }

    /// An empty registry: only the fixed inodes are known.
    pub fn new() -> (r: InodeRegistry)
        ensures
            r.wf(),
            r.table_view() == Map::<u64, NodeView>::empty(),
            forall|s: int| 0 <= s < DYNAMIC_KINDS ==> #[trigger] r.counter(s) == slot_base(s),
    {
        let mut next: Vec<u64> = Vec::new();
        let mut s: usize = 0;
        while s < DYNAMIC_KINDS
            invariant
                s <= DYNAMIC_KINDS,
                next@.len() == s,
                forall|t: int| 0 <= t < s ==> #[trigger] next@[t] == slot_base(t),
            decreases DYNAMIC_KINDS - s,
        {
            let (base, _end) = slot_range(s);
            next.push(base);
            s += 1;
        }
        InodeRegistry { entries: Vec::new(), next, table: Ghost(Map::empty()) }
    }

    /// The node an inode names, if it names one.
    pub fn lookup_node(&self, ino: u64) -> (r: Option<FsNode>)
        requires
            self.wf(),
        ensures
            r matches Some(n) ==> self.lookup_spec(ino) == Some(n@),
            r is None ==> self.lookup_spec(ino) is None,
    {
        let fixed = fixed_node(ino);
        if fixed.is_some() {
            return fixed;
        }
        let mut j: usize = 0;
        while j < self.entries.len()
            invariant
                self.wf(),
                j <= self.entries@.len(),
                forall|t: int| 0 <= t < j ==> (#[trigger] self.entries@[t]).0 != ino,
            decreases self.entries@.len() - j,
        {
            if self.entries[j].0 == ino {
                return Some(self.entries[j].1.duplicate());
            }
            j += 1;
        }
        proof {
            if self.table@.contains_key(ino) {
                let t = choose|t: int| 0 <= t < self.entries@.len() && (#[trigger] self.entries@[t]).0 == ino;
                assert(self.entries@[t].0 != ino);
            }
        }
        None
    }

    /// The inode of a node, without allocating one.
    pub fn inode_of(&self, node: &FsNode) -> (r: Option<u64>)
        requires
            self.wf(),
        ensures
            r matches Some(i) ==> self.lookup_spec(i) == Some(node@),
            r is None ==> forall|i: u64| self.lookup_spec(i) != Some(node@),
    {
        let fixed = node.inode();
        if fixed.is_some() {
            return fixed;
        }
        let mut j: usize = 0;
        while j < self.entries.len()
            invariant
                self.wf(),
                j <= self.entries@.len(),
                fixed_inode_of(node@) is None,
                forall|t: int| 0 <= t < j ==> (#[trigger] self.entries@[t]).1@ != node@,
            decreases self.entries@.len() - j,
        {
            if self.entries[j].1.same_as(node) {
                let ino = self.entries[j].0;
                proof {
                    self.lemma_table_well_kinded(ino);
                }
                return Some(ino);
            }
            j += 1;
        }
        proof {
            assert forall|i: u64| self.lookup_spec(i) != Some(node@) by {
                if self.table@.contains_key(i) && self.lookup_spec(i) == Some(node@) {
                    self.lemma_table_well_kinded(i);
                    let t = choose|t: int| 0 <= t < self.entries@.len() && (#[trigger] self.entries@[t]).0 == i;
                    assert(self.entries@[t].1@ == node@);
                }
                lemma_fixed_inode_round_trip(i, node@);
            }
        }
        None
    }

    /// The inode of a node, allocating the next inode of its kind when the
    /// node is new. None for the sentinel and when the kind's range is spent.
    pub fn intern(&mut self, node: &FsNode) -> (r: Option<u64>)
        requires
            old(self).wf(),
        ensures
            final(self).wf(),
            final(self).interned_from(*old(self), node@, r),
    {
        let fixed = node.inode();
        if fixed.is_some() {
            proof {
                lemma_fixed_inode_round_trip(fixed->Some_0, node@);
            }
            return fixed;
        }
        let slot = match node.dynamic_slot() {
            Some(s) => s,
            None => {
                proof {
                    assert(node@ is NotFound) by {
                        lemma_every_node_has_an_inode_kind(node@);
                    }
                }
                return None;
            },
        };
        let mut j: usize = 0;
        while j < self.entries.len()
            invariant
                self.wf(),
                j <= self.entries@.len(),
                forall|t: int| 0 <= t < j ==> (#[trigger] self.entries@[t]).1@ != node@,
            decreases self.entries@.len() - j,
        {
            if self.entries[j].1.same_as(node) {
                let ino = self.entries[j].0;
                proof {
                    self.lemma_table_well_kinded(ino);
                }
                return Some(ino);
            }
            j += 1;
        }
        let (base, end) = slot_range(slot);
        let cur = self.next[slot];
        if cur >= end {
            proof {
                assert forall|i: u64| self.lookup_spec(i) != Some(node@) by {
                    if self.table@.contains_key(i) && self.lookup_spec(i) == Some(node@) {
                        let t = choose|t: int| 0 <= t < self.entries@.len() && (#[trigger] self.entries@[t]).0 == i;
                        assert(self.entries@[t].1@ == node@);
                    }
                    lemma_fixed_inode_round_trip(i, node@);
                }
            }
            return None;
        }
        proof {
            assert forall|t: int| 0 <= t < self.entries@.len() implies (#[trigger] self.entries@[t]).0 != cur by {
                let (ino, n) = self.entries@[t];
                let s = dynamic_slot_of(n@)->Some_0;
                if ino == cur {
                    lemma_slot_ranges_disjoint(s, slot as int, cur);
                }
            }
            assert(!self.table@.contains_key(cur));
            assert(!self.issued(cur)) by {
                if exists|s: int| 0 <= s < DYNAMIC_KINDS && slot_base(s) <= cur && cur < #[trigger] self.counter(s) {
                    let s = choose|s: int| 0 <= s < DYNAMIC_KINDS && slot_base(s) <= cur && cur < #[trigger] self.counter(s);
                    lemma_slot_ranges_disjoint(s, slot as int, cur);
                }
            }
        }
        let ghost old_self = *self;
        self.entries.push((cur, node.duplicate()));
        self.next.set(slot, cur + 1);
        self.table = Ghost(self.table@.insert(cur, node@));
        proof {
            assert forall|ino: u64| #[trigger] self.table@.contains_key(ino) implies exists|j: int|
                0 <= j < self.entries@.len() && (#[trigger] self.entries@[j]).0 == ino by {
                if ino != cur {
                    let j = choose|j: int| 0 <= j < old_self.entries@.len() && (#[trigger] old_self.entries@[j]).0 == ino;
                    assert(self.entries@[j] == old_self.entries@[j]);
                } else {
                    assert(self.entries@[self.entries@.len() - 1].0 == cur);
                }
            }
            assert forall|i: u64| old_self.issued(i) implies #[trigger] self.issued(i) by {
                if node_of_fixed_inode(i) is None {
                    let s = choose|s: int| 0 <= s < DYNAMIC_KINDS && slot_base(s) <= i && i < #[trigger] old_self.counter(s);
                    assert(self.counter(s) >= old_self.counter(s));
                }
            }
            assert(self.issued(cur)) by {
                assert(self.counter(slot as int) == cur + 1);
            }
            assert forall|i: u64| i != cur implies #[trigger] self.lookup_spec(i) == old_self.lookup_spec(i) by {}
            assert(old_self.counter(slot as int) == cur);
            assert(old_self.can_intern(node@));
            assert forall|m: int| old_self.has_room(m + 1) implies #[trigger] self.has_room(m) by {
                assert forall|s: int| 0 <= s < DYNAMIC_KINDS implies #[trigger] self.counter(s) + m <= slot_end(s) by {
                    assert(old_self.counter(s) + m + 1 <= slot_end(s));
                    if s != slot {
                        assert(self.counter(s) == old_self.counter(s));
                    }
                }
            }
        }
        Some(cur)
    }

    /// What `intern` promises: the returned inode names the node, no other
    /// inode changed, nothing issued is forgotten as issued, and an inode
    /// newly bound to the node was never issued before.
    pub open spec fn interned_from(&self, before: InodeRegistry, node: NodeView, r: Option<u64>) -> bool {
        &&& r matches Some(i) ==> self.lookup_spec(i) == Some(node)
        &&& r matches Some(i) ==> before.lookup_spec(i) == Some(node) || !before.issued(i)
        &&& r is None ==> node is NotFound || forall|i: u64| before.lookup_spec(i) != Some(node)
        &&& r is None ==> self.table_view() == before.table_view()
        &&& forall|i: u64| r != Some(i) ==> #[trigger] self.lookup_spec(i) == before.lookup_spec(i)
        &&& forall|i: u64| before.issued(i) ==> #[trigger] self.issued(i)
        &&& r matches Some(i) ==> self.issued(i)
        &&& r is None <==> (node is NotFound || !before.can_intern(node))
        &&& forall|m: int| before.has_room(m + 1) ==> #[trigger] self.has_room(m)
    }

    /// Whether interning a node succeeds: it has a fixed inode, already has
    /// one, or its kind's range has an inode left.
    pub open spec fn can_intern(&self, n: NodeView) -> bool {
        ||| fixed_inode_of(n) is Some
        ||| exists|i: u64| self.lookup_spec(i) == Some(n)
        ||| (dynamic_slot_of(n) matches Some(s) && self.counter(s) < slot_end(s))
    }

    /// Every kind's range has at least `m` inodes left.
    pub open spec fn has_room(&self, m: int) -> bool {
        forall|s: int| 0 <= s < DYNAMIC_KINDS ==> #[trigger] self.counter(s) + m <= slot_end(s)
    }

    /// With room left, every node but the sentinel can be interned.
    pub proof fn lemma_room_allows_intern(&self, n: NodeView)
        requires
            self.has_room(1),
            !(n is NotFound),
        ensures
            self.can_intern(n),
    {
        lemma_every_node_has_an_inode_kind(n);
        if let Some(s) = dynamic_slot_of(n) {
            assert(self.counter(s) + 1 <= slot_end(s));
        }
    }

    /// Drops the binding of a dynamic inode. The inode stays issued, so it is
    /// never handed out again.
    pub fn forget(&mut self, ino: u64)
        requires
            old(self).wf(),
        ensures
            final(self).wf(),
            node_of_fixed_inode(ino) is None ==> final(self).lookup_spec(ino) is None,
            forall|i: u64| i != ino ==> #[trigger] final(self).lookup_spec(i) == old(self).lookup_spec(i),
            forall|i: u64| #[trigger] final(self).issued(i) == old(self).issued(i),
    {
        let mut j: usize = 0;
        while j < self.entries.len()
            invariant
                self.wf(),
                *self == *old(self),
                j <= self.entries@.len(),
                forall|t: int| 0 <= t < j ==> (#[trigger] self.entries@[t]).0 != ino,
            decreases self.entries@.len() - j,
        {
            if self.entries[j].0 == ino {
                let ghost old_self = *self;
                proof {
                    assert forall|t: int| 0 <= t < self.entries@.len() && t != j implies (#[trigger] self.entries@[t]).0 != ino by {
                        if self.entries@[t].0 == ino {
                            assert(self.entries@[t].1@ == self.table@[ino]);
                        }
                    }
                }
                self.entries.remove(j);
                self.table = Ghost(self.table@.remove(ino));
                proof {
                    assert forall|i: u64| #[trigger] self.table@.contains_key(i) implies exists|k: int|
                        0 <= k < self.entries@.len() && (#[trigger] self.entries@[k]).0 == i by {
                        let k = choose|k: int| 0 <= k < old_self.entries@.len() && (#[trigger] old_self.entries@[k]).0 == i;
                        if k < j {
                            assert(self.entries@[k] == old_self.entries@[k]);
                        } else {
                            assert(self.entries@[k - 1] == old_self.entries@[k]);
                        }
                    }
                    assert forall|a: int, b: int|
                        0 <= a < self.entries@.len() && 0 <= b < self.entries@.len() && a != b implies (
                        #[trigger] self.entries@[a]).1@ != (#[trigger] self.entries@[b]).1@ by {
                        let oa = if a < j { a } else { a + 1 };
                        let ob = if b < j { b } else { b + 1 };
                        assert(self.entries@[a] == old_self.entries@[oa]);
                        assert(self.entries@[b] == old_self.entries@[ob]);
                    }
                    assert(self.next@ == old_self.next@);
                    assert forall|s: int| 0 <= s < DYNAMIC_KINDS implies #[trigger] self.counter(s) == old_self.counter(s) by {}
                    assert forall|i: u64| #[trigger] self.issued(i) == old_self.issued(i) by {
                        if self.issued(i) && node_of_fixed_inode(i) is None {
                            let s = choose|s: int| 0 <= s < DYNAMIC_KINDS && slot_base(s) <= i && i < #[trigger] self.counter(s);
                            assert(old_self.counter(s) == self.counter(s));
                        }
                        if old_self.issued(i) && node_of_fixed_inode(i) is None {
                            let s = choose|s: int| 0 <= s < DYNAMIC_KINDS && slot_base(s) <= i && i < #[trigger] old_self.counter(s);
                            assert(old_self.counter(s) == self.counter(s));
                        }
                    }
                    assert forall|i: u64| i != ino implies #[trigger] self.lookup_spec(i) == old_self.lookup_spec(i) by {
                        assert(self.table@.contains_key(i) == old_self.table@.contains_key(i));
                    }
                }
                return;
            }
            j += 1;
        }
        proof {
            if self.table@.contains_key(ino) {
                let t = choose|t: int| 0 <= t < self.entries@.len() && (#[trigger] self.entries@[t]).0 == ino;
                assert(self.entries@[t].0 != ino);
            }
        }
    }
}

/// A node is named by at most one inode.
pub proof fn law_one_inode_per_node(reg: InodeRegistry, i: u64, j: u64, n: NodeView)
    requires
        reg.wf(),
        reg.lookup_spec(i) == Some(n),
        reg.lookup_spec(j) == Some(n),
    ensures
        i == j,
{
    lemma_fixed_inode_round_trip(i, n);
    lemma_fixed_inode_round_trip(j, n);
    if node_of_fixed_inode(i) is None && node_of_fixed_inode(j) is None {
        let a = choose|a: int| 0 <= a < reg.entries@.len() && (#[trigger] reg.entries@[a]).0 == i;
        let b = choose|b: int| 0 <= b < reg.entries@.len() && (#[trigger] reg.entries@[b]).0 == j;
        assert(reg.entries@[a].1@ == n && reg.entries@[b].1@ == n);
    } else if node_of_fixed_inode(i) is None {
        reg.lemma_table_well_kinded(i);
    } else if node_of_fixed_inode(j) is None {
        reg.lemma_table_well_kinded(j);
    }
}

/// Interning a node that can be interned succeeds, and its inode then
/// names it.
pub proof fn law_intern_succeeds(before: InodeRegistry, after: InodeRegistry, node: NodeView, r: Option<u64>)
    requires
        after.interned_from(before, node, r),
        before.can_intern(node),
        !(node is NotFound),
    ensures
        r matches Some(i) && after.lookup_spec(i) == Some(node),
{
}

/// A node with a fixed inode is exactly the node that inode names.
pub proof fn lemma_fixed_inode_round_trip(ino: u64, n: NodeView)
    ensures
        fixed_inode_of(n) == Some(ino) <==> node_of_fixed_inode(ino) == Some(n),
{
}

/// Every node but the sentinel has either a fixed inode or an allocation slot.
pub proof fn lemma_every_node_has_an_inode_kind(n: NodeView)
    ensures
        fixed_inode_of(n) is Some || dynamic_slot_of(n) is Some || n is NotFound,
{
}

/// Interning then looking up gives the node back; an inode newly bound by
/// interning was never issued before, so a forgotten inode never reappears.
pub proof fn law_intern_then_lookup(
    before: InodeRegistry,
    after: InodeRegistry,
    node: NodeView,
    ino: u64,
    retired: u64,
)
    requires
        after.interned_from(before, node, Some(ino)),
        before.issued(retired),
        before.lookup_spec(retired) is None,
    ensures
        after.lookup_spec(ino) == Some(node),
        ino != retired,
{
}

} // verus!
