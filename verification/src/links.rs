//! The table of a drone's links to its neighbours.

use vstd::prelude::*;
use crate::error::{first_index, first_index_exists, position};
use crate::packet::{copy_ids, NodeId};

verus! {

/// `links` with a link to `id`, which is added at the end unless it is there.
pub open spec fn linked(links: Seq<NodeId>, id: NodeId) -> Seq<NodeId> {
    if links.contains(id) {
        links
    } else {
        links.push(id)
    }
}

/// `links` without the link to `id`.
pub open spec fn unlinked(links: Seq<NodeId>, id: NodeId) -> Seq<NodeId> {
    if links.contains(id) {
        links.remove(first_index(links, id))
    } else {
        links
    }
}

/// The link table that holds each of `ids` once, in the order of their first
/// occurrence.
pub open spec fn distinct(ids: Seq<NodeId>) -> Seq<NodeId>
    decreases ids.len(),
{
    if ids.len() == 0 {
        Seq::empty()
    } else {
        linked(distinct(ids.drop_last()), ids.last())
    }
}

/// Adding a link keeps the table free of repetitions, adds exactly `id` to
/// the neighbours and keeps whoever was there.
pub proof fn lemma_linked(links: Seq<NodeId>, id: NodeId)
    requires
        links.no_duplicates(),
    ensures
        linked(links, id).no_duplicates(),
        forall|n: NodeId| linked(links, id).contains(n) <==> (n == id || links.contains(n)),
{
    let after = linked(links, id);
    if !links.contains(id) {
        assert(after[links.len() as int] == id);
        assert forall|n: NodeId| links.contains(n) implies after.contains(n) by {
            let k = choose|k: int| 0 <= k < links.len() && links[k] == n;
            assert(after[k] == n);
        }
    }
}

/// Removing a link keeps the table free of repetitions, removes exactly `id`
/// from the neighbours and keeps everyone else.
pub proof fn lemma_unlinked(links: Seq<NodeId>, id: NodeId)
    requires
        links.no_duplicates(),
    ensures
        unlinked(links, id).no_duplicates(),
        forall|n: NodeId| unlinked(links, id).contains(n) <==> (n != id && links.contains(n)),
{
    let after = unlinked(links, id);
    if links.contains(id) {
        first_index_exists(links, id);
        let at = first_index(links, id);
        assert forall|n: NodeId| n != id && links.contains(n) implies after.contains(n) by {
            let k = choose|k: int| 0 <= k < links.len() && links[k] == n;
            if k < at {
                assert(after[k] == n);
            } else {
                assert(after[k - 1] == n);
            }
        }
        assert forall|n: NodeId| after.contains(n) implies n != id && links.contains(n) by {
            let k = choose|k: int| 0 <= k < after.len() && after[k] == n;
            if k < at {
                assert(links[k] == n);
            } else {
                assert(links[k + 1] == n);
            }
        }
    }
}

/// The table made of a list of neighbours holds no repetition and exactly
/// the neighbours of the list.
pub proof fn lemma_distinct(ids: Seq<NodeId>)
    ensures
        distinct(ids).no_duplicates(),
        forall|n: NodeId| distinct(ids).contains(n) <==> ids.contains(n),
    decreases ids.len(),
{
    if ids.len() > 0 {
        let front = ids.drop_last();
        lemma_distinct(front);
        lemma_linked(distinct(front), ids.last());
        assert forall|n: NodeId| ids.contains(n) implies n == ids.last() || front.contains(n) by {
            let k = choose|k: int| 0 <= k < ids.len() && ids[k] == n;
            if k < ids.len() - 1 {
                assert(front[k] == n);
            }
        }
        assert forall|n: NodeId| front.contains(n) implies ids.contains(n) by {
            let k = choose|k: int| 0 <= k < front.len() && front[k] == n;
            assert(ids[k] == n);
        }
        assert(ids[ids.len() - 1] == ids.last());
    }
}

/// The neighbours a drone may hand packets to, in the order in which their
/// links were added. No neighbour occurs twice.
pub struct LinkTable {
    ids: Vec<NodeId>,
}

impl View for LinkTable {
    type V = Seq<NodeId>;

    closed spec fn view(&self) -> Seq<NodeId> {
        self.ids@
    }
}

impl LinkTable {
    #[verifier::type_invariant]
    spec fn well_formed(&self) -> bool {
        self.ids@.no_duplicates()
    }

    /// The table that links each of `neighbours` once.
    pub fn new(neighbours: &Vec<NodeId>) -> (table: LinkTable)
        ensures
            table@ == distinct(neighbours@),
            table@.no_duplicates(),
    {
        let mut ids: Vec<NodeId> = Vec::new();
        let mut i: usize = 0;
        while i < neighbours.len()
            invariant
                i <= neighbours.len(),
                ids@ == distinct(neighbours@.take(i as int)),
                ids@.no_duplicates(),
            decreases neighbours.len() - i,
        {
            let neighbour = neighbours[i];
            proof {
                let next = neighbours@.take(i + 1);
                assert(next.drop_last() == neighbours@.take(i as int));
                assert(next.last() == neighbour);
                lemma_linked(ids@, neighbour);
            }
            if position(&ids, neighbour).is_none() {
                ids.push(neighbour);
            }
            i += 1;
        }
        assert(neighbours@.take(i as int) == neighbours@);
        LinkTable { ids }
    }

    /// Does nothing when it runs; its contract recalls that no neighbour is
    /// linked twice.
    pub fn no_repetition(&self)
        ensures
            self@.no_duplicates(),
    {
        proof {
            use_type_invariant(self);
        }
    }

    /// How many neighbours are linked.
    pub fn len(&self) -> (n: usize)
        ensures
            n == self@.len(),
            self@.no_duplicates(),
    {
        proof {
            use_type_invariant(self);
        }
        self.ids.len()
    }

    /// Whether `id` is linked.
    pub fn contains(&self, id: NodeId) -> (linked: bool)
        ensures
            linked == self@.contains(id),
            self@.no_duplicates(),
    {
        proof {
            use_type_invariant(self);
        }
        position(&self.ids, id).is_some()
    }

    /// The neighbours, in the order in which their links were added.
    pub fn ids(&self) -> (ids: Vec<NodeId>)
        ensures
            ids@ == self@,
            ids@.no_duplicates(),
    {
        proof {
            use_type_invariant(self);
        }
        copy_ids(&self.ids)
    }

    /// Links `id`, unless it is linked already.
    pub fn insert(&mut self, id: NodeId)
        ensures
            final(self)@ == linked(old(self)@, id),
            final(self)@.no_duplicates(),
    {
        proof {
            use_type_invariant(&*self);
            lemma_linked(self.ids@, id);
        }
        if position(&self.ids, id).is_none() {
            let mut ids = copy_ids(&self.ids);
            ids.push(id);
            self.ids = ids;
        }
    }

    /// Takes the link to `id` away, if there is one.
    pub fn remove(&mut self, id: NodeId)
        ensures
            final(self)@ == unlinked(old(self)@, id),
            final(self)@.no_duplicates(),
    {
        proof {
            use_type_invariant(&*self);
            lemma_unlinked(self.ids@, id);
        }
        if let Some(at) = position(&self.ids, id) {
            let mut ids = copy_ids(&self.ids);
            ids.remove(at);
            self.ids = ids;
        }
    }
}

} // verus!
