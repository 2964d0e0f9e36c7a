//! The connection registry: the set of currently-live connection identifiers.
//!
//! The registry is the system's sole shared mutable state. At runtime it is
//! paired, behind one exclusive section, with the map from identifier to the
//! outbound write channel; the verified registry carries the identifiers and
//! their lifecycle, which is everything the broadcast protocol decides on.

use vstd::prelude::*;

verus! {

/// The currently-registered connection identifiers, in registration order.
///
/// Invariant: at most one entry per identifier — an identifier is present
/// exactly while its connection is considered live.
pub struct Registry {
    ids: Vec<u16>,
}

impl Registry {
    /// The registered identifiers, in registration order.
    pub closed spec fn ids(&self) -> Seq<u16> {
        self.ids@
    }

    /// Well-formed: no identifier occurs twice.
    pub open spec fn wf(&self) -> bool {
        forall|i: int, j: int|
            0 <= i < j < self.ids().len() ==> self.ids()[i] != self.ids()[j]
    }

    /// Creates an empty registry: no connection is live.
    pub fn new() -> (r: Registry)
        ensures
            r.ids() == Seq::<u16>::empty(),
            r.wf(),
    {
        Registry { ids: Vec::new() }
    }

    /// The number of live connections.
    pub fn len(&self) -> (n: usize)
        ensures
            n == self.ids().len(),
    {
        self.ids.len()
    }

    /// The identifier at position `i` of the registration order.
    pub fn id_at(&self, i: usize) -> (id: u16)
        requires
            i < self.ids().len(),
        ensures
            id == self.ids()[i as int],
    {
        self.ids[i]
    }

    /// Whether connection `id` is currently live.
    pub fn contains(&self, id: u16) -> (present: bool)
        ensures
            present == self.ids().contains(id),
    {
        let mut i: usize = 0;
        while i < self.ids.len()
            invariant
                i <= self.ids().len(),
                forall|k: int| 0 <= k < i ==> self.ids()[k] != id,
            decreases self.ids().len() - i,
        {
            if self.ids[i] == id {
                assert(self.ids().contains(id)) by {
                    assert(self.ids()[i as int] == id);
                }
                return true;
            }
            i = i + 1;
        }
        false
    }

    /// Registers connection `id`: inserts an entry for it.
    ///
    /// The identifier source is expected to keep identifiers unique among
    /// live connections; a colliding `id` leaves the entry in place (the
    /// runtime shell then replaces the channel stored under it), so the set
    /// of live identifiers gains `id` either way.
    pub fn register(&mut self, id: u16)
        requires
            old(self).wf(),
        ensures
            final(self).wf(),
            final(self).ids().contains(id),
            !old(self).ids().contains(id) ==> final(self).ids() == old(self).ids().push(id),
            old(self).ids().contains(id) ==> final(self).ids() == old(self).ids(),
    {
        if !self.contains(id) {
            let ghost pre: Seq<u16> = self.ids();
            self.ids.push(id);
            proof {
                assert forall|i: int, j: int|
                    0 <= i < j < self.ids().len() implies self.ids()[i] != self.ids()[j] by {
                    if j == pre.len() {
                        assert(self.ids()[i] == pre[i]);
                        if pre[i] == id {
                            assert(pre.contains(id));
                        }
                    }
                }
                assert(self.ids()[pre.len() as int] == id);
                assert(self.ids().contains(id));
            }
        }
    }

    /// Deregisters connection `id`: removes its entry if present, and is a
    /// no-op (not an error) if absent.
    pub fn deregister(&mut self, id: u16)
        requires
            old(self).wf(),
        ensures
            final(self).wf(),
            !final(self).ids().contains(id),
            forall|x: u16|
                x != id ==> final(self).ids().contains(x) == old(self).ids().contains(x),
            !old(self).ids().contains(id) ==> final(self).ids() == old(self).ids(),
            old(self).ids().contains(id) ==> (exists|k: int|
                0 <= k < old(self).ids().len()
                    && old(self).ids()[k] == id
                    && final(self).ids() == old(self).ids().remove(k)),
    {
        let ghost pre: Seq<u16> = self.ids();
        let mut i: usize = 0;
        while i < self.ids.len()
            invariant
                self.ids() == pre,
                pre == old(self).ids(),
                old(self).wf(),
                i <= pre.len(),
                forall|k: int| 0 <= k < i ==> pre[k] != id,
            decreases pre.len() - i,
        {
            if self.ids[i] == id {
                let ghost k: int = i as int;
                self.ids.remove(i);
                proof {
                    assert(self.ids() == pre.remove(k));
                    Self::lemma_remove_unique(pre, k, id);
                    assert(pre.contains(id)) by {
                        assert(pre[k] == id);
                    }
                }
                return;
            }
            i = i + 1;
        }
        proof {
            if pre.contains(id) {
                let k = choose|k: int| 0 <= k < pre.len() && pre[k] == id;
                assert(false);
            }
        }
    }

    /// Removing the one position holding `id` from a duplicate-free sequence
    /// leaves a duplicate-free sequence without `id`, and keeps every other
    /// identifier's membership.
    proof fn lemma_remove_unique(pre: Seq<u16>, k: int, id: u16)
        requires
            forall|i: int, j: int| 0 <= i < j < pre.len() ==> pre[i] != pre[j],
            0 <= k < pre.len(),
            pre[k] == id,
        ensures
            forall|i: int, j: int|
                0 <= i < j < pre.remove(k).len() ==> pre.remove(k)[i] != pre.remove(k)[j],
            !pre.remove(k).contains(id),
            forall|x: u16| x != id ==> pre.remove(k).contains(x) == pre.contains(x),
    {
        let post = pre.remove(k);
        assert forall|i: int, j: int|
            0 <= i < j < post.len() implies post[i] != post[j] by {
            let pi: int = if i < k { i } else { i + 1 };
            let pj: int = if j < k { j } else { j + 1 };
            assert(post[i] == pre[pi]);
            assert(post[j] == pre[pj]);
        }
        assert forall|i: int| 0 <= i < post.len() implies post[i] != id by {
            let pi: int = if i < k { i } else { i + 1 };
            assert(post[i] == pre[pi]);
        }
        if post.contains(id) {
            let w = choose|w: int| 0 <= w < post.len() && post[w] == id;
            assert(false);
        }
        assert forall|x: u16| x != id implies post.contains(x) == pre.contains(x) by {
            if pre.contains(x) {
                let w = choose|w: int| 0 <= w < pre.len() && pre[w] == x;
                let v: int = if w < k { w } else { w - 1 };
                assert(post[v] == pre[w]);
                assert(post.contains(x));
            }
            if post.contains(x) {
                let w = choose|w: int| 0 <= w < post.len() && post[w] == x;
                let v: int = if w < k { w } else { w + 1 };
                assert(pre[v] == post[w]);
                assert(pre.contains(x));
            }
        }
    }
}

} // verus!
