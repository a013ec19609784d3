//! The outlet registry: the fixed, ordered collection of outlets, built once
//! at startup and mutated only through the controller.

use vstd::prelude::*;

use crate::outlet::{has_id, set_active_at, unique_ids, Outlet};

verus! {

/// The in-memory mirror of the relay board: a fixed-size ordered sequence of
/// outlets.  Identifiers are unique and immutable for the life of the
/// process; only the cached `active` flags ever change.
pub struct Registry {
    outlets: Vec<Outlet>,
}

impl View for Registry {
    type V = Seq<Outlet>;

    closed spec fn view(&self) -> Seq<Outlet> {
        self.outlets@
    }
}

impl Registry {
    /// Well-formed: no two outlets share an identifier, so lookup by id is
    /// unambiguous.
    pub open spec fn wf(&self) -> bool {
        unique_ids(self@)
    }

    /// Builds the registry from parallel lists of pin assignments and initial
    /// cached states; identifiers are assigned in declaration order starting
    /// at zero.
    pub fn from_states(pins: &Vec<u8>, states: &Vec<bool>) -> (r: Registry)
        requires
            pins@.len() == states@.len(),
        ensures
            r.wf(),
            r@.len() == pins@.len(),
            forall|i: int|
                0 <= i < r@.len() ==> r@[i] == (Outlet {
                    id: i as usize,
                    pin: pins@[i],
                    active: states@[i],
                }),
    {
        let mut outlets: Vec<Outlet> = Vec::new();
        let mut i: usize = 0;
        while i < pins.len()
            invariant
                i <= pins@.len(),
                pins@.len() == states@.len(),
                outlets@.len() == i as int,
                forall|j: int|
                    0 <= j < i as int ==> outlets@[j] == (Outlet {
                        id: j as usize,
                        pin: pins@[j],
                        active: states@[j],
                    }),
            decreases pins@.len() - i,
        {
            outlets.push(Outlet { id: i, pin: pins[i], active: states[i] });
            i += 1;
        }
        proof {
            assert forall|p: int, q: int| 0 <= p < q < outlets@.len() implies outlets@[p].id
                != outlets@[q].id by {
                assert(outlets@[p].id == p as usize);
                assert(outlets@[q].id == q as usize);
            }
        }
        Registry { outlets }
    }

    /// The number of outlets on the board.
    pub fn len(&self) -> (r: usize)
        ensures
            r == self@.len(),
    {
        self.outlets.len()
    }

    /// A read-consistent snapshot of every outlet, in registry order.
    pub fn list(&self) -> (r: Vec<Outlet>)
        ensures
            r@ == self@,
    {
        let mut out: Vec<Outlet> = Vec::new();
        let mut i: usize = 0;
        while i < self.outlets.len()
            invariant
                i <= self@.len(),
                out@ =~= self@.subrange(0, i as int),
            decreases self@.len() - i,
        {
            out.push(self.outlets[i]);
            i += 1;
        }
        proof {
            assert(out@ =~= self@);
        }
        out
    }

    /// The outlet at a known position.
    pub fn at(&self, idx: usize) -> (r: Outlet)
        requires
            idx < self@.len(),
        ensures
            r == self@[idx as int],
    {
        self.outlets[idx]
    }

    /// The position of the outlet carrying identifier `id`, or `None` when no
    /// outlet has that identifier.  A linear scan: the board is small and
    /// fixed.
    pub fn find_index(&self, id: usize) -> (r: Option<usize>)
        ensures
            match r {
                Some(i) => i < self@.len() && self@[i as int].id == id,
                None => !has_id(self@, id),
            },
    {
        let mut i: usize = 0;
        while i < self.outlets.len()
            invariant
                i <= self@.len(),
                forall|j: int| 0 <= j < i as int ==> self@[j].id != id,
            decreases self@.len() - i,
        {
            if self.outlets[i].id == id {
                return Some(i);
            }
            i += 1;
        }
        None
    }

    /// Runtime check of `wf`, so an unverified caller can establish the
    /// precondition of the verified operations before using a registry.
    pub fn check_wf(&self) -> (r: bool)
        ensures
            r == self.wf(),
    {
        let n = self.outlets.len();
        let mut i: usize = 0;
        while i < n
            invariant
                i <= n,
                n == self@.len(),
                forall|p: int, q: int| 0 <= p < q < self@.len() && p < i as int ==> self@[p].id != self@[q].id,
            decreases n - i,
        {
            let mut j: usize = i + 1;
            while j < n
                invariant
                    i < j <= n,
                    n == self@.len(),
                    forall|q: int| (i as int) < q < (j as int) ==> self@[i as int].id != self@[q].id,
                decreases n - j,
            {
                if self.outlets[i].id == self.outlets[j].id {
                    return false;
                }
                j += 1;
            }
            i += 1;
        }
        true
    }

    /// Sets the cached flag of the outlet at `idx`.  This is the only path by
    /// which the registry's contents change after construction.
    pub fn set_active_index(&mut self, idx: usize, desired: bool)
        requires
            idx < old(self)@.len(),
        ensures
            final(self)@ == set_active_at(old(self)@, idx as int, desired),
            old(self).wf() ==> final(self).wf(),
    {
        let o = self.outlets[idx];
        self.outlets[idx] = Outlet { id: o.id, pin: o.pin, active: desired };
        proof {
            crate::outlet::lemma_set_active_preserves_shape(old(self)@, idx as int, desired);
        }
    }
}

} // verus!
