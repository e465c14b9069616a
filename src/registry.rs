//! The registry of one call site: one store for each type identity, created
//! on first use and kept from then on.
use core::any::TypeId;
use vstd::prelude::*;

verus! {

/// std's `TypeId`, carried as an opaque identity of a (key type, value type)
/// pair; it is only ever compared, through `same_identity`.
#[verifier::external_type_specification]
#[verifier::external_body]
pub struct ExTypeId(TypeId);

/// Relies on `TypeId`'s `==`: two type identities compare equal exactly when
/// they are the same identity.
#[verifier::external_body]
fn same_identity(a: &TypeId, b: &TypeId) -> (r: bool)
    ensures
        r == (*a == *b),
{
    *a == *b
}

/// The stores of one call site, each under the type identity of the (key
/// type, value type) pair it serves. `S` is the type the stores are held as.
pub struct CallSiteRegistry<S> {
    ids: Vec<TypeId>,
    stores: Vec<S>,
}

impl<S> CallSiteRegistry<S> {
    /// The type identities, in the order their stores were created.
    pub closed spec fn identities(&self) -> Seq<TypeId> {
        self.ids@
    }

    /// The stores; the one at position `i` serves `identities()[i]`.
    pub closed spec fn stores(&self) -> Seq<S> {
        self.stores@
    }

    /// One store per identity, and no identity twice.
    pub open spec fn wf(&self) -> bool {
        &&& self.identities().len() == self.stores().len()
        &&& self.identities().no_duplicates()
    }

    /// The store kept for `id`, if one was created.
    pub open spec fn store_of(&self, id: TypeId) -> Option<S> {
        if self.identities().contains(id) {
            Some(self.stores()[self.identities().index_of(id)])
        } else {
            None
        }
    }

    /// A registry with no store yet.
    pub fn new() -> (r: Self)
        ensures
            r.wf(),
            r.identities() == Seq::<TypeId>::empty(),
            r.stores() == Seq::<S>::empty(),
    {
        CallSiteRegistry { ids: Vec::new(), stores: Vec::new() }
    }

    /// The number of stores created so far.
    pub fn len(&self) -> (r: usize)
        requires
            self.wf(),
        ensures
            r == self.stores().len(),
    {
        self.stores.len()
    }

    /// The position of the store for `id`, if there is one.
    fn position(&self, id: &TypeId) -> (r: Option<usize>)
        requires
            self.wf(),
        ensures
            match r {
                Some(i) => i < self.identities().len() && self.identities()[i as int] == *id,
                None => !self.identities().contains(*id),
            },
    {
        let mut i: usize = 0;
        while i < self.ids.len()
            invariant
                self.wf(),
                i <= self.ids@.len(),
                forall|j: int| 0 <= j < i ==> self.ids@[j] != *id,
            decreases self.ids@.len() - i,
        {
            if same_identity(&self.ids[i], id) {
                return Some(i);
            }
            i = i + 1;
        }
        None
    }

    /// The position of the store for `id`, which `init` creates when there is
    /// none yet; an existing store is never replaced and `init` is then not
    /// called.
    pub fn resolve<F: FnOnce() -> S>(&mut self, id: TypeId, init: F) -> (i: usize)
        requires
            old(self).wf(),
            !old(self).identities().contains(id) ==> init.requires(()),
        ensures
            final(self).wf(),
            i < final(self).stores().len(),
            final(self).identities()[i as int] == id,
            old(self).identities().contains(id) ==> *final(self) == *old(self),
            !old(self).identities().contains(id) ==> {
                &&& i == old(self).stores().len()
                &&& final(self).identities() == old(self).identities().push(id)
                &&& final(self).stores() == old(self).stores().push(final(self).stores()[i as int])
                &&& init.ensures((), final(self).stores()[i as int])
            },
    {
        match self.position(&id) {
            Some(i) => i,
            None => {
                let store = init();
                let i = self.stores.len();
                self.ids.push(id);
                self.stores.push(store);
                proof {
                    assert(self.ids@.no_duplicates()) by {
                        assert forall|a: int, b: int|
                            0 <= a < self.ids@.len() && 0 <= b < self.ids@.len() && a != b implies
                            self.ids@[a] != self.ids@[b] by {
                            if a == i || b == i {
                                assert(!old(self).ids@.contains(id));
                            }
                        }
                    }
                }
                i
            },
        }
    }

    /// The store at position `i`, to read or change in place.
    pub fn store_mut(&mut self, i: usize) -> (r: &mut S)
        requires
            old(self).wf(),
            i < old(self).stores().len(),
        ensures
            *r == old(self).stores()[i as int],
            final(self).identities() == old(self).identities(),
            final(self).stores() == old(self).stores().update(i as int, *final(r)),
    {
        &mut self.stores[i]
    }
}

} // verus!
