use vstd::prelude::*;
use crate::call::{Call, CallView};
use crate::call_id::CallId;

verus! {

/// The calls in progress, at most one per call id.
pub struct CallRegistry {
    calls: Vec<Call>,
}

/// Whether `v` holds a call with identifier `id`.
pub open spec fn holds_id(v: Seq<CallView>, id: CallId) -> bool {
    exists|i: int| 0 <= i < v.len() && (#[trigger] v[i]).call_id == id
}

impl View for CallRegistry {
    type V = Seq<CallView>;

    closed spec fn view(&self) -> Seq<CallView> {
        self.calls@.map_values(|c: Call| c@)
    }
}

impl CallRegistry {
    /// Each call is well formed and no two share an identifier.
    pub closed spec fn wf(&self) -> bool {
        &&& forall|i: int| 0 <= i < self.calls@.len() ==> (#[trigger] self.calls@[i]).wf()
        &&& forall|i: int, j: int|
            0 <= i < self.calls@.len() && 0 <= j < self.calls@.len() && i != j
                ==> #[trigger] self.calls@[i]@.call_id != #[trigger] self.calls@[j]@.call_id
    }

    pub fn new() -> (r: CallRegistry)
        ensures
            r.wf(),
            r@.len() == 0,
    {
        let r = CallRegistry { calls: Vec::new() };
        assert(r@ =~= Seq::<CallView>::empty());
        r
    }

    /// Position of the call with identifier `id`.
    fn position(&self, id: CallId) -> (r: Option<usize>)
        ensures
            r is Some ==> r->0 < self@.len() && self@[r->0 as int].call_id == id,
            r is None ==> !holds_id(self@, id),
    {
        let mut i: usize = 0;
        while i < self.calls.len()
            invariant
                0 <= i <= self.calls@.len(),
                forall|j: int| 0 <= j < i ==> (#[trigger] self.calls@[j])@.call_id != id,
            decreases self.calls@.len() - i,
        {
            if self.calls[i].call_id() == id {
                return Some(i);
            }
            i += 1;
        }
        proof {
            assert forall|j: int| 0 <= j < self@.len() implies (#[trigger] self@[j]).call_id != id by {
                assert(self@[j] == self.calls@[j]@);
            }
        }
        None
    }

    /// Whether a call with identifier `id` is held.
    pub fn contains(&self, id: CallId) -> (r: bool)
        ensures
            r == holds_id(self@, id),
    {
        self.position(id).is_some()
    }

    /// Adds `call`, unless a call with the same identifier is already held:
    /// that collision hands `call` back untouched.
    pub fn insert(&mut self, call: Call) -> (r: Result<(), Call>)
        requires
            old(self).wf(),
            call.wf(),
        ensures
            final(self).wf(),
            holds_id(old(self)@, call@.call_id) ==> r is Err && r->Err_0@ == call@ && final(self)@
                == old(self)@,
            !holds_id(old(self)@, call@.call_id) ==> r is Ok && final(self)@ == old(self)@.push(
                call@,
            ),
    {
        match self.position(call.call_id()) {
            Some(_) => Err(call),
            None => {
                let ghost id = call@.call_id;
                proof {
                    assert forall|j: int| 0 <= j < self.calls@.len() implies (#[trigger] self.calls@[j])@.call_id != id by {
                        assert(self@[j] == self.calls@[j]@);
                    }
                }
                self.calls.push(call);
                proof {
                    assert(self@ =~= old(self)@.push(call@));
                }
                Ok(())
            },
        }
    }

    /// The call with identifier `id`, if held.
    pub fn get(&self, id: CallId) -> (r: Option<&Call>)
        requires
            self.wf(),
        ensures
            r is Some ==> r->0.wf() && r->0@.call_id == id && exists|i: int|
                0 <= i < self@.len() && self@[i] == r->0@,
            r is None ==> !holds_id(self@, id),
    {
        match self.position(id) {
            Some(i) => Some(&self.calls[i]),
            None => None,
        }
    }

    /// Takes out the call with identifier `id`, if held.
    pub fn remove(&mut self, id: CallId) -> (r: Option<Call>)
        requires
            old(self).wf(),
        ensures
            final(self).wf(),
            r is Some ==> r->0.wf() && r->0@.call_id == id && exists|i: int|
                0 <= i < old(self)@.len() && old(self)@[i] == r->0@ && final(self)@ == old(
                    self,
                )@.remove(i),
            r is None ==> !holds_id(old(self)@, id) && final(self)@ == old(self)@,
            !holds_id(final(self)@, id),
    {
        match self.position(id) {
            Some(i) => {
                let c = self.calls.remove(i);
                proof {
                    assert(self@ =~= old(self)@.remove(i as int));
                    assert forall|j: int| 0 <= j < self@.len() implies (#[trigger] self@[j]).call_id != id by {
                        if j < i {
                            assert(self@[j] == old(self)@[j]);
                        } else {
                            assert(self@[j] == old(self)@[j + 1]);
                        }
                    }
                }
                Some(c)
            },
            None => None,
        }
    }

    /// The number of calls held.
    pub fn len(&self) -> (r: usize)
        ensures
            r == self@.len(),
    {
        self.calls.len()
    }
}

} // verus!
