use vstd::prelude::*;
use std::collections::HashMap;

verus! {

/// The callbacks of the scripts' asynchronous requests, each under the number its request
/// was given; the requests themselves are run elsewhere.
pub struct LuaHttp<K> {
    callbacks: HashMap<i64, K>,
    next_id: i64,
}

impl<K> LuaHttp<K> {
    /// The callbacks waiting for their request, by request number.
    pub closed spec fn waiting(&self) -> Map<i64, K> {
        self.callbacks@
    }

    /// The number the next request gets.
    pub closed spec fn next_id_spec(&self) -> i64 {
        self.next_id
    }

    /// Every waiting callback has a number below the next one, and numbers start at 0.
    pub open spec fn wf(&self) -> bool {
        &&& 0 <= self.next_id_spec()
        &&& forall|id: i64| #[trigger] self.waiting().contains_key(id) ==> id < self.next_id_spec()
    }

    /// No request made yet.
    pub fn new() -> (h: Self)
        ensures
            h.wf(),
            h.waiting() == Map::<i64, K>::empty(),
            h.next_id_spec() == 0,
    {
        LuaHttp { callbacks: HashMap::new(), next_id: 0 }
    }

    /// Records the callback of a new request and returns the request's number.
    pub fn register(&mut self, callback: K) -> (id: i64)
        requires
            old(self).wf(),
            old(self).next_id_spec() < i64::MAX,
        ensures
            final(self).wf(),
            id == old(self).next_id_spec(),
            !old(self).waiting().contains_key(id),
            final(self).waiting() == old(self).waiting().insert(id, callback),
            final(self).next_id_spec() == old(self).next_id_spec() + 1,
    {
        broadcast use vstd::std_specs::hash::group_hash_axioms;

        let id = self.next_id;
        self.callbacks.insert(id, callback);
        self.next_id = self.next_id + 1;
        assert forall|k: i64| #[trigger] self.waiting().contains_key(k) implies k
            < self.next_id_spec() by {
            if k != id {
                assert(old(self).waiting().contains_key(k));
            }
        }
        id
    }

    /// Hands out the callback of the finished request `id`, once: it is no longer waiting
    /// afterwards.
    pub fn take_callback(&mut self, id: i64) -> (cb: Option<K>)
        requires
            old(self).wf(),
        ensures
            final(self).wf(),
            cb == old(self).waiting().get(id),
            final(self).waiting() == old(self).waiting().remove(id),
            final(self).next_id_spec() == old(self).next_id_spec(),
    {
        broadcast use vstd::std_specs::hash::group_hash_axioms;

        self.callbacks.remove(&id)
    }
}

/// Each callback is handed out exactly once: right after it was registered it is waiting
/// under its own number, and once taken it is no longer waiting; registering never
/// replaces a waiting callback.
pub proof fn law_callback_handed_out_once<K>(waiting: Map<i64, K>, next_id: i64, cb: K)
    requires
        forall|id: i64| #[trigger] waiting.contains_key(id) ==> id < next_id,
    ensures
        !waiting.contains_key(next_id),
        waiting.insert(next_id, cb).get(next_id) == Some(cb),
        waiting.insert(next_id, cb).remove(next_id).get(next_id) is None,
        waiting.insert(next_id, cb).remove(next_id) == waiting,
{
    assert(waiting.insert(next_id, cb).remove(next_id) =~= waiting);
}

} // verus!
