//! The listeners for model updates and the flags that stop them.

use crate::maps::{tokens, tokens_get, tokens_insert, tokens_keys, tokens_new, tokens_remove};
use dashmap::DashMap;
use vstd::prelude::*;

verus! {

/// The listeners that are registered. Each is given a flag when it registers; a flag outlives its
/// registration, so that a listener that still runs can see that it was stopped.
pub struct ModelListeners {
    /// Which flag each registered receiver has.
    pub flags: DashMap<u128, u64>,
    /// Whether each flag is set, by its number.
    pub stopping: Vec<bool>,
}

/// A listener's hold on its flag.
#[derive(Clone, Copy, Debug, PartialEq, Eq, Structural)]
pub struct ModelListenerHandle {
    pub receiver_id: u128,
    pub flag: u64,
}

impl ModelListeners {
    /// Flags are numbers of flags that exist, and no two receivers have the same one.
    pub open spec fn wf(self) -> bool {
        &&& forall|id: u128| #[trigger]
            tokens(self.flags).contains_key(id) ==> tokens(self.flags)[id] < self.stopping@.len()
        &&& forall|a: u128, b: u128|
            #![trigger tokens(self.flags)[a], tokens(self.flags)[b]]
            tokens(self.flags).contains_key(a) && tokens(self.flags).contains_key(b)
                && tokens(self.flags)[a] == tokens(self.flags)[b] ==> a == b
    }

    /// Whether a receiver is registered.
    pub open spec fn registered(self, id: u128) -> bool {
        tokens(self.flags).contains_key(id)
    }

    /// Whether the flag of a handle is set.
    pub open spec fn stops(self, handle: ModelListenerHandle) -> bool {
        self.stopping@[handle.flag as int]
    }

    /// Whether a handle holds a flag that exists.
    pub open spec fn knows(self, handle: ModelListenerHandle) -> bool {
        handle.flag < self.stopping@.len()
    }

    /// Whether the handle's flag is the one that its receiver has now.
    pub open spec fn current(self, handle: ModelListenerHandle) -> bool {
        self.registered(handle.receiver_id) && tokens(self.flags)[handle.receiver_id] == handle.flag
    }

    pub fn new() -> (r: Self)
        ensures
            r.wf(),
            forall|id: u128| !r.registered(id),
    {
        ModelListeners { flags: tokens_new(), stopping: Vec::new() }
    }

    /// What registering a receiver leads to: its registration is kept, or it is given a flag of its
    /// own; either way the flag is clear.
    pub open spec fn registers(self, after: Self, receiver_id: u128, r: ModelListenerHandle) -> bool {
        &&& r.receiver_id == receiver_id
        &&& after.current(r)
        &&& after.knows(r)
        &&& !after.stops(r)
        &&& if self.registered(receiver_id) {
            &&& self.current(r)
            &&& tokens(after.flags) == tokens(self.flags)
            &&& after.stopping@ == self.stopping@.update(r.flag as int, false)
        } else {
            &&& !self.knows(r)
            &&& tokens(after.flags) == tokens(self.flags).insert(receiver_id, r.flag)
            &&& after.stopping@ == self.stopping@.push(false)
        }
    }

    /// Registers a receiver, or keeps its registration, and clears its flag.
    pub fn register_model_listener(&mut self, receiver_id: u128) -> (r: ModelListenerHandle)
        requires
            old(self).wf(),
        ensures
            final(self).wf(),
            old(self).registers(*final(self), receiver_id, r),
    {
        let flags: usize = self.stopping.len();
        match tokens_get(&self.flags, receiver_id) {
            Some(flag) => {
                proof {
                    assert(flag < flags);
                }
                self.stopping.set(flag as usize, false);
                ModelListenerHandle { receiver_id, flag }
            },
            None => {
                let flag: u64 = flags as u64;
                self.stopping.push(false);
                tokens_insert(&mut self.flags, receiver_id, flag);
                ModelListenerHandle { receiver_id, flag }
            },
        }
    }

    /// Sets the flag of a receiver, if it is registered.
    pub fn stop_model_listener(&mut self, receiver_id: u128)
        requires
            old(self).wf(),
        ensures
            final(self).wf(),
            tokens(final(self).flags) == tokens(old(self).flags),
            final(self).stopping@ == (if old(self).registered(receiver_id) {
                old(self).stopping@.update(tokens(old(self).flags)[receiver_id] as int, true)
            } else {
                old(self).stopping@
            }),
    {
        let flags: usize = self.stopping.len();
        if let Some(flag) = tokens_get(&self.flags, receiver_id) {
            proof {
                assert(flag < flags);
            }
            self.stopping.set(flag as usize, true);
        }
    }

    /// Forgets a receiver.
    pub fn unregister_model_listener(&mut self, receiver_id: u128)
        requires
            old(self).wf(),
        ensures
            final(self).wf(),
            tokens(final(self).flags) == tokens(old(self).flags).remove(receiver_id),
            final(self).stopping@ == old(self).stopping@,
    {
        tokens_remove(&mut self.flags, receiver_id);
    }

    /// Forgets the receiver of a handle, unless it has registered anew since.
    pub fn drop_handle(&mut self, handle: ModelListenerHandle)
        requires
            old(self).wf(),
        ensures
            final(self).wf(),
            tokens(final(self).flags) == (if old(self).current(handle) {
                tokens(old(self).flags).remove(handle.receiver_id)
            } else {
                tokens(old(self).flags)
            }),
            final(self).stopping@ == old(self).stopping@,
    {
        if let Some(flag) = tokens_get(&self.flags, handle.receiver_id) {
            if flag == handle.flag {
                tokens_remove(&mut self.flags, handle.receiver_id);
            }
        }
    }

    /// Whether the listener of a handle is to stop.
    pub fn is_stopping(&self, handle: &ModelListenerHandle) -> (r: bool)
        requires
            self.knows(*handle),
        ensures
            r == self.stops(*handle),
    {
        let flags: usize = self.stopping.len();
        proof {
            assert(handle.flag < flags);
        }
        self.stopping[handle.flag as usize]
    }

    /// What stopping all receivers leads to: the flags of those that are registered are set, and
    /// no others.
    pub open spec fn stops_all(self, after: Self) -> bool {
        &&& tokens(after.flags) == tokens(self.flags)
        &&& after.stopping@.len() == self.stopping@.len()
        &&& forall|f: int|
            #![trigger after.stopping@[f]]
            0 <= f < self.stopping@.len() ==> after.stopping@[f] == (self.stopping@[f] || exists|
                id: u128,
            |
                self.registered(id) && #[trigger] tokens(self.flags)[id] == f)
    }

    /// Sets the flags of all receivers that are registered, and no others.
    pub fn stop_all(&mut self)
        requires
            old(self).wf(),
        ensures
            final(self).wf(),
            old(self).stops_all(*final(self)),
    {
        let receivers = tokens_keys(&self.flags);
        let mut i: usize = 0;
        while i < receivers.len()
            invariant
                i <= receivers@.len(),
                self.wf(),
                tokens(self.flags) == tokens(old(self).flags),
                self.stopping@.len() == old(self).stopping@.len(),
                forall|id: u128| #[trigger] receivers@.contains(id) <==> old(self).registered(id),
                forall|f: int|
                    #![trigger self.stopping@[f]]
                    0 <= f < old(self).stopping@.len() ==> self.stopping@[f] == (
                    old(self).stopping@[f] || exists|k: int|
                        0 <= k < i && tokens(old(self).flags)[#[trigger] receivers@[k]] == f),
            decreases receivers@.len() - i,
        {
            let ghost before = self.stopping@;
            let flags: usize = self.stopping.len();
            proof {
                assert(receivers@.contains(receivers@[i as int]));
            }
            if let Some(flag) = tokens_get(&self.flags, receivers[i]) {
                proof {
                    assert(flag < flags);
                }
                self.stopping.set(flag as usize, true);
            }
            proof {
                assert forall|f: int|
                    #![trigger self.stopping@[f]]
                    0 <= f < old(self).stopping@.len() implies self.stopping@[f] == (
                    old(self).stopping@[f] || exists|k: int|
                        0 <= k < i + 1 && tokens(old(self).flags)[#[trigger] receivers@[k]] == f) by {
                    if tokens(old(self).flags)[receivers@[i as int]] == f {
                        assert(self.stopping@[f]);
                    } else {
                        assert(self.stopping@[f] == before[f]);
                    }
                }
            }
            i = i + 1;
        }
        proof {
            assert forall|f: int|
                #![trigger self.stopping@[f]]
                0 <= f < old(self).stopping@.len() implies self.stopping@[f] == (
                old(self).stopping@[f] || exists|id: u128|
                    old(self).registered(id) && #[trigger] tokens(old(self).flags)[id] == f) by {
                if exists|k: int|
                    0 <= k < i && tokens(old(self).flags)[#[trigger] receivers@[k]] == f {
                    let k = choose|k: int|
                        0 <= k < i && tokens(old(self).flags)[#[trigger] receivers@[k]] == f;
                    assert(receivers@.contains(receivers@[k]));
                    assert(old(self).registered(receivers@[k]));
                }
                if exists|id: u128|
                    old(self).registered(id) && #[trigger] tokens(old(self).flags)[id] == f {
                    let id = choose|id: u128|
                        old(self).registered(id) && #[trigger] tokens(old(self).flags)[id] == f;
                    assert(receivers@.contains(id));
                    let k = choose|k: int| 0 <= k < receivers@.len() && receivers@[k] == id;
                    assert(tokens(old(self).flags)[receivers@[k]] == f);
                }
            }
        }
    }
}

/// Stopping all receivers stops each that is registered, and keeps its registration.
pub proof fn law_each_registered_listener_is_stopped(
    before: ModelListeners,
    after: ModelListeners,
    handle: ModelListenerHandle,
)
    requires
        before.wf(),
        before.stops_all(after),
        before.current(handle),
    ensures
        after.current(handle),
        after.knows(handle),
        after.stops(handle),
{
    assert(before.registered(handle.receiver_id) && tokens(before.flags)[handle.receiver_id]
        == handle.flag);
    assert(after.stopping@[handle.flag as int]);
}

/// A receiver that registers has a clear flag that is its own; its registration and its flag stay
/// what they were if it had one, and no other receiver's change.
pub proof fn law_registered_listeners_run(
    before: ModelListeners,
    after: ModelListeners,
    receiver_id: u128,
    r: ModelListenerHandle,
    other: u128,
)
    requires
        before.wf(),
        before.registers(after, receiver_id, r),
        other != receiver_id,
    ensures
        r.receiver_id == receiver_id,
        after.registered(receiver_id),
        tokens(after.flags)[receiver_id] == r.flag,
        r.flag < after.stopping@.len() && !after.stopping@[r.flag as int],
        before.registered(receiver_id) ==> r.flag == tokens(before.flags)[receiver_id],
        after.registered(other) <==> before.registered(other),
        before.registered(other) ==> tokens(after.flags)[other] == tokens(before.flags)[other]
            && tokens(after.flags)[other] != r.flag && after.stopping@[tokens(
            after.flags,
        )[other] as int] == before.stopping@[tokens(before.flags)[other] as int],
{
    if before.registered(other) {
        assert(tokens(before.flags).contains_key(other));
        if before.registered(receiver_id) {
            assert(tokens(before.flags)[receiver_id] != tokens(before.flags)[other]);
        }
    }
}

/// Stopping all receivers clears no flag, sets none of a receiver that is not registered, and keeps
/// every registration.
pub proof fn law_only_registered_listeners_are_stopped(
    before: ModelListeners,
    after: ModelListeners,
    flag: int,
    id: u128,
)
    requires
        before.stops_all(after),
        0 <= flag < before.stopping@.len(),
    ensures
        before.stopping@[flag] ==> after.stopping@[flag],
        before.registered(id) && tokens(before.flags)[id] == flag ==> after.stopping@[flag],
        (forall|other: u128|
            before.registered(other) ==> #[trigger] tokens(before.flags)[other] != flag)
            ==> after.stopping@[flag] == before.stopping@[flag],
        after.registered(id) <==> before.registered(id),
        after.stopping@.len() == before.stopping@.len(),
{
    assert(after.stopping@[flag] == (before.stopping@[flag] || exists|other: u128|
        before.registered(other) && #[trigger] tokens(before.flags)[other] == flag));
}

/// A handle is current exactly while its receiver is registered with its flag.
pub proof fn law_handles_are_current_while_registered(l: ModelListeners, handle: ModelListenerHandle)
    ensures
        l.current(handle) <==> tokens(l.flags).contains_key(handle.receiver_id) && tokens(
            l.flags,
        )[handle.receiver_id] == handle.flag,
        l.registered(handle.receiver_id) <==> tokens(l.flags).contains_key(handle.receiver_id),
        l.knows(handle) ==> (l.stops(handle) <==> l.stopping@[handle.flag as int]),
{
}

} // verus!
