//! The listeners that were taken over, by name.

use std::collections::HashMap;

use vstd::prelude::*;

use crate::activation_name::ActivationName;

verus! {

broadcast use vstd::std_specs::hash::group_hash_axioms;

/// Inherited listeners, at most one for each name.
pub struct ActivationSockets<L> {
    sockets: HashMap<u8, L>,
}

/// The listener whose collection key is `key`.
spec fn name_with_key(key: u8) -> ActivationName {
    if key == 0 {
        ActivationName::RpcMain
    } else if key == 1 {
        ActivationName::RpcSpeculative
    } else if key == 2 {
        ActivationName::SsePublish
    } else if key == 3 {
        ActivationName::RestApi
    } else {
        ActivationName::AdminApi
    }
}

impl<L> View for ActivationSockets<L> {
    type V = Map<ActivationName, L>;

    closed spec fn view(&self) -> Map<ActivationName, L> {
        Map::new(
            |name: ActivationName| self.sockets@.contains_key(name.key()),
            |name: ActivationName| self.sockets@[name.key()],
        )
    }
}

impl<L> Default for ActivationSockets<L> {
    /// Holds no listener.
    fn default() -> (sockets: Self)
        ensures
            sockets.wf(),
            sockets@ == Map::<ActivationName, L>::empty(),
    {
        let sockets = ActivationSockets { sockets: HashMap::new() };
        assert(sockets@ =~= Map::<ActivationName, L>::empty());
        sockets
    }
}

impl<L> ActivationSockets<L> {
    /// Every key in use is the key of a name.
    pub closed spec fn wf(&self) -> bool {
        forall|key: u8| #[trigger]
            self.sockets@.contains_key(key) ==> key == name_with_key(key).key()
    }

    /// Removes and returns the listener called `name`.
    pub fn take(&mut self, name: ActivationName) -> (listener: Option<L>)
        requires
            old(self).wf(),
        ensures
            final(self).wf(),
            final(self)@ == old(self)@.remove(name),
            match listener {
                Some(listener) => old(self)@.contains_key(name) && listener == old(self)@[name],
                None => !old(self)@.contains_key(name),
            },
    {
        let listener = self.sockets.remove(&name.collection_key());
        proof {
            lemma_keys_are_distinct();
            assert(self@ =~= old(self)@.remove(name));
        }
        listener
    }

    /// Keeps `listener` under `name`, in place of any other kept there.
    pub(crate) fn insert(&mut self, name: ActivationName, listener: L)
        requires
            old(self).wf(),
        ensures
            final(self).wf(),
            final(self)@ == old(self)@.insert(name, listener),
    {
        self.sockets.insert(name.collection_key(), listener);
        proof {
            lemma_keys_are_distinct();
            assert(self@ =~= old(self)@.insert(name, listener));
        }
    }

    /// Tells whether there is a listener called `name`.
    pub fn contains_key(&self, name: ActivationName) -> (found: bool)
        ensures
            found == self@.contains_key(name),
    {
        self.sockets.contains_key(&name.collection_key())
    }

    /// Counts the listeners.
    pub fn len(&self) -> (count: usize)
        requires
            self.wf(),
        ensures
            count == self@.len(),
    {
        proof {
            let inverse = |key: u8| name_with_key(key);
            assert forall|name: ActivationName| self@.dom().contains(name) implies
                #[trigger] self.sockets@.dom().map(inverse).contains(name) by {
                assert(self.sockets@.dom().contains(name.key()) && inverse(name.key()) == name);
            }
            assert(self.sockets@.dom().map(inverse) =~= self@.dom());
            vstd::set_lib::lemma_map_size(self.sockets@.dom(), self@.dom(), inverse);
        }
        self.sockets.len()
    }

    /// Tells whether there is no listener.
    pub fn is_empty(&self) -> (empty: bool)
        requires
            self.wf(),
        ensures
            empty == (self@ == Map::<ActivationName, L>::empty()),
    {
        let empty = self.sockets.is_empty();
        proof {
            if empty {
                assert(self@ =~= Map::<ActivationName, L>::empty());
            } else {
                let key = choose|key: u8| self.sockets@.contains_key(key);
                assert(self.sockets@.contains_key(key));
                assert(self@.contains_key(name_with_key(key)));
            }
        }
        empty
    }
}

/// A listener is known by its key.
proof fn lemma_keys_are_distinct()
    ensures
        forall|a: ActivationName, b: ActivationName|
            (#[trigger] a.key()) == (#[trigger] b.key()) ==> a == b,
        forall|a: ActivationName| name_with_key(#[trigger] a.key()) == a,
{
}

/// A listener can be taken once: taking it again finds none, and the others are still there.
pub proof fn law_listener_is_taken_once<L>(
    sockets: Map<ActivationName, L>,
    name: ActivationName,
    other: ActivationName,
)
    requires
        name != other,
    ensures
        !sockets.remove(name).contains_key(name),
        sockets.remove(name).remove(name) == sockets.remove(name),
        sockets.remove(name).contains_key(other) == sockets.contains_key(other),
        sockets.contains_key(other) ==> sockets.remove(name)[other] == sockets[other],
{
    assert(sockets.remove(name).remove(name) =~= sockets.remove(name));
}

/// Taking a listener gives the one kept under that name, if there is one; afterwards there
/// is none under that name, and those under other names are untouched.
pub proof fn law_taking_removes_just_that_listener<L>(
    sockets: &mut ActivationSockets<L>,
    name: ActivationName,
    other: ActivationName,
    taken: Option<L>,
)
    requires
        sockets.wf(),
        name != other,
        call_ensures(ActivationSockets::<L>::take, (sockets, name), taken),
    ensures
        taken is Some <==> old(sockets)@.contains_key(name),
        taken matches Some(listener) ==> listener == old(sockets)@[name],
        !final(sockets)@.contains_key(name),
        final(sockets)@.contains_key(other) <==> old(sockets)@.contains_key(other),
        old(sockets)@.contains_key(other) ==> final(sockets)@[other] == old(sockets)@[other],
{
}

/// Taking a listener a second time finds none and changes nothing.
pub proof fn law_second_taking_finds_none<L>(
    sockets: &mut ActivationSockets<L>,
    again: &mut ActivationSockets<L>,
    name: ActivationName,
    first: Option<L>,
    second: Option<L>,
)
    requires
        sockets.wf(),
        call_ensures(ActivationSockets::<L>::take, (sockets, name), first),
        *again == *final(sockets),
        call_ensures(ActivationSockets::<L>::take, (again, name), second),
    ensures
        second is None,
        final(again)@ == final(sockets)@,
{
    assert(final(again)@ =~= final(sockets)@);
}

/// Sockets are empty exactly if none of the names is found in them, which is when they count
/// none, and they never count more than there are names.
pub proof fn law_count_and_lookup_agree<L>(
    sockets: ActivationSockets<L>,
    empty: bool,
    count: usize,
    name: ActivationName,
    found: bool,
)
    requires
        sockets.wf(),
        call_ensures(ActivationSockets::<L>::is_empty, (&sockets,), empty),
        call_ensures(ActivationSockets::<L>::len, (&sockets,), count),
        call_ensures(ActivationSockets::<L>::contains_key, (&sockets, name), found),
    ensures
        empty <==> count == 0,
        empty <==> forall|any: ActivationName| !#[trigger] sockets@.contains_key(any),
        found <==> sockets@.contains_key(name),
        found ==> count > 0,
        count <= 5,
{
    let names = set![
        ActivationName::RpcMain,
        ActivationName::RpcSpeculative,
        ActivationName::SsePublish,
        ActivationName::RestApi,
        ActivationName::AdminApi,
    ];
    assert(sockets@.dom().subset_of(names)) by {
        assert forall|any: ActivationName| names.contains(any) by {
            match any {
                ActivationName::RpcMain => {},
                ActivationName::RpcSpeculative => {},
                ActivationName::SsePublish => {},
                ActivationName::RestApi => {},
                ActivationName::AdminApi => {},
            }
        }
    }
    vstd::set_lib::lemma_len_subset(sockets@.dom(), names);
    if count == 0 {
        assert(sockets@.dom() =~= Set::<ActivationName>::empty());
        assert(sockets@ =~= Map::<ActivationName, L>::empty());
    }
    if forall|any: ActivationName| !#[trigger] sockets@.contains_key(any) {
        assert(sockets@ =~= Map::<ActivationName, L>::empty());
    }
}

} // verus!
