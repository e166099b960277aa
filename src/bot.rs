//! The bot's state as seen by every message handler.

use vstd::prelude::*;
use crate::router::{handle_event, step, Action, Event};
use crate::store::{AccessStore, OutOfRange, StoreModel, Voice};

verus! {

/// The bot: its permission store, to which every message is applied.
pub struct Bot {
    store: AccessStore,
}

impl View for Bot {
    type V = StoreModel;

    closed spec fn view(&self) -> StoreModel {
        self.store@
    }
}

impl Bot {
    /// The store's invariant holds.
    pub closed spec fn wf(&self) -> bool {
        self.store.wf()
    }

    /// A bot over the catalog `voices` with `default_voice` selected and
    /// nobody allowed yet; fails when `default_voice` is not below the
    /// catalog's length.
    pub fn new(voices: Vec<Voice>, default_voice: usize) -> (r: Result<Bot, OutOfRange>)
        ensures
            default_voice < voices@.len() <==> r is Ok,
            r matches Ok(b) ==> {
                &&& b.wf()
                &&& b@.channels == Set::<Seq<char>>::empty()
                &&& b@.users == Set::<Seq<char>>::empty()
                &&& b@.voices == voices@.map_values(|v: Voice| v@)
                &&& b@.selected == default_voice
            },
    {
        match AccessStore::new(voices, default_voice) {
            Ok(store) => Ok(Bot { store }),
            Err(e) => Err(e),
        }
    }

    /// The permission store.
    pub fn store(&self) -> (r: &AccessStore)
        ensures
            r@ == self@,
            self.wf() ==> r.wf(),
    {
        &self.store
    }

    /// Applies the message `ev` and returns what is to be done about it.
    pub fn handle(&mut self, ev: &Event) -> (r: Action)
        requires
            old(self).wf(),
        ensures
            final(self).wf(),
            (final(self)@, r@) == step(old(self)@, *ev),
    {
        handle_event(&mut self.store, ev)
    }
}

} // verus!
