//! The shared permission and voice-selection state.

use vstd::prelude::*;

verus! {

/// One voice of the catalog: the speaker id that the speech engine knows and
/// a label to show to users.
pub struct Voice {
    pub id: usize,
    pub label: String,
}

impl View for Voice {
    type V = (nat, Seq<char>);

    open spec fn view(&self) -> (nat, Seq<char>) {
        (self.id as nat, self.label@)
    }
}

/// Returned when a voice index is not below the catalog's length.
#[derive(Debug, Clone, Copy, PartialEq, Eq, Structural)]
pub struct OutOfRange;

/// What an [`AccessStore`] holds, as mathematical values.
pub struct StoreModel {
    pub channels: Set<Seq<char>>,
    pub users: Set<Seq<char>>,
    pub voices: Seq<(nat, Seq<char>)>,
    pub selected: nat,
}

/// The identifiers that a list of strings holds.
pub open spec fn members(v: Seq<String>) -> Set<Seq<char>> {
    Set::new(|x: Seq<char>| exists|i: int| 0 <= i < v.len() && #[trigger] v[i]@ == x)
}

/// No identifier occurs twice in `v`.
pub open spec fn distinct(v: Seq<String>) -> bool {
    forall|i: int, j: int| 0 <= i < j < v.len() ==> #[trigger] v[i]@ != #[trigger] v[j]@
}

/// The allowed channels, the allowed users, the voice catalog and the
/// selected voice.
pub struct AccessStore {
    channels: Vec<String>,
    users: Vec<String>,
    voices: Vec<Voice>,
    selected: usize,
}

impl View for AccessStore {
    type V = StoreModel;

    closed spec fn view(&self) -> StoreModel {
        StoreModel {
            channels: members(self.channels@),
            users: members(self.users@),
            voices: self.voices@.map_values(|v: Voice| v@),
            selected: self.selected as nat,
        }
    }
}

fn position_of(v: &Vec<String>, x: &String) -> (r: Option<usize>)
    ensures
        r matches Some(i) ==> i < v@.len() && v@[i as int]@ == x@,
        r is None ==> !members(v@).contains(x@),
{
    let mut i: usize = 0;
    while i < v.len()
        invariant
            i <= v@.len(),
            forall|j: int| 0 <= j < i ==> #[trigger] v@[j]@ != x@,
        decreases v@.len() - i,
    {
        if v[i] == *x {
            return Some(i);
        }
        i = i + 1;
    }
    None
}

proof fn lemma_members_push(v: Seq<String>, x: String)
    ensures
        members(v.push(x)) == members(v).insert(x@),
{
    let w = v.push(x);
    assert forall|y: Seq<char>| members(w).contains(y) <==> members(v).insert(x@).contains(y) by {
        if members(v).contains(y) {
            let i = choose|i: int| 0 <= i < v.len() && #[trigger] v[i]@ == y;
            assert(w[i]@ == y);
        }
        if y == x@ {
            assert(w[v.len() as int]@ == y);
        }
        if members(w).contains(y) {
            let i = choose|i: int| 0 <= i < w.len() && #[trigger] w[i]@ == y;
            if i < v.len() {
                assert(v[i]@ == y);
            }
        }
    }
    assert(members(w) =~= members(v).insert(x@));
}

proof fn lemma_members_remove(v: Seq<String>, k: int)
    requires
        distinct(v),
        0 <= k < v.len(),
    ensures
        members(v.remove(k)) == members(v).remove(v[k]@),
        distinct(v.remove(k)),
{
    let w = v.remove(k);
    assert forall|y: Seq<char>| members(w).contains(y) <==> members(v).remove(v[k]@).contains(y) by {
        if members(w).contains(y) {
            let i = choose|i: int| 0 <= i < w.len() && #[trigger] w[i]@ == y;
            if i < k {
                assert(v[i]@ == y);
            } else {
                assert(v[i + 1]@ == y);
            }
        }
        if members(v).remove(v[k]@).contains(y) {
            let i = choose|i: int| 0 <= i < v.len() && #[trigger] v[i]@ == y;
            if i < k {
                assert(w[i]@ == y);
            } else {
                assert(w[i - 1]@ == y);
            }
        }
    }
    assert(members(w) =~= members(v).remove(v[k]@));
}

impl AccessStore {
    /// The store's internal invariant: no identifier is listed twice and the
    /// selected voice indexes the catalog.
    pub closed spec fn wf(&self) -> bool {
        &&& distinct(self.channels@)
        &&& distinct(self.users@)
        &&& self.selected < self.voices@.len()
    }

    /// A store with no allowed channel or user, over the catalog `voices`,
    /// with `default_voice` selected. Fails when `default_voice` does not
    /// index the catalog (so always when the catalog is empty).
    pub fn new(voices: Vec<Voice>, default_voice: usize) -> (r: Result<AccessStore, OutOfRange>)
        ensures
            default_voice < voices@.len() <==> r is Ok,
            r matches Ok(s) ==> {
                &&& s.wf()
                &&& s@.channels == Set::<Seq<char>>::empty()
                &&& s@.users == Set::<Seq<char>>::empty()
                &&& s@.voices == voices@.map_values(|v: Voice| v@)
                &&& s@.selected == default_voice
            },
    {
        if default_voice >= voices.len() {
            return Err(OutOfRange);
        }
        let s = AccessStore { channels: Vec::new(), users: Vec::new(), voices, selected: default_voice };
        assert(members(s.channels@) =~= Set::<Seq<char>>::empty());
        assert(members(s.users@) =~= Set::<Seq<char>>::empty());
        Ok(s)
    }

    pub fn is_channel_allowed(&self, channel: &str) -> (r: bool)
        ensures
            r == self@.channels.contains(channel@),
    {
        let c = String::from_str(channel);
        position_of(&self.channels, &c).is_some()
    }

    /// Adds `channel` to the allowed channels; nothing changes if it is there.
    pub fn authorize_channel(&mut self, channel: &str)
        requires
            old(self).wf(),
        ensures
            final(self).wf(),
            final(self)@ == (StoreModel { channels: old(self)@.channels.insert(channel@), ..old(self)@ }),
    {
        let c = String::from_str(channel);
        if position_of(&self.channels, &c).is_none() {
            proof {
                lemma_members_push(self.channels@, c);
            }
            self.channels.push(c);
        } else {
            assert(self@.channels.insert(channel@) =~= self@.channels);
        }
    }

    /// Empties the allowed channels.
    pub fn clear_channels(&mut self)
        requires
            old(self).wf(),
        ensures
            final(self).wf(),
            final(self)@ == (StoreModel { channels: Set::<Seq<char>>::empty(), ..old(self)@ }),
    {
        self.channels = Vec::new();
        assert(members(self.channels@) =~= Set::<Seq<char>>::empty());
    }

    pub fn is_user_allowed(&self, user: &str) -> (r: bool)
        ensures
            r == self@.users.contains(user@),
    {
        let u = String::from_str(user);
        position_of(&self.users, &u).is_some()
    }

    /// Adds `user` to the allowed users; nothing changes if it is there.
    pub fn authorize_user(&mut self, user: &str)
        requires
            old(self).wf(),
        ensures
            final(self).wf(),
            final(self)@ == (StoreModel { users: old(self)@.users.insert(user@), ..old(self)@ }),
    {
        let u = String::from_str(user);
        if position_of(&self.users, &u).is_none() {
            proof {
                lemma_members_push(self.users@, u);
            }
            self.users.push(u);
        } else {
            assert(self@.users.insert(user@) =~= self@.users);
        }
    }

    /// Removes `user` from the allowed users, and tells whether it was there.
    pub fn revoke_user(&mut self, user: &str) -> (found: bool)
        requires
            old(self).wf(),
        ensures
            final(self).wf(),
            found == old(self)@.users.contains(user@),
            final(self)@ == (StoreModel { users: old(self)@.users.remove(user@), ..old(self)@ }),
    {
        let u = String::from_str(user);
        match position_of(&self.users, &u) {
            Some(k) => {
                proof {
                    lemma_members_remove(self.users@, k as int);
                    assert(self.users@[k as int]@ == user@);
                }
                self.users.remove(k);
                true
            },
            None => {
                assert(self@.users.remove(user@) =~= self@.users);
                false
            },
        }
    }

    /// Empties the allowed users.
    pub fn clear_users(&mut self)
        requires
            old(self).wf(),
        ensures
            final(self).wf(),
            final(self)@ == (StoreModel { users: Set::<Seq<char>>::empty(), ..old(self)@ }),
    {
        self.users = Vec::new();
        assert(members(self.users@) =~= Set::<Seq<char>>::empty());
    }

    /// The voice catalog, in the order the speech engine listed it.
    pub fn voices(&self) -> (r: &Vec<Voice>)
        ensures
            r@.map_values(|v: Voice| v@) == self@.voices,
    {
        &self.voices
    }

    pub fn catalog_len(&self) -> (r: usize)
        ensures
            r == self@.voices.len(),
            self.wf() ==> r > 0,
    {
        self.voices.len()
    }

    pub fn selected_voice(&self) -> (r: usize)
        ensures
            r == self@.selected,
            self.wf() ==> r < self@.voices.len(),
    {
        self.selected
    }

    /// Selects the voice at index `candidate`; out of range, nothing changes.
    pub fn set_selected_voice(&mut self, candidate: usize) -> (r: Result<(), OutOfRange>)
        requires
            old(self).wf(),
        ensures
            final(self).wf(),
            r is Ok <==> candidate < old(self)@.voices.len(),
            r is Ok ==> final(self)@ == (StoreModel { selected: candidate as nat, ..old(self)@ }),
            r is Err ==> final(self)@ == old(self)@,
    {
        if candidate < self.voices.len() {
            self.selected = candidate;
            Ok(())
        } else {
            Err(OutOfRange)
        }
    }
}

/// The allowed channels after channels `cs` are authorized one after the
/// other, starting from `s`.
pub open spec fn after_authorizations(s: Set<Seq<char>>, cs: Seq<Seq<char>>) -> Set<Seq<char>>
    decreases cs.len(),
{
    if cs.len() == 0 {
        s
    } else {
        after_authorizations(s, cs.drop_last()).insert(cs.last())
    }
}

/// Once a channel has been authorized, it stays allowed whatever is
/// authorized after it, itself included; and authorizing a channel that is
/// already allowed changes nothing.
pub proof fn authorized_channel_stays(s: Set<Seq<char>>, cs: Seq<Seq<char>>, c: Seq<char>)
    requires
        cs.contains(c),
    ensures
        after_authorizations(s, cs).contains(c),
        after_authorizations(s, cs.push(c)) == after_authorizations(s, cs),
    decreases cs.len(),
{
    assert(cs.push(c).drop_last() =~= cs);
    if cs.last() != c {
        let k = choose|k: int| 0 <= k < cs.len() && cs[k] == c;
        assert(cs.drop_last()[k] == c);
        authorized_channel_stays(s, cs.drop_last(), c);
    }
    assert(after_authorizations(s, cs.push(c)) =~= after_authorizations(s, cs));
}

/// Two users authorized one after the other are both allowed afterwards,
/// and the outcome does not depend on which came first: no update is lost.
pub proof fn authorizations_commute(s: Set<Seq<char>>, u1: Seq<char>, u2: Seq<char>)
    ensures
        s.insert(u1).insert(u2) == s.insert(u2).insert(u1),
        s.insert(u1).insert(u2).contains(u1),
        s.insert(u1).insert(u2).contains(u2),
{
    assert(s.insert(u1).insert(u2) =~= s.insert(u2).insert(u1));
}

} // verus!
