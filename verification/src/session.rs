//! Per-user configuration sessions and the store that owns them: a mapping
//! from user identifier to in-progress session, with create, lookup,
//! insert, remove and a sweep that prunes expired entries.

use vstd::prelude::*;
use crate::SESSION_TTL_SECS;

verus! {

/// The step of the configuration pipeline a session is waiting on.
#[derive(Clone, Copy, PartialEq, Eq, Structural, Debug)]
pub enum Phase {
    /// The user must choose the password length.
    AwaitingLength,
    /// The user must choose whether to include lowercase characters.
    AwaitingLowercase,
    /// The user must choose whether to include uppercase characters.
    AwaitingUppercase,
    /// The user must choose whether to include digits.
    AwaitingNumbers,
    /// The user must choose whether to include punctuation.
    AwaitingSymbols,
}

/// One user's in-progress configuration.
#[derive(Clone, Copy, PartialEq, Eq, Structural, Debug)]
pub struct Session {
    /// Where the user is in the pipeline.
    pub phase: Phase,
    /// The chosen password length; meaningful once the length step is past.
    pub length: u8,
    /// Whether lowercase characters were requested.
    pub lowercase: bool,
    /// Whether uppercase characters were requested.
    pub uppercase: bool,
    /// Whether digits were requested.
    pub numbers: bool,
    /// Absolute deadline: the session is dead once this time is reached.
    pub expires_at: u64,
}

/// A session past the length step always carries a positive length.
pub open spec fn session_wf(s: Session) -> bool {
    s.phase != Phase::AwaitingLength ==> 1 <= s.length
}

/// The session a fresh start-configuration command creates.
pub open spec fn new_session(now: u64) -> Session {
    Session {
        phase: Phase::AwaitingLength,
        length: 0,
        lowercase: false,
        uppercase: false,
        numbers: false,
        expires_at: (now + SESSION_TTL_SECS) as u64,
    }
}

/// The mapping a list of keyed entries stands for.
pub open spec fn map_of(s: Seq<(u64, Session)>) -> Map<u64, Session>
    decreases s.len(),
{
    if s.len() == 0 {
        Map::empty()
    } else {
        map_of(s.drop_last()).insert(s.last().0, s.last().1)
    }
}

/// No user identifier occurs twice among the entries.
pub open spec fn keys_distinct(s: Seq<(u64, Session)>) -> bool {
    forall|i: int, j: int| 0 <= i < j < s.len() ==> s[i].0 != s[j].0
}

proof fn lemma_map_of_contains(s: Seq<(u64, Session)>, k: u64)
    ensures
        map_of(s).contains_key(k) <==> exists|i: int| 0 <= i < s.len() && s[i].0 == k,
    decreases s.len(),
{
    if s.len() > 0 {
        lemma_map_of_contains(s.drop_last(), k);
        if s.last().0 == k {
            assert(s[s.len() - 1].0 == k);
        } else if map_of(s).contains_key(k) {
            let i = choose|i: int| 0 <= i < s.drop_last().len() && s.drop_last()[i].0 == k;
            assert(s[i].0 == k);
        } else {
            assert forall|i: int| 0 <= i < s.len() implies s[i].0 != k by {
                if i < s.len() - 1 {
                    assert(s.drop_last()[i].0 == s[i].0);
                }
            }
        }
    }
}

proof fn lemma_map_of_get(s: Seq<(u64, Session)>, i: int)
    requires
        keys_distinct(s),
        0 <= i < s.len(),
    ensures
        map_of(s).contains_key(s[i].0),
        map_of(s)[s[i].0] == s[i].1,
    decreases s.len(),
{
    if i == s.len() - 1 {
        assert(s.last() == s[i]);
    } else {
        assert(keys_distinct(s.drop_last())) by {
            assert forall|p: int, q: int|
                0 <= p < q < s.drop_last().len() implies s.drop_last()[p].0 != s.drop_last()[q].0
            by {
                assert(s[p].0 != s[q].0);
            }
        }
        lemma_map_of_get(s.drop_last(), i);
        assert(s.drop_last()[i] == s[i]);
        assert(s.last().0 != s[i].0);
    }
}

/// The store: owns every live session, keyed by user identifier.
pub struct SessionStore {
    entries: Vec<(u64, Session)>,
}

impl View for SessionStore {
    type V = Map<u64, Session>;

    closed spec fn view(&self) -> Map<u64, Session> {
        map_of(self.entries@)
    }
}

impl SessionStore {
    /// Keys are unique and every stored session is well formed.
    pub closed spec fn wf(&self) -> bool {
        &&& keys_distinct(self.entries@)
        &&& forall|i: int| 0 <= i < self.entries@.len() ==> session_wf(#[trigger] self.entries@[i].1)
    }

    /// An empty store.
    pub fn new() -> (r: SessionStore)
        ensures
            r.wf(),
            r@ == Map::<u64, Session>::empty(),
    {
        SessionStore { entries: Vec::new() }
    }

    /// Every session visible through the view is well formed.
    pub proof fn lemma_view_wf(&self, k: u64)
        requires
            self.wf(),
            self@.contains_key(k),
        ensures
            session_wf(self@[k]),
    {
        lemma_map_of_contains(self.entries@, k);
        let i = choose|i: int| 0 <= i < self.entries@.len() && self.entries@[i].0 == k;
        lemma_map_of_get(self.entries@, i);
    }

    fn find_index(&self, user_id: u64) -> (r: Option<usize>)
        ensures
            match r {
                Some(i) => i < self.entries@.len() && self.entries@[i as int].0 == user_id,
                None => forall|i: int| 0 <= i < self.entries@.len() ==> self.entries@[i].0 != user_id,
            },
    {
        let n = self.entries.len();
        let mut i: usize = 0;
        while i < n
            invariant
                n == self.entries@.len(),
                0 <= i <= n,
                forall|j: int| 0 <= j < i ==> self.entries@[j].0 != user_id,
            decreases n - i,
        {
            if self.entries[i].0 == user_id {
                return Some(i);
            }
            i += 1;
        }
        None
    }

    /// Looks the user's session up; absence is a normal condition, not a
    /// fault.
    pub fn get(&self, user_id: u64) -> (r: Option<Session>)
        requires
            self.wf(),
        ensures
            match r {
                Some(s) => self@.contains_key(user_id) && s == self@[user_id],
                None => !self@.contains_key(user_id),
            },
    {
        proof {
            lemma_map_of_contains(self.entries@, user_id);
        }
        match self.find_index(user_id) {
            Some(i) => {
                proof {
                    lemma_map_of_get(self.entries@, i as int);
                }
                Some(self.entries[i].1)
            },
            None => None,
        }
    }

    /// Stores `sess` for the user, overwriting any prior session.
    pub fn insert(&mut self, user_id: u64, sess: Session)
        requires
            old(self).wf(),
            session_wf(sess),
        ensures
            final(self).wf(),
            final(self)@ == old(self)@.insert(user_id, sess),
    {
        self.remove(user_id);
        let ghost pre = self.entries@;
        self.entries.push((user_id, sess));
        proof {
            assert(self.entries@.drop_last() =~= pre);
            assert(forall|i: int|
                0 <= i < pre.len() ==> #[trigger] pre[i] == self.entries@[i]);
            lemma_map_of_contains(pre, user_id);
            assert(self@ =~= old(self)@.insert(user_id, sess));
        }
    }

    /// Creates a fresh session for the user, replacing any prior one; the
    /// deadline is the creation time plus the fixed TTL.
    pub fn create(&mut self, user_id: u64, now: u64)
        requires
            old(self).wf(),
            now + SESSION_TTL_SECS <= u64::MAX,
        ensures
            final(self).wf(),
            final(self)@ == old(self)@.insert(user_id, new_session(now)),
    {
        let sess = Session {
            phase: Phase::AwaitingLength,
            length: 0,
            lowercase: false,
            uppercase: false,
            numbers: false,
            expires_at: now + SESSION_TTL_SECS,
        };
        self.insert(user_id, sess);
    }

    /// Deletes the user's session; removing an absent entry is a no-op.
    pub fn remove(&mut self, user_id: u64)
        requires
            old(self).wf(),
        ensures
            final(self).wf(),
            final(self)@ == old(self)@.remove(user_id),
    {
        proof {
            lemma_map_of_contains(self.entries@, user_id);
        }
        match self.find_index(user_id) {
            Some(i) => {
                let ghost pre = self.entries@;
                self.entries.remove(i);
                proof {
                    lemma_map_of_remove_entry(pre, i as int, user_id);
                }
            },
            None => {
                proof {
                    assert(self@ =~= old(self)@.remove(user_id));
                }
            },
        }
    }

    /// Removes every session whose deadline has passed, and no other; it
    /// never touches the sessions that are still alive.
    pub fn sweep(&mut self, now: u64)
        requires
            old(self).wf(),
        ensures
            final(self).wf(),
            forall|k: u64|
                #[trigger] final(self)@.contains_key(k) <==> (old(self)@.contains_key(k) && old(
                    self,
                )@[k].expires_at > now),
            forall|k: u64|
                #[trigger] final(self)@.contains_key(k) ==> final(self)@[k] == old(self)@[k],
            forall|k: u64|
                old(self)@.contains_key(k) && old(self)@[k].expires_at <= now
                    ==> !(#[trigger] final(self)@.contains_key(k)),
    {
        let ghost pre = self.entries@;
        let mut kept: Vec<(u64, Session)> = Vec::new();
        let n = self.entries.len();
        let mut i: usize = 0;
        while i < n
            invariant
                n == pre.len(),
                self.entries@ == pre,
                keys_distinct(pre),
                forall|j: int| 0 <= j < pre.len() ==> session_wf(#[trigger] pre[j].1),
                0 <= i <= n,
                keys_distinct(kept@),
                forall|j: int| 0 <= j < kept@.len() ==> session_wf(#[trigger] kept@[j].1),
                forall|k: u64|
                    #[trigger] map_of(kept@).contains_key(k) <==> exists|j: int|
                        0 <= j < i && pre[j].0 == k && pre[j].1.expires_at > now,
                forall|j: int|
                    0 <= j < i && pre[j].1.expires_at > now ==> map_of(kept@)[pre[j].0]
                        == #[trigger] pre[j].1,
            decreases n - i,
        {
            let e = self.entries[i];
            if e.1.expires_at > now {
                let ghost kpre = kept@;
                proof {
                    lemma_map_of_contains(kpre, e.0);
                    if map_of(kpre).contains_key(e.0) {
                        let j = choose|j: int|
                            0 <= j < i && pre[j].0 == e.0 && pre[j].1.expires_at > now;
                        assert(pre[j].0 == pre[i as int].0);
                        assert(false);
                    }
                }
                kept.push(e);
                proof {
                    assert(kept@.drop_last() =~= kpre);
                    assert(forall|j: int|
                        0 <= j < kpre.len() ==> #[trigger] kpre[j] == kept@[j]);
                    assert(keys_distinct(kept@)) by {
                        assert forall|p: int, q: int|
                            0 <= p < q < kept@.len() implies kept@[p].0 != kept@[q].0 by {
                            if q == kept@.len() - 1 {
                                lemma_map_of_get(kpre, p);
                            }
                        }
                    }
                    assert forall|k: u64| #[trigger]
                        map_of(kept@).contains_key(k) implies exists|j: int|
                        0 <= j < i + 1 && pre[j].0 == k && pre[j].1.expires_at > now by {
                        if k != e.0 {
                            assert(map_of(kpre).contains_key(k));
                            let j = choose|j: int|
                                0 <= j < i && pre[j].0 == k && pre[j].1.expires_at > now;
                            assert(0 <= j < i + 1 && pre[j].0 == k && pre[j].1.expires_at > now);
                        } else {
                            assert(0 <= i < i + 1 && pre[i as int].0 == k && pre[i as int].1.expires_at
                                > now);
                        }
                    }
                }
            } else {
                proof {
                    assert forall|k: u64| #[trigger]
                        map_of(kept@).contains_key(k) implies exists|j: int|
                        0 <= j < i + 1 && pre[j].0 == k && pre[j].1.expires_at > now by {
                        let j = choose|j: int|
                            0 <= j < i && pre[j].0 == k && pre[j].1.expires_at > now;
                        assert(0 <= j < i + 1 && pre[j].0 == k && pre[j].1.expires_at > now);
                    }
                }
            }
            i += 1;
        }
        self.entries = kept;
        proof {
            assert forall|k: u64| #[trigger]
                self@.contains_key(k) <==> (map_of(pre).contains_key(k) && map_of(pre)[k].expires_at
                > now) by {
                lemma_map_of_contains(pre, k);
                if self@.contains_key(k) {
                    let j = choose|j: int| 0 <= j < n && pre[j].0 == k && pre[j].1.expires_at > now;
                    lemma_map_of_get(pre, j);
                }
                if map_of(pre).contains_key(k) && map_of(pre)[k].expires_at > now {
                    let j = choose|j: int| 0 <= j < pre.len() && pre[j].0 == k;
                    lemma_map_of_get(pre, j);
                    assert(0 <= j < n && pre[j].0 == k && pre[j].1.expires_at > now);
                }
            }
            assert forall|k: u64| #[trigger] self@.contains_key(k) implies self@[k] == map_of(pre)[k]
            by {
                let j = choose|j: int| 0 <= j < n && pre[j].0 == k && pre[j].1.expires_at > now;
                lemma_map_of_get(pre, j);
            }
        }
    }

    /// How many sessions are live.
    pub fn len(&self) -> (r: usize)
        requires
            self.wf(),
        ensures
            r as int == self@.dom().len(),
    {
        proof {
            lemma_map_of_len(self.entries@);
        }
        self.entries.len()
    }
}

proof fn lemma_map_of_len(s: Seq<(u64, Session)>)
    requires
        keys_distinct(s),
    ensures
        map_of(s).dom().len() == s.len(),
        map_of(s).dom().finite(),
    decreases s.len(),
{
    if s.len() > 0 {
        assert(keys_distinct(s.drop_last())) by {
            assert forall|p: int, q: int|
                0 <= p < q < s.drop_last().len() implies s.drop_last()[p].0 != s.drop_last()[q].0
            by {
                assert(s[p].0 != s[q].0);
            }
        }
        lemma_map_of_len(s.drop_last());
        lemma_map_of_contains(s.drop_last(), s.last().0);
        assert forall|i: int| 0 <= i < s.drop_last().len() implies s.drop_last()[i].0 != s.last().0
        by {
            assert(s[i].0 != s[s.len() - 1].0);
        }
        assert(map_of(s).dom() =~= map_of(s.drop_last()).dom().insert(s.last().0));
    } else {
        assert(map_of(s).dom() =~= Set::<u64>::empty());
    }
}

proof fn lemma_map_of_remove_entry(s: Seq<(u64, Session)>, i: int, k: u64)
    requires
        keys_distinct(s),
        0 <= i < s.len(),
        s[i].0 == k,
    ensures
        map_of(s.remove(i)) == map_of(s).remove(k),
    decreases s.len(),
{
    if i == s.len() - 1 {
        lemma_map_of_contains(s.drop_last(), k);
        assert forall|j: int| 0 <= j < s.drop_last().len() implies s.drop_last()[j].0 != k by {
            assert(s[j].0 != s[i].0);
        }
        assert(s.remove(i) =~= s.drop_last());
        assert(map_of(s.remove(i)) =~= map_of(s).remove(k));
    } else {
        assert(keys_distinct(s.drop_last())) by {
            assert forall|p: int, q: int|
                0 <= p < q < s.drop_last().len() implies s.drop_last()[p].0 != s.drop_last()[q].0
            by {
                assert(s[p].0 != s[q].0);
            }
        }
        assert(s.drop_last()[i].0 == k);
        lemma_map_of_remove_entry(s.drop_last(), i, k);
        assert(s.remove(i).drop_last() =~= s.drop_last().remove(i));
        assert(s.remove(i).last() == s.last());
        assert(s.last().0 != k) by {
            assert(s[i].0 != s[s.len() - 1].0);
        }
        assert(map_of(s.remove(i)) =~= map_of(s).remove(k));
    }
}

} // verus!
