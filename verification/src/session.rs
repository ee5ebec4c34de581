//! The session store: one record per identity, keyed by the lowercase
//! address, binding the identity to its currently valid refresh token.
//!
//! Abstractly the store is a map from address to record. A record's
//! refresh token is cleared — not the record deleted — when a session is
//! revoked, so the identity row survives revocation. The conditional
//! update takes the refresh token it expects to replace and fails on any
//! mismatch, so a stale writer can never overwrite a newer rotation.

use vstd::prelude::*;
use crate::strings::str_eq;

verus! {

/// One persisted session.
pub struct SessionRecord {
    /// The identity's address: the unique key, held lowercase.
    pub address: String,
    /// The refresh token currently bound to this identity; `None` once
    /// the session has been revoked.
    pub current_refresh_token: Option<String>,
    /// Epoch seconds of the last successful sign-in or rotation.
    pub last_login_at: u64,
    /// Epoch seconds of the record's creation.
    pub created_at: u64,
}

/// The mathematical content of a session record.
pub struct SessionRecordView {
    pub address: Seq<char>,
    pub current_refresh_token: Option<Seq<char>>,
    pub last_login_at: u64,
    pub created_at: u64,
}

/// The view of an optionally stored token.
pub open spec fn opt_token_view(t: Option<String>) -> Option<Seq<char>> {
    match t {
        Option::Some(s) => Option::Some(s@),
        Option::None => Option::None,
    }
}

impl View for SessionRecord {
    type V = SessionRecordView;

    open spec fn view(&self) -> SessionRecordView {
        SessionRecordView {
            address: self.address@,
            current_refresh_token: opt_token_view(self.current_refresh_token),
            last_login_at: self.last_login_at,
            created_at: self.created_at,
        }
    }
}

/// No two records share an address.
spec fn unique_addresses(recs: Seq<SessionRecord>) -> bool {
    forall|i: int, j: int|
        0 <= i < j < recs.len() ==> recs[i].address@ != recs[j].address@
}

/// Some record carries the address `a`.
spec fn holds_address(recs: Seq<SessionRecord>, a: Seq<char>) -> bool {
    exists|i: int| 0 <= i < recs.len() && recs[i].address@ == a
}

/// The index of the record carrying the address `a`.
spec fn index_of(recs: Seq<SessionRecord>, a: Seq<char>) -> int {
    choose|i: int| 0 <= i < recs.len() && recs[i].address@ == a
}

/// The record sequence read as a map from address to record.
spec fn as_map(recs: Seq<SessionRecord>) -> Map<Seq<char>, SessionRecordView> {
    Map::new(|a: Seq<char>| holds_address(recs, a), |a: Seq<char>| recs[index_of(recs, a)]@)
}

/// With unique addresses, the record at any index is what the map holds
/// under its address.
proof fn lemma_map_at(recs: Seq<SessionRecord>, i: int)
    requires
        unique_addresses(recs),
        0 <= i < recs.len(),
    ensures
        as_map(recs).contains_key(recs[i].address@),
        as_map(recs)[recs[i].address@] == recs[i]@,
        index_of(recs, recs[i].address@) == i,
{
    let a = recs[i].address@;
    assert(holds_address(recs, a));
    let k = index_of(recs, a);
    assert(0 <= k < recs.len() && recs[k].address@ == a);
    if k < i {
        assert(recs[k].address@ != recs[i].address@);
    } else if i < k {
        assert(recs[i].address@ != recs[k].address@);
    }
}

/// Appending a record with a fresh address inserts it into the map.
proof fn lemma_map_push(recs: Seq<SessionRecord>, rec: SessionRecord)
    requires
        unique_addresses(recs),
        !holds_address(recs, rec.address@),
    ensures
        unique_addresses(recs.push(rec)),
        as_map(recs.push(rec)) == as_map(recs).insert(rec.address@, rec@),
{
    let n = recs.len() as int;
    let recs2 = recs.push(rec);
    assert forall|i: int, j: int| 0 <= i < j < recs2.len() implies recs2[i].address@
        != recs2[j].address@ by {
        if j < n {
            assert(recs[i].address@ != recs[j].address@);
        } else {
            assert(recs2[j] == rec);
            if recs2[i].address@ == rec.address@ {
                assert(holds_address(recs, rec.address@));
            }
        }
    };
    let m1 = as_map(recs2);
    let m2 = as_map(recs).insert(rec.address@, rec@);
    assert forall|a: Seq<char>| m1.contains_key(a) implies m2.contains_key(a) && m1[a]
        == m2[a] by {
        let i = index_of(recs2, a);
        assert(0 <= i < recs2.len() && recs2[i].address@ == a);
        lemma_map_at(recs2, i);
        if i < n {
            lemma_map_at(recs, i);
            assert(recs2[i] == recs[i]);
            if a == rec.address@ {
                assert(holds_address(recs, rec.address@));
            }
        } else {
            assert(recs2[i] == rec);
        }
    };
    assert forall|a: Seq<char>| m2.contains_key(a) implies m1.contains_key(a) by {
        if a == rec.address@ {
            lemma_map_at(recs2, n);
        } else {
            let i = index_of(recs, a);
            assert(0 <= i < recs.len() && recs[i].address@ == a);
            assert(recs2[i] == recs[i]);
            lemma_map_at(recs2, i);
        }
    };
    assert(m1 =~= m2);
}

/// Replacing the record at an index by one with the same address updates
/// the map at that address.
proof fn lemma_map_update(recs: Seq<SessionRecord>, i: int, rec: SessionRecord)
    requires
        unique_addresses(recs),
        0 <= i < recs.len(),
        rec.address@ == recs[i].address@,
    ensures
        unique_addresses(recs.update(i, rec)),
        as_map(recs.update(i, rec)) == as_map(recs).insert(rec.address@, rec@),
{
    let recs2 = recs.update(i, rec);
    assert forall|p: int, q: int| 0 <= p < q < recs2.len() implies recs2[p].address@
        != recs2[q].address@ by {
        assert(recs[p].address@ != recs[q].address@);
    };
    let m1 = as_map(recs2);
    let m2 = as_map(recs).insert(rec.address@, rec@);
    assert forall|a: Seq<char>| m1.contains_key(a) implies m2.contains_key(a) && m1[a]
        == m2[a] by {
        let k = index_of(recs2, a);
        assert(0 <= k < recs2.len() && recs2[k].address@ == a);
        lemma_map_at(recs2, k);
        lemma_map_at(recs, k);
        if k != i {
            assert(recs2[k] == recs[k]);
            assert(a != rec.address@);
        }
    };
    assert forall|a: Seq<char>| m2.contains_key(a) implies m1.contains_key(a) by {
        if a == rec.address@ {
            lemma_map_at(recs2, i);
        } else {
            let k = index_of(recs, a);
            assert(0 <= k < recs.len() && recs[k].address@ == a);
            assert(k != i);
            assert(recs2[k] == recs[k]);
            lemma_map_at(recs2, k);
        }
    };
    assert(m1 =~= m2);
}

/// The session store: at most one record per address.
pub struct SessionStore {
    records: Vec<SessionRecord>,
}

impl View for SessionStore {
    type V = Map<Seq<char>, SessionRecordView>;

    closed spec fn view(&self) -> Map<Seq<char>, SessionRecordView> {
        as_map(self.records@)
    }
}

impl SessionStore {
    /// The store's invariant: addresses are unique, so the map view is
    /// faithful.
    pub closed spec fn wf(&self) -> bool {
        unique_addresses(self.records@)
    }

    /// Creates an empty store.
    pub fn new() -> (r: SessionStore)
        ensures
            r.wf(),
            r@ == Map::<Seq<char>, SessionRecordView>::empty(),
    {
        let r = SessionStore { records: Vec::new() };
        proof {
            assert(r@ =~= Map::<Seq<char>, SessionRecordView>::empty());
        }
        r
    }

    /// Looks a record up by its address; a copy of the stored record, or
    /// `None` when the address is unknown.
    pub fn get_by_address(&self, address: &str) -> (r: Option<SessionRecord>)
        requires
            self.wf(),
        ensures
            match r {
                Some(rec) => self@.contains_key(address@) && self@[address@] == rec@,
                None => !self@.contains_key(address@),
            },
    {
        let n = self.records.len();
        let mut i: usize = 0;
        while i < n
            invariant
                i <= n,
                n == self.records@.len(),
                self.wf(),
                forall|j: int| 0 <= j < i ==> self.records@[j].address@ != address@,
            decreases n - i,
        {
            let rec = &self.records[i];
            if str_eq(rec.address.as_str(), address) {
                let copy = SessionRecord {
                    address: rec.address.clone(),
                    current_refresh_token: match &rec.current_refresh_token {
                        Some(t) => Some(t.clone()),
                        None => None,
                    },
                    last_login_at: rec.last_login_at,
                    created_at: rec.created_at,
                };
                proof {
                    lemma_map_at(self.records@, i as int);
                }
                return Some(copy);
            }
            i += 1;
        }
        None
    }

    /// Inserts a record for an address not yet present.
    pub fn save(&mut self, record: SessionRecord)
        requires
            old(self).wf(),
            !old(self)@.contains_key(record.address@),
        ensures
            final(self).wf(),
            final(self)@ == old(self)@.insert(record.address@, record@),
    {
        proof {
            if holds_address(self.records@, record.address@) {
                let i = index_of(self.records@, record.address@);
                lemma_map_at(self.records@, i);
            }
            lemma_map_push(self.records@, record);
        }
        self.records.push(record);
    }

    /// Replaces the stored refresh token (or clears it, on `None`) and the
    /// last-login time of the record for `address`, keeping its creation
    /// time; reports whether such a record existed. The store is unchanged
    /// when it did not.
    pub fn update(&mut self, address: &str, new_token: Option<String>, last_login_at: u64) -> (r:
        bool)
        requires
            old(self).wf(),
        ensures
            final(self).wf(),
            r == old(self)@.contains_key(address@),
            r ==> final(self)@ == old(self)@.insert(
                address@,
                SessionRecordView {
                    address: address@,
                    current_refresh_token: opt_token_view(new_token),
                    last_login_at,
                    created_at: old(self)@[address@].created_at,
                },
            ),
            !r ==> final(self)@ == old(self)@,
    {
        let n = self.records.len();
        let mut i: usize = 0;
        while i < n
            invariant
                i <= n,
                n == self.records@.len(),
                self == old(self),
                self.wf(),
                forall|j: int| 0 <= j < i ==> self.records@[j].address@ != address@,
            decreases n - i,
        {
            let found = str_eq(self.records[i].address.as_str(), address);
            if found {
                let created_at = self.records[i].created_at;
                let replacement = SessionRecord {
                    address: self.records[i].address.clone(),
                    current_refresh_token: new_token,
                    last_login_at,
                    created_at,
                };
                proof {
                    lemma_map_at(self.records@, i as int);
                    lemma_map_update(self.records@, i as int, replacement);
                }
                self.records[i] = replacement;
                return true;
            }
            i += 1;
        }
        false
    }

    /// The compare-and-swap update used by the refresh flow: replaces the
    /// stored refresh token (or clears it, on `None`) and the last-login
    /// time only if the record for `address` exists and currently holds
    /// exactly `expected_current`; reports whether it did. The store is
    /// unchanged on any mismatch, so a stale writer cannot overwrite a
    /// newer rotation.
    pub fn update_if_current(
        &mut self,
        address: &str,
        expected_current: &str,
        new_token: Option<String>,
        last_login_at: u64,
    ) -> (r: bool)
        requires
            old(self).wf(),
        ensures
            final(self).wf(),
            r == (old(self)@.contains_key(address@) && old(self)@[address@].current_refresh_token
                == Some(expected_current@)),
            r ==> final(self)@ == old(self)@.insert(
                address@,
                SessionRecordView {
                    address: address@,
                    current_refresh_token: opt_token_view(new_token),
                    last_login_at,
                    created_at: old(self)@[address@].created_at,
                },
            ),
            !r ==> final(self)@ == old(self)@,
    {
        let n = self.records.len();
        let mut i: usize = 0;
        while i < n
            invariant
                i <= n,
                n == self.records@.len(),
                self == old(self),
                self.wf(),
                forall|j: int| 0 <= j < i ==> self.records@[j].address@ != address@,
            decreases n - i,
        {
            let found = str_eq(self.records[i].address.as_str(), address);
            if found {
                proof {
                    lemma_map_at(self.records@, i as int);
                }
                let matches_expected = match &self.records[i].current_refresh_token {
                    Some(t) => str_eq(t.as_str(), expected_current),
                    None => false,
                };
                if !matches_expected {
                    return false;
                }
                let created_at = self.records[i].created_at;
                let replacement = SessionRecord {
                    address: self.records[i].address.clone(),
                    current_refresh_token: new_token,
                    last_login_at,
                    created_at,
                };
                proof {
                    lemma_map_update(self.records@, i as int, replacement);
                }
                self.records[i] = replacement;
                return true;
            }
            i += 1;
        }
        false
    }
}

} // verus!
