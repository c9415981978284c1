//! Sessions: the token records that logins produced, each under its own
//! identifier.
//!
//! A record is stored once and never changed or removed. Its lifetime is
//! advisory: the browser is told how long the cookie lives, and the store does
//! not expire the record itself.

use vstd::hash_map::StringHashMap;
use vstd::prelude::*;

verus! {

/// The credential that the provider hands out for an authorization code.
#[derive(Debug, Clone, PartialEq, Eq)]
pub struct TokenRecord {
    /// The access token. Secret: it is never sent to the browser.
    pub access_token: String,
    /// The refresh token, where the provider sent one. Secret.
    pub refresh_token: Option<String>,
    /// The lifetime of the access token, in seconds.
    pub expires_in: u64,
    /// The kind of token, such as `Bearer`.
    pub token_type: String,
}

/// A token record as a mathematical value.
pub struct TokenRecordView {
    pub access_token: Seq<char>,
    pub refresh_token: Option<Seq<char>>,
    pub expires_in: u64,
    pub token_type: Seq<char>,
}

impl View for TokenRecord {
    type V = TokenRecordView;

    open spec fn view(&self) -> TokenRecordView {
        TokenRecordView {
            access_token: self.access_token@,
            refresh_token: match self.refresh_token {
                Some(text) => Some(text@),
                None => None,
            },
            expires_in: self.expires_in,
            token_type: self.token_type@,
        }
    }
}

/// The token records of the live sessions, by session identifier.
///
/// Every method that changes the store takes `&mut self`, so the test for a
/// free identifier and the insertion under it cannot be separated by another
/// caller.
pub struct SessionStore {
    sessions: StringHashMap<TokenRecord>,
}

impl View for SessionStore {
    type V = Map<Seq<char>, TokenRecordView>;

    closed spec fn view(&self) -> Map<Seq<char>, TokenRecordView> {
        self.sessions@.map_values(|record: TokenRecord| record@)
    }
}

impl SessionStore {
    /// A store without sessions.
    pub fn new() -> (store: Self)
        ensures
            store@ == Map::<Seq<char>, TokenRecordView>::empty(),
    {
        let store = SessionStore { sessions: StringHashMap::new() };
        assert(store@ =~= Map::<Seq<char>, TokenRecordView>::empty());
        store
    }

    /// Whether `id` names a session.
    pub fn contains(&self, id: &str) -> (found: bool)
        ensures
            found == self@.contains_key(id@),
    {
        self.sessions.contains_key(id)
    }

    /// The record of session `id`, if there is one. For use inside the
    /// server: a record holds secrets and is not for the browser.
    pub fn get(&self, id: &str) -> (found: Option<&TokenRecord>)
        ensures
            found is Some <==> self@.contains_key(id@),
            found matches Some(record) ==> record@ == self@[id@],
    {
        self.sessions.get(id)
    }

    /// The number of sessions.
    pub fn len(&self) -> (count: usize)
        ensures
            count == self@.len(),
    {
        broadcast use vstd::hash_map::axiom_string_hash_map_spec_len;

        assert(self@.dom() =~= self.sessions@.dom());
        self.sessions.len()
    }

    /// Stores `record` under `candidate` if no session has that identifier,
    /// and hands the identifier back. Where one has, the store stays as it is
    /// and the record comes back.
    pub fn try_insert(&mut self, candidate: String, record: TokenRecord) -> (outcome: Result<
        String,
        TokenRecord,
    >)
        ensures
            outcome is Ok <==> !old(self)@.contains_key(candidate@),
            outcome matches Ok(id) ==> id@ == candidate@ && final(self)@ == old(self)@.insert(
                candidate@,
                record@,
            ),
            outcome matches Err(returned) ==> returned == record && final(self)@ == old(self)@,
    {
        if self.sessions.contains_key(candidate.as_str()) {
            Err(record)
        } else {
            let id = candidate.clone();
            self.sessions.insert(candidate, record);
            assert(self@ =~= old(self)@.insert(candidate@, record@));
            Ok(id)
        }
    }

    /// Asks `generate` for candidate identifiers, at most `attempts` times,
    /// until one names no session, stores `record` under it and returns it.
    ///
    /// The identifier returned was free when the record went in, and no other
    /// session is touched. If every candidate was taken, the store stays as it
    /// is and the record comes back. The first candidate is accepted where
    /// `generate` cannot produce a taken identifier, and none is where it can
    /// produce no other.
    pub fn insert_unique<F: Fn() -> String>(
        &mut self,
        generate: F,
        record: TokenRecord,
        attempts: usize,
    ) -> (outcome: Result<String, TokenRecord>)
        requires
            generate.requires(()),
        ensures
            outcome matches Ok(id) ==> {
                &&& generate.ensures((), id)
                &&& !old(self)@.contains_key(id@)
                &&& final(self)@ == old(self)@.insert(id@, record@)
            },
            outcome matches Err(returned) ==> returned == record && final(self)@ == old(self)@,
            attempts == 0 ==> outcome is Err,
            attempts > 0 && (forall|id: String| #[trigger]
                generate.ensures((), id) ==> !old(self)@.contains_key(id@)) ==> outcome is Ok,
            (forall|id: String| #[trigger]
                generate.ensures((), id) ==> old(self)@.contains_key(id@)) ==> outcome is Err,
    {
        let mut tried: usize = 0;
        while tried < attempts
            invariant
                generate.requires(()),
                *self == *old(self),
                tried > 0 ==> exists|id: String| #[trigger]
                    generate.ensures((), id) && old(self)@.contains_key(id@),
            decreases attempts - tried,
        {
            let candidate = generate();
            if !self.sessions.contains_key(candidate.as_str()) {
                let id = candidate.clone();
                self.sessions.insert(candidate, record);
                assert(self@ =~= old(self)@.insert(id@, record@));
                return Ok(id);
            }
            tried = tried + 1;
        }
        Err(record)
    }
}

/// The sessions after the insertions of `records` under `ids`, one after the
/// other.
pub open spec fn after_insertions(
    sessions: Map<Seq<char>, TokenRecordView>,
    ids: Seq<Seq<char>>,
    records: Seq<TokenRecordView>,
) -> Map<Seq<char>, TokenRecordView>
    decreases ids.len(),
{
    if ids.len() == 0 {
        sessions
    } else {
        after_insertions(sessions, ids.drop_last(), records.drop_last()).insert(
            ids.last(),
            records.last(),
        )
    }
}

/// Whether each of `ids` was free at the moment its record went in, that is,
/// whether `try_insert` accepted every one of the insertions.
pub open spec fn all_accepted(
    sessions: Map<Seq<char>, TokenRecordView>,
    ids: Seq<Seq<char>>,
    records: Seq<TokenRecordView>,
) -> bool
    decreases ids.len(),
{
    ids.len() == 0 || {
        &&& all_accepted(sessions, ids.drop_last(), records.drop_last())
        &&& !after_insertions(sessions, ids.drop_last(), records.drop_last()).contains_key(
            ids.last(),
        )
    }
}

/// Any number of logins, in whatever order they reach the store, get
/// identifiers that differ from each other and from every identifier that was
/// there before. Afterwards each identifier names the record of its own
/// login, and the sessions that were there before are as they were.
pub proof fn law_identifiers_are_unique(
    sessions: Map<Seq<char>, TokenRecordView>,
    ids: Seq<Seq<char>>,
    records: Seq<TokenRecordView>,
)
    requires
        ids.len() == records.len(),
        all_accepted(sessions, ids, records),
    ensures
        forall|i: int, j: int| 0 <= i < j < ids.len() ==> ids[i] != ids[j],
        forall|i: int| 0 <= i < ids.len() ==> !sessions.contains_key(#[trigger] ids[i]),
        forall|i: int|
            0 <= i < ids.len() ==> after_insertions(sessions, ids, records).contains_key(
                #[trigger] ids[i],
            ) && after_insertions(sessions, ids, records)[ids[i]] == records[i],
        forall|id: Seq<char>| #[trigger]
            sessions.contains_key(id) ==> after_insertions(sessions, ids, records).contains_key(id)
                && after_insertions(sessions, ids, records)[id] == sessions[id],
        forall|id: Seq<char>| #[trigger]
            after_insertions(sessions, ids, records).contains_key(id) ==> sessions.contains_key(id)
                || ids.contains(id),
    decreases ids.len(),
{
    if ids.len() > 0 {
        let earlier = ids.drop_last();
        law_identifiers_are_unique(sessions, earlier, records.drop_last());
        let before = after_insertions(sessions, earlier, records.drop_last());
        assert forall|i: int| 0 <= i < ids.len() - 1 implies ids[i] != ids.last() by {
            assert(earlier[i] == ids[i]);
            assert(before.contains_key(earlier[i]));
        }
        assert forall|i: int, j: int| 0 <= i < j < ids.len() implies ids[i] != ids[j] by {
            if j < ids.len() - 1 {
                assert(earlier[i] == ids[i] && earlier[j] == ids[j]);
            }
        }
        assert forall|i: int| 0 <= i < ids.len() implies !sessions.contains_key(
            #[trigger] ids[i],
        ) by {
            if i < ids.len() - 1 {
                assert(earlier[i] == ids[i]);
            }
        }
        assert forall|i: int| 0 <= i < ids.len() implies after_insertions(
            sessions,
            ids,
            records,
        ).contains_key(#[trigger] ids[i]) && after_insertions(sessions, ids, records)[ids[i]]
            == records[i] by {
            if i < ids.len() - 1 {
                assert(earlier[i] == ids[i]);
                assert(records.drop_last()[i] == records[i]);
            }
        }
        assert forall|id: Seq<char>| #[trigger]
            after_insertions(sessions, ids, records).contains_key(id) implies sessions.contains_key(
            id,
        ) || ids.contains(id) by {
            if id == ids.last() {
                assert(ids[ids.len() - 1] == id);
            } else if !sessions.contains_key(id) {
                assert(before.contains_key(id));
                let k = choose|k: int| 0 <= k < earlier.len() && earlier[k] == id;
                assert(ids[k] == id);
            }
        }
    }
}

} // verus!
