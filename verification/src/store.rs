//! The sessions on file: at most one per owner.

use vstd::prelude::*;

use crate::types::{AccountId, SessionData, SessionView};

verus! {

/// Sessions keyed by the account that owns them.
///
/// The table is hashbrown's `HashMap` as sails-rs hands it on. All that is
/// said of it is said through [`session_entries`].
#[verifier::external_body]
pub struct SessionMap {
    table: sails_rs::collections::HashMap<AccountId, SessionData>,
}

/// What a [`SessionMap`] holds: the session filed under each owner.
pub uninterp spec fn session_entries(map: SessionMap) -> Map<AccountId, SessionView>;

impl SessionMap {
    /// Calls `HashMap::new`. Trusted: the new table holds nothing.
    #[verifier::external_body]
    pub(crate) fn new() -> (map: SessionMap)
        ensures
            session_entries(map) =~= Map::empty(),
    {
        SessionMap { table: sails_rs::collections::HashMap::new() }
    }

    /// Calls `HashMap::get`. Trusted: it finds the session filed under
    /// `account`, if there is one, and hands out a reference to it.
    #[verifier::external_body]
    pub(crate) fn get(&self, account: &AccountId) -> (found: Option<&SessionData>)
        ensures
            found is Some <==> session_entries(*self).contains_key(*account),
            found is Some ==> found.unwrap()@ == session_entries(*self)[*account],
    {
        self.table.get(account)
    }

    /// Calls `HashMap::insert`. Trusted: afterwards `session` is filed under
    /// `account` and every other entry is as before; what was filed under
    /// `account` before, if anything, is returned.
    #[verifier::external_body]
    pub(crate) fn insert(&mut self, account: AccountId, session: SessionData) -> (previous: Option<
        SessionData,
    >)
        ensures
            session_entries(*final(self)) == session_entries(*old(self)).insert(account, session@),
            previous is Some <==> session_entries(*old(self)).contains_key(account),
            previous is Some ==> previous.unwrap()@ == session_entries(*old(self))[account],
    {
        self.table.insert(account, session)
    }

    /// Calls `HashMap::remove`. Trusted: afterwards nothing is filed under
    /// `account` and every other entry is as before; what was filed under
    /// `account`, if anything, is returned.
    #[verifier::external_body]
    pub(crate) fn remove(&mut self, account: &AccountId) -> (removed: Option<SessionData>)
        ensures
            session_entries(*final(self)) == session_entries(*old(self)).remove(*account),
            removed is Some <==> session_entries(*old(self)).contains_key(*account),
            removed is Some ==> removed.unwrap()@ == session_entries(*old(self))[*account],
    {
        self.table.remove(account)
    }

    /// Calls `HashMap::iter` and copies each entry out. Trusted: every entry
    /// is visited exactly once. The order is the table's own and nothing is
    /// said of it.
    #[verifier::external_body]
    pub(crate) fn entries(&self) -> (pairs: Vec<(AccountId, SessionData)>)
        ensures
            listing_matches(pairs@, session_entries(*self)),
    {
        self.table.iter().map(|(account, session)| (*account, session.clone())).collect()
    }
}

/// Whether `pairs` lists exactly the entries of `sessions`, each once.
pub open spec fn listing_matches(
    pairs: Seq<(AccountId, SessionData)>,
    sessions: Map<AccountId, SessionView>,
) -> bool {
    &&& forall|i: int|
        0 <= i < pairs.len() ==> sessions.contains_key(#[trigger] pairs[i].0) && sessions[pairs[i].0]
            == pairs[i].1@
    &&& forall|account: AccountId| #[trigger]
        sessions.contains_key(account) ==> exists|i: int|
            0 <= i < pairs.len() && #[trigger] pairs[i].0 == account
    &&& forall|i: int, j: int|
        0 <= i < j < pairs.len() ==> #[trigger] pairs[i].0 != #[trigger] pairs[j].0
}

} // verus!
