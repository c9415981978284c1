//! The registry of outstanding anti-forgery state tokens.
//!
//! A token enters the registry when a login starts and leaves it the first
//! time a callback presents it. A token that is never presented stays until
//! the registry is dropped.

use vstd::hash_set::StringHashSet;
use vstd::prelude::*;

verus! {

/// The set of state tokens that were issued and not yet consumed.
///
/// Every method that changes the set takes `&mut self`: the borrow rules
/// then admit one caller at a time, and a server shares the registry behind a
/// lock of its own.
pub struct StateRegistry {
    tokens: StringHashSet,
}

impl View for StateRegistry {
    type V = Set<Seq<char>>;

    closed spec fn view(&self) -> Set<Seq<char>> {
        self.tokens@
    }
}

/// The registry after `register(token)`.
pub open spec fn registered(outstanding: Set<Seq<char>>, token: Seq<char>) -> Set<Seq<char>> {
    outstanding.insert(token)
}

/// The registry after `consume(token)`.
pub open spec fn consumed(outstanding: Set<Seq<char>>, token: Seq<char>) -> Set<Seq<char>> {
    outstanding.remove(token)
}

/// What `consume(token)` answers on a registry that holds `outstanding`.
pub open spec fn consume_succeeds(outstanding: Set<Seq<char>>, token: Seq<char>) -> bool {
    outstanding.contains(token)
}

impl StateRegistry {
    /// A registry with no outstanding token.
    pub fn new() -> (registry: Self)
        ensures
            registry@ == Set::<Seq<char>>::empty(),
    {
        StateRegistry { tokens: StringHashSet::new() }
    }

    /// Adds `token` to the outstanding tokens. Registering a token that is
    /// already outstanding changes nothing.
    pub fn register(&mut self, token: String)
        ensures
            final(self)@ == registered(old(self)@, token@),
    {
        self.tokens.insert(token);
    }

    /// Removes `token` if it is outstanding and says whether it was.
    pub fn consume(&mut self, token: &str) -> (was_outstanding: bool)
        ensures
            was_outstanding == consume_succeeds(old(self)@, token@),
            final(self)@ == consumed(old(self)@, token@),
    {
        self.tokens.remove(token)
    }

    /// Whether `token` is outstanding.
    pub fn contains(&self, token: &str) -> (is_outstanding: bool)
        ensures
            is_outstanding == self@.contains(token@),
    {
        self.tokens.contains(token)
    }

    /// The number of outstanding tokens.
    pub fn len(&self) -> (count: usize)
        ensures
            count == self@.len(),
    {
        self.tokens.len()
    }

    /// Whether no token is outstanding.
    pub fn is_empty(&self) -> (none_outstanding: bool)
        ensures
            none_outstanding == self@.is_empty(),
    {
        self.tokens.is_empty()
    }
}

/// A registered token is consumed successfully exactly once: the first
/// `consume` after `register` succeeds, and every later one fails, however
/// many other tokens are registered or consumed in between.
pub proof fn law_consume_once(outstanding: Set<Seq<char>>, token: Seq<char>)
    ensures
        consume_succeeds(registered(outstanding, token), token),
        !consume_succeeds(consumed(registered(outstanding, token), token), token),
        forall|later: Set<Seq<char>>, other: Seq<char>|
            !consume_succeeds(later, token) && other != token ==> !consume_succeeds(
                #[trigger] consumed(later, other),
                token,
            ),
        forall|later: Set<Seq<char>>, other: Seq<char>|
            !consume_succeeds(later, token) && other != token ==> !consume_succeeds(
                #[trigger] registered(later, other),
                token,
            ),
{
}

/// Of two `consume` calls for the same token, made one after the other on a
/// registry that holds it, exactly one succeeds. Calls from several threads
/// reach the registry one after the other, so this covers every interleaving
/// of two callers.
pub proof fn law_consume_exclusive(outstanding: Set<Seq<char>>, token: Seq<char>)
    requires
        outstanding.contains(token),
    ensures
        consume_succeeds(outstanding, token),
        !consume_succeeds(consumed(outstanding, token), token),
        consumed(consumed(outstanding, token), token) == consumed(outstanding, token),
{
}

/// Consuming a token that is not outstanding fails and leaves the registry as
/// it was.
pub proof fn law_failed_consume_keeps_registry(outstanding: Set<Seq<char>>, token: Seq<char>)
    requires
        !outstanding.contains(token),
    ensures
        !consume_succeeds(outstanding, token),
        consumed(outstanding, token) == outstanding,
{
    assert(outstanding.remove(token) =~= outstanding);
}

} // verus!
