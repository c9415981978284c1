//! A service paired with the cookie store it consults.

use vstd::prelude::*;

verus! {

/// A request handler together with a store of cookies. The manager owns both
/// and adds nothing of its own.
pub struct CookieManager<Store, S> {
    pub inner: S,
    pub store: Store,
}

impl<Store, S> CookieManager<Store, S> {
    /// Pairs `inner` with `store`.
    pub fn new(store: Store, inner: S) -> (manager: Self)
        ensures
            manager.store == store,
            manager.inner == inner,
    {
        Self { inner, store }
    }
}

} // verus!
