//! Embedded assets handed over by the build.

use vstd::prelude::*;

verus! {

/// Holds the embedded assets once the build stored them.
#[derive(Debug)]
pub struct AssetStore {
    /// The embedded assets, if any were stored yet.
    pub assets: Option<String>,
}

impl AssetStore {
    /// A store with no assets yet.
    pub fn new() -> (store: AssetStore)
        ensures
            store.assets is None,
    {
        AssetStore { assets: None }
    }
}

/// Allows using embedded assets from this crate, once: assets stored
/// earlier win.
pub fn store_embedded_assets(store: &mut AssetStore, embedded_assets: String)
    ensures
        final(store).assets is Some,
        old(store).assets is None ==> final(store).assets == Some(embedded_assets),
        old(store).assets is Some ==> *final(store) == *old(store),
{
    if store.assets.is_some() {
        return;
    }
    store.assets = Some(embedded_assets);
}

/// Asset lookup by path.  Locating assets on the filesystem is the
/// embedding's part; nothing is looked up here yet, so the path is
/// accepted and ignored.
pub fn get_asset(store: &AssetStore, path: &str)
{
    let _ = store;
    let _ = path;
}

} // verus!
