//! Engine identity used for naming and license compliance.

use vstd::prelude::*;
use vstd::string::*;

verus! {

/// Holds the engine's name once it was set.
#[derive(Debug)]
pub struct EngineNameStore {
    /// The stored name, if one was set yet.
    pub name: Option<String>,
}

impl EngineNameStore {
    /// A store with no name set yet.
    pub fn new() -> (store: EngineNameStore)
        ensures
            store.name is None,
    {
        EngineNameStore { name: None }
    }
}

/// Sets the engine's name for both license compliance and naming, once:
/// a name set earlier wins.
pub fn set_engine_name(store: &mut EngineNameStore, engine_name: String)
    ensures
        final(store).name is Some,
        old(store).name is None ==> final(store).name == Some(engine_name),
        old(store).name is Some ==> *final(store) == *old(store),
{
    if store.name.is_some() {
        return;
    }
    store.name = Some(engine_name);
}

/// Gets the engine's name: the stored one, or `game-engine` while none
/// was set.
pub fn get_engine_name(store: &EngineNameStore) -> (name: String)
    ensures
        match store.name {
            Some(n) => name@ == n@,
            None => name@ == "game-engine"@,
        },
{
    match &store.name {
        Some(n) => n.clone(),
        None => String::from_str("game-engine"),
    }
}

} // verus!
