//! Command line arguments, parsed by the embedding and stored once.
//!
//! Parsing itself (and everything it needs from the process environment)
//! is the embedding's part; this module keeps the parsed values and
//! decides what they ask the embedding to do.

use vstd::prelude::*;
use vstd::string::*;

verus! {

/// List of possible command line arguments.
#[derive(Debug)]
pub struct Args {
    /// Start the engine in dedicated server mode.
    pub server: bool,
    /// Display version and copyright info.
    pub version: bool,
    /// Custom resources path.
    pub resources: String,
    /// Print all environment variables.
    pub print_environment_variables: bool,
    /// Install the desktop files for launching from the application menu.
    pub install_desktop_files: bool,
    /// Uninstall the previously installed desktop files.
    pub uninstall_desktop_files: bool,
}

/// Whether two argument values agree field by field.
pub open spec fn spec_args_eq(a: Args, b: Args) -> bool {
    &&& a.server == b.server
    &&& a.version == b.version
    &&& a.resources@ == b.resources@
    &&& a.print_environment_variables == b.print_environment_variables
    &&& a.install_desktop_files == b.install_desktop_files
    &&& a.uninstall_desktop_files == b.uninstall_desktop_files
}

/// Field-by-field copy of an argument value.
fn copy_args(args: &Args) -> (copied: Args)
    ensures
        spec_args_eq(copied, *args),
{
    Args {
        server: args.server,
        version: args.version,
        resources: args.resources.clone(),
        print_environment_variables: args.print_environment_variables,
        install_desktop_files: args.install_desktop_files,
        uninstall_desktop_files: args.uninstall_desktop_files,
    }
}

/// Holds the parsed command line arguments once the embedding stored
/// them.
#[derive(Debug)]
pub struct ArgsStore {
    /// The stored arguments, if any were stored yet.
    pub args: Option<Args>,
}

impl ArgsStore {
    /// A store with nothing parsed yet.
    pub fn new() -> (store: ArgsStore)
        ensures
            store.args is None,
    {
        ArgsStore { args: None }
    }
}

/// Stores parsed args passed in from the embedding, once: if arguments
/// were already stored, later ones are ignored.
pub fn set_parsed_args(store: &mut ArgsStore, args: Args)
    ensures
        final(store).args is Some,
        old(store).args is Some ==> *final(store) == *old(store),
        old(store).args is None ==> final(store).args == Some(args),
{
    if store.args.is_some() {
        return;
    }
    store.args = Some(args);
}

/// Retrieves the previously stored arguments, if any.
pub fn get_args(store: &ArgsStore) -> (args: Option<Args>)
    ensures
        match args {
            Some(a) => store.args is Some && spec_args_eq(a, store.args.unwrap()),
            None => store.args is None,
        },
{
    match &store.args {
        Some(a) => Some(copy_args(a)),
        None => None,
    }
}

/// What the embedding must do for the stored arguments, in order: run
/// the desktop-file steps that were asked for, then optionally print the
/// environment.
#[derive(Debug)]
pub struct ArgsPlan {
    /// Uninstall the previously installed desktop files.
    pub uninstall_desktop_files: bool,
    /// Install the desktop files.
    pub install_desktop_files: bool,
    /// Print all environment variables (with secret values masked).
    pub print_environment_variables: bool,
    /// The resources path that was stored for later lookups.
    pub resources_path: String,
}

/// Processes args for future use: remembers the resources path in the
/// given store and tells the embedding which side effects the arguments
/// ask for.
pub fn process_args(paths: &mut ResourcePathStore, args: &Args) -> (plan: ArgsPlan)
    ensures
        plan.uninstall_desktop_files == args.uninstall_desktop_files,
        plan.install_desktop_files == args.install_desktop_files,
        plan.print_environment_variables == args.print_environment_variables,
        plan.resources_path@ == args.resources@,
        final(paths).path is Some,
        old(paths).path is None ==> final(paths).path.unwrap()@ == args.resources@,
        old(paths).path is Some ==> *final(paths) == *old(paths),
{
    store_resources_path(paths, args.resources.clone());
    ArgsPlan {
        uninstall_desktop_files: args.uninstall_desktop_files,
        install_desktop_files: args.install_desktop_files,
        print_environment_variables: args.print_environment_variables,
        resources_path: args.resources.clone(),
    }
}

/// Holds the path to the resources directory once it was chosen.
#[derive(Debug)]
pub struct ResourcePathStore {
    /// The stored path, if one was stored yet.
    pub path: Option<String>,
}

impl ResourcePathStore {
    /// A store with no path chosen yet.
    pub fn new() -> (store: ResourcePathStore)
        ensures
            store.path is None,
    {
        ResourcePathStore { path: None }
    }
}

/// Stores a custom path to the resources directory, once: a path stored
/// earlier wins.
pub fn store_resources_path(store: &mut ResourcePathStore, path: String)
    ensures
        final(store).path is Some,
        old(store).path is None ==> final(store).path == Some(path),
        old(store).path is Some ==> *final(store) == *old(store),
{
    if store.path.is_some() {
        return;
    }
    store.path = Some(path);
}

/// Gets the resources path: the stored one, or `resources` while none
/// was stored.
pub fn get_resources_path(store: &ResourcePathStore) -> (path: String)
    ensures
        match store.path {
            Some(p) => path@ == p@,
            None => path@ == "resources"@,
        },
{
    match &store.path {
        Some(p) => p.clone(),
        None => String::from_str("resources"),
    }
}

} // verus!
