//! Embedded resource files and their lookup.
//!
//! Resources may be embedded into the binary by the build; the embedding
//! hands them to this store once at startup.  Lookup by path returns the
//! first embedded file with that exact path.  Reading resources from the
//! filesystem, which the loader tries before falling back to the embedded
//! set, is the embedding's part.

use vstd::prelude::*;
use vstd::string::*;
use vstd::utf8::encode_utf8;
use vstd::utf8::valid_utf8;

verus! {

/// One file embedded into the binary.
#[derive(Debug)]
pub struct EmbeddedFile {
    /// Relative file path, with `/` separating the components.
    pub path: String,
    /// Contents of the file.
    pub contents: Vec<u8>,
}

/// The set of files embedded into the binary.
#[derive(Debug)]
pub struct EmbeddedFiles {
    /// Vector containing the embedded files.
    pub inner: Vec<EmbeddedFile>,
}

/// Where embedded resources are kept once the embedding stored them.
/// Storing is a once-only operation; later attempts change nothing.
#[derive(Debug)]
pub struct ResourceStore {
    /// The embedded files, empty until stored.
    pub files: EmbeddedFiles,
    /// Whether the embedding has stored its resources already.
    pub stored: bool,
}

/// The contents of the first embedded file whose path equals `path`.
pub open spec fn spec_find_resource(files: Seq<EmbeddedFile>, path: Seq<char>) -> Option<Seq<u8>>
    decreases files.len(),
{
    if files.len() == 0 {
        None
    } else if files[0].path@ == path {
        Some(files[0].contents@)
    } else {
        spec_find_resource(files.skip(1), path)
    }
}

/// Skipping past known non-matches does not change what is found.
proof fn lemma_find_resource_skip(files: Seq<EmbeddedFile>, path: Seq<char>, i: int)
    requires
        0 <= i <= files.len(),
        forall|k: int| 0 <= k < i ==> (#[trigger] files[k].path)@ != path,
    ensures
        spec_find_resource(files, path) == spec_find_resource(files.skip(i), path),
    decreases i,
{
    if i > 0 {
        assert(files.skip(1).skip(i - 1) =~= files.skip(i));
        assert(forall|k: int|
            0 <= k < i - 1 ==> (#[trigger] files.skip(1)[k].path)@ != path);
        lemma_find_resource_skip(files.skip(1), path, i - 1);
    } else {
        assert(files.skip(0) =~= files);
    }
}

impl ResourceStore {
    /// An empty store, before the embedding stored anything.
    pub fn new() -> (store: ResourceStore)
        ensures
            !store.stored,
            store.files.inner@.len() == 0,
    {
        ResourceStore { files: EmbeddedFiles { inner: Vec::new() }, stored: false }
    }
}

/// Hands the embedded resources to the store, once: a second call
/// changes nothing.
pub fn store_embedded_resources(store: &mut ResourceStore, embedded_resources: EmbeddedFiles)
    ensures
        final(store).stored,
        !old(store).stored ==> final(store).files == embedded_resources,
        old(store).stored ==> *final(store) == *old(store),
{
    if store.stored {
        return;
    }
    store.files = embedded_resources;
    store.stored = true;
}

/// Attempts to retrieve a resource file from within the binary: the
/// first embedded file with exactly the requested path, or an error when
/// no embedded file matches.
pub fn get_embedded_resource_file(store: &ResourceStore, path: &str) -> (resource: Result<
    Vec<u8>,
    String,
>)
    ensures
        match resource {
            Ok(bytes) => spec_find_resource(store.files.inner@, path@) == Some(bytes@),
            Err(_) => spec_find_resource(store.files.inner@, path@) is None,
        },
{
    let wanted = String::from_str(path);
    let files = &store.files.inner;
    let n = files.len();
    let mut i: usize = 0;
    while i < n
        invariant
            files@ == store.files.inner@,
            n == files@.len(),
            i <= n,
            wanted@ == path@,
            forall|k: int| 0 <= k < i ==> (#[trigger] files@[k].path)@ != path@,
        decreases n - i,
    {
        if files[i].path == wanted {
            proof {
                lemma_find_resource_skip(files@, path@, i as int);
                assert(files@.skip(i as int)[0] == files@[i as int]);
                assert(files@[i as int].path@ == path@);
                assert(spec_find_resource(files@, path@) == Some(files@[i as int].contents@));
            }
            return Ok(clone_bytes(&files[i].contents));
        }
        i = i + 1;
    }
    proof {
        lemma_find_resource_skip(files@, path@, n as int);
        assert(files@.skip(n as int) =~= Seq::empty());
    }
    Err(resource_not_found_message(path))
}

/// Retrieves an embedded resource as raw bytes.  (The loader order —
/// filesystem first, embedded second — has its filesystem step in the
/// embedding; this is the embedded step.)
pub fn get_resource_bytes(store: &ResourceStore, path: &str) -> (resource: Result<
    Vec<u8>,
    String,
>)
    ensures
        match resource {
            Ok(bytes) => spec_find_resource(store.files.inner@, path@) == Some(bytes@),
            Err(_) => spec_find_resource(store.files.inner@, path@) is None,
        },
{
    get_embedded_resource_file(store, path)
}

/// Retrieves an embedded resource as a UTF-8 string: found and valid
/// UTF-8 gives the decoded text, anything else an error.
pub fn get_resource_string(store: &ResourceStore, path: &str) -> (resource: Result<
    String,
    String,
>)
    ensures
        match resource {
            Ok(text) => spec_find_resource(store.files.inner@, path@)
                == Some(encode_utf8(text@)),
            Err(_) => match spec_find_resource(store.files.inner@, path@) {
                Some(bytes) => !valid_utf8(bytes),
                None => true,
            },
        },
{
    match get_resource_bytes(store, path) {
        Ok(bytes) => match utf8_to_string(bytes) {
            Some(text) => Ok(text),
            None => Err(resource_not_found_message(path)),
        },
        Err(message) => Err(message),
    }
}

/// The path of the engine's window-icon image within the resources.
pub open spec fn spec_icon_path() -> Seq<char> {
    "resources/assets/vanilla/texture/logo/logo-1024x1024.png"@
}

/// Retrieves the engine's icon as raw bytes, from the embedded
/// resources; absence is reported as nothing, never as a failure.
pub fn get_icon_bytes(store: &ResourceStore) -> (icon: Option<Vec<u8>>)
    ensures
        match icon {
            Some(bytes) => spec_find_resource(store.files.inner@, spec_icon_path())
                == Some(bytes@),
            None => spec_find_resource(store.files.inner@, spec_icon_path()) is None,
        },
{
    match get_resource_bytes(store, "resources/assets/vanilla/texture/logo/logo-1024x1024.png") {
        Ok(bytes) => Some(bytes),
        Err(_) => None,
    }
}

/// Relies on Vec::clone: the clone holds the same bytes.
#[verifier::external_body]
fn clone_bytes(bytes: &Vec<u8>) -> (cloned: Vec<u8>)
    ensures
        cloned@ == bytes@,
{
    bytes.clone()
}

/// Relies on String::from_utf8: succeeds exactly on valid UTF-8, and the
/// returned string's encoding is the input bytes.
#[verifier::external_body]
fn utf8_to_string(bytes: Vec<u8>) -> (text: Option<String>)
    ensures
        text is Some <==> valid_utf8(bytes@),
        text is Some ==> encode_utf8(text.unwrap()@) == bytes@,
{
    String::from_utf8(bytes).ok()
}

/// The error text reported when a resource cannot be loaded.
fn resource_not_found_message(path: &str) -> String {
    let mut message = String::from_str("Asset Not Found - Unable To Load Embedded Asset: ");
    message.append(path);
    message
}

} // verus!
