use catgirl_engine::args::Args;
use catgirl_engine::args::ArgsStore;
use catgirl_engine::args::ResourcePathStore;
use catgirl_engine::args::get_args;
use catgirl_engine::args::get_resources_path;
use catgirl_engine::args::process_args;
use catgirl_engine::args::set_parsed_args;
use catgirl_engine::args::store_resources_path;
use catgirl_engine::assets::AssetStore;
use catgirl_engine::assets::get_asset;
use catgirl_engine::assets::store_embedded_assets;
use catgirl_engine::emscripten::EmscriptenResult;
use catgirl_engine::emscripten::read_emscripten_result;
use catgirl_engine::engine_name::EngineNameStore;
use catgirl_engine::engine_name::get_engine_name;
use catgirl_engine::engine_name::set_engine_name;
use catgirl_engine::exit::ExitFlag;
use catgirl_engine::strings::is_likely_secret;
use catgirl_engine::strings::mask_string;
use catgirl_engine::strings::repeat_string;
use catgirl_engine::strings::str_contains;
use catgirl_engine::threads::Builder;

#[test]
fn set_exit_more_than_once_has_the_effect_of_once() {
    let mut flag = ExitFlag::new();
    assert!(!flag.is_exiting());
    // The first call sets the flag and owes the single diagnostic.
    assert!(flag.set_exit());
    assert!(flag.is_exiting());
    // Every further call changes nothing and owes no diagnostic.
    for _ in 0..4 {
        assert!(!flag.set_exit());
        assert!(flag.is_exiting());
    }
}

#[test]
fn repeat_string_repeats() {
    assert_eq!(repeat_string(0, "ab"), "");
    assert_eq!(repeat_string(1, "ab"), "ab");
    assert_eq!(repeat_string(3, "ab"), "ababab");
    assert_eq!(repeat_string(3, ""), "");
}

#[test]
fn mask_string_hides_every_character() {
    assert_eq!(mask_string(""), "");
    assert_eq!(mask_string("hunter2"), "*******");
    // One asterisk per character, not per byte.
    assert_eq!(mask_string("päßwörd"), "*******");
}

#[test]
fn str_contains_finds_runs_of_characters() {
    assert!(str_contains("hello world", "world"));
    assert!(str_contains("hello world", ""));
    assert!(str_contains("hello world", "hello world"));
    assert!(!str_contains("hello world", "worlds"));
    assert!(!str_contains("", "a"));
}

#[test]
fn str_contains_handles_overlapping_candidates() {
    assert!(str_contains("aaab", "aab"));
    assert!(str_contains("abcabd", "abd"));
    assert!(!str_contains("abcabc", "abd"));
}

#[test]
fn likely_secrets_are_recognized_case_insensitively() {
    assert!(is_likely_secret("password"));
    assert!(is_likely_secret("MY_PASSWORD"));
    assert!(is_likely_secret("GitHub_Webhook_Url"));
    assert!(is_likely_secret("release_store_file"));
    assert!(is_likely_secret("Api_Key"));
    assert!(is_likely_secret("SSH_AUTH_SOCK"));
    assert!(is_likely_secret("signing"));
    assert!(is_likely_secret("ACCOUNT_ID"));
    assert!(is_likely_secret("TOKEN"));
    assert!(is_likely_secret("TopSecret"));
    assert!(!is_likely_secret("PATH"));
    assert!(!is_likely_secret("HOME"));
    assert!(!is_likely_secret("pass_word"));
}

#[test]
fn emscripten_results_render_by_code() {
    assert_eq!(read_emscripten_result(0), "Success");
    assert_eq!(read_emscripten_result(1), "Deferred");
    assert_eq!(read_emscripten_result(-1), "NotSupported");
    assert_eq!(read_emscripten_result(-2), "FailedNotDeferred");
    assert_eq!(read_emscripten_result(-3), "InvalidTarget");
    assert_eq!(read_emscripten_result(-4), "UnknownTarget");
    assert_eq!(read_emscripten_result(-5), "InvalidParam");
    assert_eq!(read_emscripten_result(-6), "Failed");
    assert_eq!(read_emscripten_result(-7), "NoData");
    assert_eq!(read_emscripten_result(-8), "TimedOut");
    assert_eq!(read_emscripten_result(2), "Unknown");
    assert_eq!(read_emscripten_result(-9), "Unknown");
}

#[test]
fn emscripten_try_from_accepts_exactly_the_known_codes() {
    assert!(EmscriptenResult::try_from(0).is_ok());
    assert!(EmscriptenResult::try_from(-8).is_ok());
    assert!(EmscriptenResult::try_from(2).is_err());
    assert!(EmscriptenResult::try_from(i32::MIN).is_err());
}

#[test]
fn engine_name_defaults_and_sets_once() {
    let mut store = EngineNameStore::new();
    assert_eq!(get_engine_name(&store), "game-engine");
    set_engine_name(&mut store, String::from("my-engine"));
    assert_eq!(get_engine_name(&store), "my-engine");
    set_engine_name(&mut store, String::from("other"));
    assert_eq!(get_engine_name(&store), "my-engine");
}

#[test]
fn resources_path_defaults_and_stores_once() {
    let mut store = ResourcePathStore::new();
    assert_eq!(get_resources_path(&store), "resources");
    store_resources_path(&mut store, String::from("custom"));
    assert_eq!(get_resources_path(&store), "custom");
    store_resources_path(&mut store, String::from("later"));
    assert_eq!(get_resources_path(&store), "custom");
}

fn sample_args() -> Args {
    Args {
        server: false,
        version: true,
        resources: String::from("data"),
        print_environment_variables: true,
        install_desktop_files: false,
        uninstall_desktop_files: true,
    }
}

#[test]
fn parsed_args_are_stored_once_and_read_back() {
    let mut store = ArgsStore::new();
    assert!(get_args(&store).is_none());
    set_parsed_args(&mut store, sample_args());
    let read = get_args(&store).unwrap();
    assert!(!read.server);
    assert!(read.version);
    assert_eq!(read.resources, "data");
    let mut other = sample_args();
    other.server = true;
    set_parsed_args(&mut store, other);
    assert!(!get_args(&store).unwrap().server);
}

#[test]
fn process_args_plans_the_requested_side_effects() {
    let mut paths = ResourcePathStore::new();
    let args = sample_args();
    let plan = process_args(&mut paths, &args);
    assert!(!plan.install_desktop_files);
    assert!(plan.uninstall_desktop_files);
    assert!(plan.print_environment_variables);
    assert_eq!(plan.resources_path, "data");
    assert_eq!(get_resources_path(&paths), "data");
}

#[test]
fn embedded_assets_store_once() {
    let mut store = AssetStore::new();
    store_embedded_assets(&mut store, String::from("assets"));
    store_embedded_assets(&mut store, String::from("other"));
    assert_eq!(store.assets.as_deref(), Some("assets"));
    get_asset(&store, "anything");
}

#[test]
fn thread_builder_accumulates_configuration() {
    let builder = Builder::new();
    assert!(builder.name.is_none());
    assert!(builder.stack_size.is_none());
    let builder = builder.name(String::from("physics")).stack_size(1 << 20);
    assert_eq!(builder.name.as_deref(), Some("physics"));
    assert_eq!(builder.stack_size, Some(1 << 20));
}
