use workshop_cache::install_dir_from_tokens;
use workshop_cache::key_values;
use workshop_cache::library_paths_from_tokens;
use workshop_cache::PathLookupCache;
use workshop_cache::PATH_CACHE_TTL_SECS;

fn tokens(strs: &[&str]) -> Vec<String> {
    strs.iter().map(|s| s.to_string()).collect()
}

#[test]
fn test_app_installation_path() {
    // A manifest that names its installation directory resolves it; one
    // that does not yields nothing, which the command reports as its
    // error. Either way the outcome is cached for the next invocation.
    let manifest = tokens(&["appid", "440", "installdir", "Team Fortress 2", "name", "tf2"]);
    let resolved = install_dir_from_tokens(&manifest);
    assert_eq!(resolved, Some("Team Fortress 2".to_string()));

    let broken = tokens(&["appid", "440", "name", "tf2"]);
    assert_eq!(install_dir_from_tokens(&broken), None);

    let mut cache: PathLookupCache<Result<String, String>> = PathLookupCache::new_at(9_000);
    let outcome: Result<String, String> = match install_dir_from_tokens(&broken) {
        Some(dir) => Ok(dir),
        None => Err("Error: could not parse installation directory".to_string()),
    };
    cache.store(440, outcome, 9_000);
    match cache.lookup(440, PATH_CACHE_TTL_SECS, 9_100) {
        Some(Err(message)) => assert!(message.contains("Error:")),
        _ => panic!("expected the cached error"),
    }
}

#[test]
fn test_install_dir_key_at_end_has_no_value() {
    let manifest = tokens(&["appid", "440", "installdir"]);
    assert_eq!(install_dir_from_tokens(&manifest), None);
}

#[test]
fn test_library_paths_from_tokens() {
    let metadata = tokens(&[
        "libraryfolders", "0", "path", "C:\\\\Program Files\\\\Steam", "label", "",
        "1", "path", "D:\\\\SteamLibrary",
    ]);
    let paths = library_paths_from_tokens(&metadata);
    assert_eq!(
        paths,
        vec!["C:\\Program Files\\Steam".to_string(), "D:\\SteamLibrary".to_string()]
    );
}

#[test]
fn test_key_values_scans_every_position() {
    let toks = tokens(&["path", "path", "x"]);
    let key = "path".to_string();
    assert_eq!(key_values(&toks, &key), vec!["path".to_string(), "x".to_string()]);
}
