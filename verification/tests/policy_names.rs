//! Which directory entries load as compiled policies, and under what
//! names.

use yori_core::policy::{list_wasm_policies, wasm_policy_name};

#[test]
fn test_wasm_file_loads_under_stem() {
    assert_eq!(wasm_policy_name("bedtime.wasm"), Some("bedtime".to_string()));
    assert_eq!(
        wasm_policy_name("rate_limit.wasm"),
        Some("rate_limit".to_string())
    );
}

#[test]
fn test_non_wasm_files_are_skipped() {
    assert_eq!(wasm_policy_name("bedtime.rego"), None);
    assert_eq!(wasm_policy_name("README"), None);
    assert_eq!(wasm_policy_name("wasm"), None);
    assert_eq!(wasm_policy_name(""), None);
}

#[test]
fn test_bare_suffix_loads_with_empty_name() {
    assert_eq!(wasm_policy_name(".wasm"), Some("".to_string()));
}

#[test]
fn test_list_keeps_directory_order() {
    let files = vec![
        "bedtime.wasm".to_string(),
        "notes.txt".to_string(),
        "quota.wasm".to_string(),
        "quota.wasm.bak".to_string(),
    ];
    let names = list_wasm_policies(&files);
    assert_eq!(names, vec!["bedtime".to_string(), "quota".to_string()]);
}

#[test]
fn test_empty_directory_loads_nothing() {
    let files: Vec<String> = vec![];
    assert_eq!(list_wasm_policies(&files).len(), 0);
}
