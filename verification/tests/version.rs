use resvg_extended::version_string;

#[test]
fn version_string_is_nul_terminated_and_non_empty() {
    let v = version_string();
    assert!(v.len() > 1);
    assert_eq!(*v.last().unwrap(), 0);
    assert!(v[..v.len() - 1].iter().all(|b| *b != 0));
}

#[test]
fn version_string_names_the_linked_library_version() {
    let v = version_string();
    assert_eq!(v, b"0.48.1\0".to_vec());
}

#[test]
fn version_string_is_identical_across_calls() {
    assert_eq!(version_string(), version_string());
    assert_eq!(version_string(), version_string());
}
