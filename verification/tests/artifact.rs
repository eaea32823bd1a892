use dao_chain_client::artifact::{artifact_name, has_wasm_extension, select_artifacts};
use dao_chain_client::error::ProcessError;
use std::path::Path;

#[test]
fn named_artifacts_and_legacy_architecture_suffix_are_preserved() {
    let arch = "x86_64";
    assert_eq!(artifact_name(b"token-default.wasm", arch).unwrap(), "token-default");
    assert_eq!(artifact_name(b"token-thorchain.wasm", arch).unwrap(), "token-thorchain");
    let legacy = format!("token-default-{arch}.wasm");
    assert_eq!(artifact_name(legacy.as_bytes(), arch).unwrap(), "token-default");
}

#[test]
fn only_the_mark_of_the_architecture_is_removed_and_only_once() {
    assert_eq!(artifact_name(b"token-aarch64.wasm", "x86_64").unwrap(), "token-aarch64");
    assert_eq!(artifact_name(b"token-arm-arm.wasm", "arm").unwrap(), "token-arm");
    assert_eq!(artifact_name(b"tokenarm.wasm", "arm").unwrap(), "tokenarm");
    assert_eq!(artifact_name(b"-arm.wasm", "arm").unwrap(), "");
    assert_eq!(artifact_name("größe.wasm".as_bytes(), "arm").unwrap(), "größe");
    for file in [b"\xFF.wasm".as_slice(), b"", b".", b".."] {
        assert!(matches!(
            artifact_name(file, "arm"),
            Err(ProcessError::Protocol(text)) if text == "invalid Wasm filename"
        ));
    }
}

#[test]
fn names_are_split_as_paths_are() {
    for name in [
        "a.wasm", "a.b.wasm", ".wasm", "..wasm", "wasm", "a.wasm.", "a.WASM", "a", ".a", ".a.wasm",
        "a..wasm", "a.txt", "...", "a.",
    ] {
        let path = Path::new(name);
        let bytes = name.as_bytes();
        assert_eq!(
            has_wasm_extension(bytes),
            path.extension().and_then(|extension| extension.to_str()) == Some("wasm"),
            "{name}"
        );
        assert_eq!(
            artifact_name(bytes, "none").unwrap(),
            path.file_stem().unwrap().to_str().unwrap(),
            "{name}"
        );
    }
}

#[test]
fn artifacts_are_selected_in_the_order_of_their_paths() {
    let names = [
        "token.wasm",
        "readme.md",
        "Token.wasm",
        "a.wasm",
        "token-default.wasm",
        ".wasm",
        "a-b.wasm",
        "a.b.wasm",
        "größe.wasm",
    ];
    let listed = names.iter().map(|name| name.as_bytes().to_vec()).collect();
    let mut paths: Vec<&Path> = names.iter().map(Path::new).collect();
    paths.retain(|path| path.extension().and_then(|extension| extension.to_str()) == Some("wasm"));
    paths.sort();
    let selected = select_artifacts(listed);
    let expected: Vec<Vec<u8>> =
        paths.iter().map(|path| path.as_os_str().as_encoded_bytes().to_vec()).collect();
    assert_eq!(selected, expected);
    assert_eq!(selected.len(), 7);
}
