use wasmer_js::run::{check_module_bytes, program_name, ModuleError};

#[test]
fn program_name_defaults_to_wasm() {
    assert_eq!(program_name(None), "wasm");
}

#[test]
fn program_name_keeps_given_name() {
    assert_eq!(program_name(Some("python".to_string())), "python");
}

#[test]
fn empty_module_bytes_are_invalid() {
    assert_eq!(check_module_bytes(&[]), Err(ModuleError::InvalidBinary));
    assert_eq!(ModuleError::InvalidBinary.message(), "invalid WASM binary data");
}

#[test]
fn nonempty_module_bytes_go_on() {
    assert_eq!(check_module_bytes(&[0x00, 0x61, 0x73, 0x6d]), Ok(()));
}
