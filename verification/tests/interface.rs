use fmi2::abi::fmi2GetVersion;
use fmi2::types::fmi2Boolean;

#[test]
fn test_type_imports() {
    let a: fmi2Boolean = 1;
    assert_eq!(a, 1);
}

#[test]
fn test_get_version_override() {
    let version = fmi2GetVersion();
    assert_eq!("2.0", version.as_str());
}
