use container_orchestrator::platform::{resolve_architecture, Platform};

#[test]
fn maps_x86_64_to_amd64() {
    assert_eq!(resolve_architecture("x86_64"), "amd64");
}

#[test]
fn maps_aarch64_to_arm64() {
    assert_eq!(resolve_architecture("aarch64"), "arm64");
}

#[test]
fn passes_unknown_architectures_through() {
    assert_eq!(resolve_architecture("riscv64"), "riscv64");
    assert_eq!(resolve_architecture("s390x"), "s390x");
    assert_eq!(resolve_architecture("amd64"), "amd64");
    assert_eq!(resolve_architecture(""), "");
}

#[test]
fn linux_platform_resolves_host_architecture() {
    let p = Platform::for_linux_host("x86_64");
    assert_eq!(p.os, "linux");
    assert_eq!(p.architecture, "amd64");
    assert_eq!(p.variant, "");
    assert_eq!(p.os_version, "");
}
