use rust_bootstrap::host::{environment, host_triple, os_family};
use rust_bootstrap::triple::TargetTriple;

fn full(arch: &str, os: &str, env: &str) -> TargetTriple {
    TargetTriple::new(Some(arch.to_string()), Some(os.to_string()), Some(env.to_string()))
}

#[test]
fn linux_x86_64_host() {
    assert_eq!(host_triple("x86_64", "linux", false), full("x86_64", "unknown-linux", "gnu"));
    assert_eq!(host_triple("x86_64", "linux", false).str(), "x86_64-unknown-linux-gnu");
}

#[test]
fn linux_arm_hosts() {
    assert_eq!(host_triple("arm", "linux", false).env.as_deref(), Some("gnueabi"));
    assert_eq!(host_triple("armv7", "linux", false).env.as_deref(), Some("gnueabihf"));
    assert_eq!(host_triple("armv7s", "linux", false).env.as_deref(), Some("gnueabihf"));
}

#[test]
fn linux_other_architectures() {
    assert_eq!(environment("linux", "mips64"), "gnuabi64");
    assert_eq!(environment("linux", "mips64el"), "gnuabi64");
    assert_eq!(environment("linux", "aarch64"), "gnu");
    assert_eq!(environment("linux", "x86"), "gnu");
    assert_eq!(environment("linux", "sparc64"), "gnu");
}

#[test]
fn os_families() {
    assert_eq!(os_family("linux", false), "unknown-linux");
    assert_eq!(os_family("macos", false), "apple-darwin");
    assert_eq!(os_family("windows", false), "pc-windows");
    assert_eq!(os_family("netbsd", false), "unknown-netbsd");
    assert_eq!(os_family("netbsd", true), "rumprun-netbsd");
    assert_eq!(os_family("ios", false), "apple-ios");
    assert_eq!(os_family("freebsd", false), "unknown-freebsd");
    assert_eq!(os_family("illumos", false), "unknown-illumos");
    assert_eq!(os_family("solaris", false), "unknown");
    assert_eq!(os_family("haiku", true), "unknown");
    assert_eq!(os_family("linux", true), "unknown-linux");
}

#[test]
fn environments_of_other_systems() {
    assert_eq!(environment("windows", "x86_64"), "msvc");
    assert_eq!(environment("macos", "aarch64"), "gnu");
    assert_eq!(environment("solaris", "x86_64"), "gnu");
    assert_eq!(environment("netbsd", "arm"), "gnu");
    assert_eq!(environment("ios", "aarch64"), "gnu");
    assert_eq!(environment("freebsd", "x86_64"), "gnu");
    assert_eq!(environment("illumos", "x86_64"), "gnu");
    assert_eq!(environment("haiku", "x86_64"), "failed");
}

#[test]
fn windows_and_unknown_hosts() {
    assert_eq!(host_triple("x86_64", "windows", false), full("x86_64", "pc-windows", "msvc"));
    assert_eq!(host_triple("x86_64", "haiku", false), full("x86_64", "unknown", "failed"));
    assert_eq!(host_triple("x86_64", "netbsd", true), full("x86_64", "rumprun-netbsd", "gnu"));
}
