use backend_supervisor::platform::{
    bundle_directory, bundled_binary, development_arguments, development_directory,
    development_program, launch_environment, resolve_launch, BuildMode, BundledBinary, CpuArch,
    LaunchPlan, OsFamily, UnsupportedPlatform,
};

#[test]
fn macos_arm64_production_launches_the_arm64_binary() {
    let plan = resolve_launch(OsFamily::MacOs, CpuArch::Aarch64, BuildMode::Production);
    assert_eq!(plan, Ok(LaunchPlan::Bundled(BundledBinary::Aarch64AppleDarwin)));
    assert_eq!(BundledBinary::Aarch64AppleDarwin.file_name(), "server-aarch64-apple-darwin");
}

#[test]
fn every_supported_platform_has_its_own_binary() {
    assert_eq!(
        bundled_binary(OsFamily::MacOs, CpuArch::X86_64),
        Some(BundledBinary::X86_64AppleDarwin)
    );
    assert_eq!(
        bundled_binary(OsFamily::Windows, CpuArch::X86_64),
        Some(BundledBinary::X86_64PcWindowsMsvc)
    );
    assert_eq!(
        bundled_binary(OsFamily::Linux, CpuArch::X86_64),
        Some(BundledBinary::X86_64UnknownLinuxGnu)
    );
    assert_eq!(BundledBinary::X86_64AppleDarwin.file_name(), "server-x86_64-apple-darwin");
    assert_eq!(
        BundledBinary::X86_64PcWindowsMsvc.file_name(),
        "server-x86_64-pc-windows-msvc.exe"
    );
    assert_eq!(
        BundledBinary::X86_64UnknownLinuxGnu.file_name(),
        "server-x86_64-unknown-linux-gnu"
    );
}

#[test]
fn unsupported_os_is_refused_for_every_architecture() {
    for arch in [CpuArch::Aarch64, CpuArch::X86_64, CpuArch::Other] {
        assert_eq!(
            resolve_launch(OsFamily::Other, arch, BuildMode::Production),
            Err(UnsupportedPlatform { os: OsFamily::Other, arch })
        );
    }
}

#[test]
fn unsupported_architecture_is_refused() {
    assert_eq!(
        resolve_launch(OsFamily::Linux, CpuArch::Aarch64, BuildMode::Production),
        Err(UnsupportedPlatform { os: OsFamily::Linux, arch: CpuArch::Aarch64 })
    );
    assert_eq!(
        resolve_launch(OsFamily::Windows, CpuArch::Aarch64, BuildMode::Production),
        Err(UnsupportedPlatform { os: OsFamily::Windows, arch: CpuArch::Aarch64 })
    );
    assert_eq!(
        resolve_launch(OsFamily::MacOs, CpuArch::Other, BuildMode::Production),
        Err(UnsupportedPlatform { os: OsFamily::MacOs, arch: CpuArch::Other })
    );
    assert_eq!(bundled_binary(OsFamily::Windows, CpuArch::Other), None);
}

#[test]
fn development_build_runs_from_source_on_any_platform() {
    for os in [OsFamily::MacOs, OsFamily::Windows, OsFamily::Linux, OsFamily::Other] {
        for arch in [CpuArch::Aarch64, CpuArch::X86_64, CpuArch::Other] {
            assert_eq!(
                resolve_launch(os, arch, BuildMode::Development),
                Ok(LaunchPlan::Development)
            );
        }
    }
    assert_eq!(development_program(), "npm");
    assert_eq!(development_arguments(), vec!["run", "dev"]);
    assert_eq!(development_directory(), "..");
}

#[test]
fn resolver_is_deterministic() {
    let once = resolve_launch(OsFamily::Windows, CpuArch::X86_64, BuildMode::Production);
    let twice = resolve_launch(OsFamily::Windows, CpuArch::X86_64, BuildMode::Production);
    assert_eq!(once, twice);
}

#[test]
fn system_names_are_read_as_the_standard_library_spells_them() {
    assert_eq!(OsFamily::from_name("macos"), OsFamily::MacOs);
    assert_eq!(OsFamily::from_name("windows"), OsFamily::Windows);
    assert_eq!(OsFamily::from_name("linux"), OsFamily::Linux);
    assert_eq!(OsFamily::from_name("freebsd"), OsFamily::Other);
    assert_eq!(OsFamily::from_name("MacOS"), OsFamily::Other);
    assert_eq!(OsFamily::from_name(""), OsFamily::Other);
    assert_eq!(CpuArch::from_name("aarch64"), CpuArch::Aarch64);
    assert_eq!(CpuArch::from_name("x86_64"), CpuArch::X86_64);
    assert_eq!(CpuArch::from_name("riscv64"), CpuArch::Other);
    assert_eq!(CpuArch::from_name("x86"), CpuArch::Other);
}

#[test]
fn labels_name_the_platform() {
    assert_eq!(OsFamily::MacOs.label(), "macos");
    assert_eq!(OsFamily::Windows.label(), "windows");
    assert_eq!(OsFamily::Linux.label(), "linux");
    assert_eq!(OsFamily::Other.label(), "other");
    assert_eq!(CpuArch::Aarch64.label(), "aarch64");
    assert_eq!(CpuArch::X86_64.label(), "x86_64");
    assert_eq!(CpuArch::Other.label(), "other");
    assert_eq!(BuildMode::Development.label(), "development");
    assert_eq!(BuildMode::Production.label(), "production");
}

#[test]
fn build_mode_follows_debug_assertions() {
    assert_eq!(BuildMode::of_build(true), BuildMode::Development);
    assert_eq!(BuildMode::of_build(false), BuildMode::Production);
}

#[test]
fn backend_is_told_its_parent_and_its_mode() {
    let bundled = launch_environment(LaunchPlan::Bundled(BundledBinary::X86_64UnknownLinuxGnu));
    assert_eq!(bundled, vec![("TAURI", "1"), ("NODE_ENV", "production")]);
    let development = launch_environment(LaunchPlan::Development);
    assert_eq!(development, vec![("TAURI", "1"), ("NODE_ENV", "development")]);
    assert_eq!(bundle_directory(), "binaries");
}
