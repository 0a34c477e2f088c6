//! Which program stands for the backend on which platform.

use vstd::prelude::*;
use vstd::string::StringExecFns;

verus! {

/// Operating system family the host runs on.
#[derive(Clone, Copy, Debug, PartialEq, Eq, Structural)]
pub enum OsFamily {
    MacOs,
    Windows,
    Linux,
    /// Any system for which no backend binary is bundled.
    Other,
}

/// CPU architecture the host runs on.
#[derive(Clone, Copy, Debug, PartialEq, Eq, Structural)]
pub enum CpuArch {
    Aarch64,
    X86_64,
    /// Any architecture for which no backend binary is bundled.
    Other,
}

/// Whether the host was built for development or for release.
#[derive(Clone, Copy, Debug, PartialEq, Eq, Structural)]
pub enum BuildMode {
    Development,
    Production,
}

/// The backend executables that ship with the application, one per target.
#[derive(Clone, Copy, Debug, PartialEq, Eq, Structural)]
pub enum BundledBinary {
    Aarch64AppleDarwin,
    X86_64AppleDarwin,
    X86_64PcWindowsMsvc,
    X86_64UnknownLinuxGnu,
}

/// What to launch as the backend.
#[derive(Clone, Copy, Debug, PartialEq, Eq, Structural)]
pub enum LaunchPlan {
    /// The bundled executable, found in `bundle_directory()` below the
    /// host's resource directory.
    Bundled(BundledBinary),
    /// The project's own run-from-source command (`development_program()`
    /// with `development_arguments()`, run in `development_directory()`).
    Development,
}

/// No backend binary is bundled for this pair of system and architecture.
#[derive(Clone, Copy, Debug, PartialEq, Eq, Structural)]
pub struct UnsupportedPlatform {
    pub os: OsFamily,
    pub arch: CpuArch,
}

/// The family that a system name, as `std::env::consts::OS` spells it, stands for.
pub open spec fn os_named(name: Seq<char>) -> OsFamily {
    if name == "macos"@ {
        OsFamily::MacOs
    } else if name == "windows"@ {
        OsFamily::Windows
    } else if name == "linux"@ {
        OsFamily::Linux
    } else {
        OsFamily::Other
    }
}

/// The architecture that a name, as `std::env::consts::ARCH` spells it, stands for.
pub open spec fn arch_named(name: Seq<char>) -> CpuArch {
    if name == "aarch64"@ {
        CpuArch::Aarch64
    } else if name == "x86_64"@ {
        CpuArch::X86_64
    } else {
        CpuArch::Other
    }
}

/// The bundled binary for a platform: exactly four pairs have one.
pub open spec fn bundled_for(os: OsFamily, arch: CpuArch) -> Option<BundledBinary> {
    match (os, arch) {
        (OsFamily::MacOs, CpuArch::Aarch64) => Some(BundledBinary::Aarch64AppleDarwin),
        (OsFamily::MacOs, CpuArch::X86_64) => Some(BundledBinary::X86_64AppleDarwin),
        (OsFamily::Windows, CpuArch::X86_64) => Some(BundledBinary::X86_64PcWindowsMsvc),
        (OsFamily::Linux, CpuArch::X86_64) => Some(BundledBinary::X86_64UnknownLinuxGnu),
        _ => None,
    }
}

/// The launch plan for a platform and build mode.  A development build
/// always runs from source; a production build needs a bundled binary.
pub open spec fn launch_for(os: OsFamily, arch: CpuArch, mode: BuildMode) -> Result<
    LaunchPlan,
    UnsupportedPlatform,
> {
    match mode {
        BuildMode::Development => Ok(LaunchPlan::Development),
        BuildMode::Production => match bundled_for(os, arch) {
            Some(binary) => Ok(LaunchPlan::Bundled(binary)),
            None => Err(UnsupportedPlatform { os, arch }),
        },
    }
}

/// File name of a bundled binary.
pub open spec fn file_name_of(binary: BundledBinary) -> Seq<char> {
    match binary {
        BundledBinary::Aarch64AppleDarwin => "server-aarch64-apple-darwin"@,
        BundledBinary::X86_64AppleDarwin => "server-x86_64-apple-darwin"@,
        BundledBinary::X86_64PcWindowsMsvc => "server-x86_64-pc-windows-msvc.exe"@,
        BundledBinary::X86_64UnknownLinuxGnu => "server-x86_64-unknown-linux-gnu"@,
    }
}

/// Label of a system family in messages.
pub open spec fn os_label(os: OsFamily) -> Seq<char> {
    match os {
        OsFamily::MacOs => "macos"@,
        OsFamily::Windows => "windows"@,
        OsFamily::Linux => "linux"@,
        OsFamily::Other => "other"@,
    }
}

/// Label of an architecture in messages.
pub open spec fn arch_label(arch: CpuArch) -> Seq<char> {
    match arch {
        CpuArch::Aarch64 => "aarch64"@,
        CpuArch::X86_64 => "x86_64"@,
        CpuArch::Other => "other"@,
    }
}

/// Value of the mode variable handed to the backend.
pub open spec fn mode_label(mode: BuildMode) -> Seq<char> {
    match mode {
        BuildMode::Development => "development"@,
        BuildMode::Production => "production"@,
    }
}

/// The build mode that a plan belongs to.
pub open spec fn mode_of(plan: LaunchPlan) -> BuildMode {
    match plan {
        LaunchPlan::Bundled(_) => BuildMode::Production,
        LaunchPlan::Development => BuildMode::Development,
    }
}

fn same_text(a: &str, b: &str) -> (same: bool)
    ensures
        same == (a@ == b@),
{
    String::from_str(a) == String::from_str(b)
}

impl OsFamily {
    /// Reads a system name as `std::env::consts::OS` spells it.
    pub fn from_name(name: &str) -> (os: OsFamily)
        ensures
            os == os_named(name@),
    {
        if same_text(name, "macos") {
            OsFamily::MacOs
        } else if same_text(name, "windows") {
            OsFamily::Windows
        } else if same_text(name, "linux") {
            OsFamily::Linux
        } else {
            OsFamily::Other
        }
    }

    pub fn label(&self) -> (text: &'static str)
        ensures
            text@ == os_label(*self),
    {
        match self {
            OsFamily::MacOs => "macos",
            OsFamily::Windows => "windows",
            OsFamily::Linux => "linux",
            OsFamily::Other => "other",
        }
    }
}

impl CpuArch {
    /// Reads an architecture name as `std::env::consts::ARCH` spells it.
    pub fn from_name(name: &str) -> (arch: CpuArch)
        ensures
            arch == arch_named(name@),
    {
        if same_text(name, "aarch64") {
            CpuArch::Aarch64
        } else if same_text(name, "x86_64") {
            CpuArch::X86_64
        } else {
            CpuArch::Other
        }
    }

    pub fn label(&self) -> (text: &'static str)
        ensures
            text@ == arch_label(*self),
    {
        match self {
            CpuArch::Aarch64 => "aarch64",
            CpuArch::X86_64 => "x86_64",
            CpuArch::Other => "other",
        }
    }
}

impl BuildMode {
    /// The mode of a build, told by whether it carries debug assertions.
    pub fn of_build(debug_assertions: bool) -> (mode: BuildMode)
        ensures
            mode == (if debug_assertions {
                BuildMode::Development
            } else {
                BuildMode::Production
            }),
    {
        if debug_assertions {
            BuildMode::Development
        } else {
            BuildMode::Production
        }
    }

    pub fn label(&self) -> (text: &'static str)
        ensures
            text@ == mode_label(*self),
    {
        match self {
            BuildMode::Development => "development",
            BuildMode::Production => "production",
        }
    }
}

impl BundledBinary {
    pub fn file_name(&self) -> (name: &'static str)
        ensures
            name@ == file_name_of(*self),
    {
        match self {
            BundledBinary::Aarch64AppleDarwin => "server-aarch64-apple-darwin",
            BundledBinary::X86_64AppleDarwin => "server-x86_64-apple-darwin",
            BundledBinary::X86_64PcWindowsMsvc => "server-x86_64-pc-windows-msvc.exe",
            BundledBinary::X86_64UnknownLinuxGnu => "server-x86_64-unknown-linux-gnu",
        }
    }
}

/// The binary bundled for a platform, if there is one.
pub fn bundled_binary(os: OsFamily, arch: CpuArch) -> (binary: Option<BundledBinary>)
    ensures
        binary == bundled_for(os, arch),
{
    match os {
        OsFamily::MacOs => match arch {
            CpuArch::Aarch64 => Some(BundledBinary::Aarch64AppleDarwin),
            CpuArch::X86_64 => Some(BundledBinary::X86_64AppleDarwin),
            CpuArch::Other => None,
        },
        OsFamily::Windows => match arch {
            CpuArch::X86_64 => Some(BundledBinary::X86_64PcWindowsMsvc),
            _ => None,
        },
        OsFamily::Linux => match arch {
            CpuArch::X86_64 => Some(BundledBinary::X86_64UnknownLinuxGnu),
            _ => None,
        },
        OsFamily::Other => None,
    }
}

/// Decides what to launch.  Fails, rather than guess a binary, when a
/// production build runs on a platform without a bundled one.
pub fn resolve_launch(os: OsFamily, arch: CpuArch, mode: BuildMode) -> (plan: Result<
    LaunchPlan,
    UnsupportedPlatform,
>)
    ensures
        plan == launch_for(os, arch, mode),
{
    match mode {
        BuildMode::Development => Ok(LaunchPlan::Development),
        BuildMode::Production => match bundled_binary(os, arch) {
            Some(binary) => Ok(LaunchPlan::Bundled(binary)),
            None => Err(UnsupportedPlatform { os, arch }),
        },
    }
}

/// Directory below the host's resource directory that holds the bundled binaries.
pub fn bundle_directory() -> (name: &'static str)
    ensures
        name@ == "binaries"@,
{
    "binaries"
}

/// Program of the run-from-source command.
pub fn development_program() -> (name: &'static str)
    ensures
        name@ == "npm"@,
{
    "npm"
}

/// Arguments of the run-from-source command.
pub fn development_arguments() -> (args: Vec<&'static str>)
    ensures
        args@.len() == 2,
        args@[0]@ == "run"@,
        args@[1]@ == "dev"@,
{
    let mut args: Vec<&'static str> = Vec::new();
    args.push("run");
    args.push("dev");
    args
}

/// Working directory of the run-from-source command, relative to the
/// host's own directory: the project root above it.
pub fn development_directory() -> (name: &'static str)
    ensures
        name@ == ".."@,
{
    ".."
}

/// Environment variables handed to the backend: one marks the desktop
/// shell as its parent, one names the mode.
pub fn launch_environment(plan: LaunchPlan) -> (vars: Vec<(&'static str, &'static str)>)
    ensures
        vars@.len() == 2,
        vars@[0].0@ == "TAURI"@,
        vars@[0].1@ == "1"@,
        vars@[1].0@ == "NODE_ENV"@,
        vars@[1].1@ == mode_label(mode_of(plan)),
{
    let mode = match plan {
        LaunchPlan::Bundled(_) => BuildMode::Production,
        LaunchPlan::Development => BuildMode::Development,
    };
    let mut vars: Vec<(&'static str, &'static str)> = Vec::new();
    vars.push(("TAURI", "1"));
    vars.push(("NODE_ENV", mode.label()));
    vars
}

/// On macOS with an arm64 CPU a production build launches the arm64 binary.
pub proof fn lemma_macos_arm64_gets_arm64_binary()
    ensures
        launch_for(OsFamily::MacOs, CpuArch::Aarch64, BuildMode::Production) == Ok::<
            LaunchPlan,
            UnsupportedPlatform,
        >(LaunchPlan::Bundled(BundledBinary::Aarch64AppleDarwin)),
        file_name_of(BundledBinary::Aarch64AppleDarwin) == "server-aarch64-apple-darwin"@,
{
}

/// A production build on an unsupported system never gets a binary,
/// whatever the architecture; nor does a supported system with an
/// architecture that none was built for.
pub proof fn lemma_unsupported_platform_is_refused(os: OsFamily, arch: CpuArch)
    ensures
        os == OsFamily::Other ==> launch_for(os, arch, BuildMode::Production) == Err::<
            LaunchPlan,
            UnsupportedPlatform,
        >(UnsupportedPlatform { os, arch }),
        bundled_for(os, arch) is None <==> launch_for(os, arch, BuildMode::Production) is Err,
        launch_for(os, arch, BuildMode::Development) is Ok,
{
}

} // verus!
