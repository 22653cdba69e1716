use vstd::prelude::*;

verus! {

/// How the builder is started.
#[derive(Clone, Copy, PartialEq, Eq, Structural, Debug)]
pub enum StartMode {
    Start,
    Reset,
}

/// Which part of the build the builder performs.
#[derive(Clone, Copy, PartialEq, Eq, Structural, Debug)]
pub enum BuildOption {
    Build,
    HostConfig,
    PackageDownload,
    BuildTempToolchains,
    BuildBasePackages,
    BuildRustSupportPackageAndKernel,
    ConfigTargetSystem,
    InstallGrub,
    CleanUp,
}

/// The command line of the builder.
pub struct Cli {
    pub build_option: BuildOption,
    /// Directory holding the configuration, when one is given.
    pub config: Option<String>,
    pub operate: StartMode,
    /// Package to resume from after an interrupted build (`NULL` when none).
    pub package_name: String,
    /// How many times the debug flag was given.
    pub debug: u8,
}

/// Where the target system is built and which file stops the builder.
pub struct HostInfo {
    pub target_part: String,
    pub stop_flag: String,
}

/// Directories (relative to `root`) that hold each group of scripts.
pub struct ScriptsPath {
    pub root: String,
    pub build_base_packages: String,
    pub build_temp_toolchains: String,
    pub build_rust_support_packages: String,
    pub chroot: String,
    pub clean: String,
    pub prepare: String,
    pub release: String,
    pub sysconfig: String,
}

/// Names of the package list files, relative to `root`.
pub struct Configs {
    pub root: String,
    pub package_info: String,
    pub base_packages: String,
    pub temp_toolchains: String,
    pub rust_support_packages: String,
}

/// Directories used while building packages.
pub struct PathInfo {
    pub root: String,
    pub package_source: String,
    pub package_build: String,
    pub package_patches: String,
    pub install_path: String,
}

/// One environment variable and the value the build needs it to have.
pub struct EnvsInfo {
    pub name: String,
    pub value: String,
}

pub struct Envs {
    pub envs: Vec<EnvsInfo>,
}

/// The builder's base configuration.
pub struct BaseConfig {
    pub host_info: HostInfo,
    pub scripts_path: ScriptsPath,
    pub configs: Configs,
    pub path: PathInfo,
    pub envs: Vec<EnvsInfo>,
}

/// A package of the final system: the name of its unpacked directory, the
/// archive's name and its build script.
pub struct BasePackagesInfo {
    pub name: String,
    pub package_name: String,
    pub script: String,
}

pub struct BasePackages {
    pub base_packages: Vec<BasePackagesInfo>,
}

/// A package that the Rust support of the system needs.
pub struct RustSupportPackageInfo {
    pub name: String,
    pub package_name: String,
    pub script: String,
}

pub struct RustSupportPackages {
    pub rust_support_packages: Vec<RustSupportPackageInfo>,
}

/// A package archive and where it is downloaded from.
pub struct PackageInfo {
    pub name: String,
    pub url: String,
}

/// A patch and where it is downloaded from.
pub struct PatchInfo {
    pub name: String,
    pub url: String,
}

pub struct AllPackages {
    pub all_packages: Vec<PackageInfo>,
    pub package_patches: Vec<PatchInfo>,
}

/// A package of the temporary tool chain.
pub struct CrossCompilePackagesInfo {
    pub name: String,
    pub package_name: String,
    pub script: String,
}

pub struct CrossCompilePackages {
    pub cross_compile_toolchains: Vec<CrossCompilePackagesInfo>,
    pub cross_compile_packages: Vec<CrossCompilePackagesInfo>,
    pub after_chroot_packages: Vec<CrossCompilePackagesInfo>,
}

} // verus!
