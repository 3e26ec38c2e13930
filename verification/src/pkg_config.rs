//! What a package asks of its build environment.
//!
//! Each type has a mathematical view in which every string is a sequence of
//! characters; the contracts of the library speak of those views.

use vstd::prelude::*;

verus! {

/// Name, version and revision of the package; artifact file names derive
/// from them.
#[derive(Clone, Debug, PartialEq, Eq)]
pub struct PackageFields {
    pub package_name: String,
    pub version_number: String,
    pub revision_number: String,
}

pub struct PackageFieldsView {
    pub package_name: Seq<char>,
    pub version_number: Seq<char>,
    pub revision_number: Seq<char>,
}

impl View for PackageFields {
    type V = PackageFieldsView;

    open spec fn view(&self) -> PackageFieldsView {
        PackageFieldsView {
            package_name: self.package_name@,
            version_number: self.version_number@,
            revision_number: self.revision_number@,
        }
    }
}

/// The target release and architecture, where the chroot cache lives, and
/// which stages follow the build.
#[derive(Clone, Debug, PartialEq, Eq)]
pub struct BuildEnv {
    pub codename: String,
    pub arch: String,
    /// May start with `~`, be absolute, or be relative to the working
    /// directory.
    pub sbuild_cache_dir: Option<String>,
    pub run_lintian: Option<bool>,
    pub run_piuparts: Option<bool>,
    pub run_autopkgtest: Option<bool>,
}

pub struct BuildEnvView {
    pub codename: Seq<char>,
    pub arch: Seq<char>,
    pub sbuild_cache_dir: Option<Seq<char>>,
    pub run_lintian: Option<bool>,
    pub run_piuparts: Option<bool>,
    pub run_autopkgtest: Option<bool>,
}

impl View for BuildEnv {
    type V = BuildEnvView;

    open spec fn view(&self) -> BuildEnvView {
        BuildEnvView {
            codename: self.codename@,
            arch: self.arch@,
            sbuild_cache_dir: match self.sbuild_cache_dir {
                Some(dir) => Some(dir@),
                None => None,
            },
            run_lintian: self.run_lintian,
            run_piuparts: self.run_piuparts,
            run_autopkgtest: self.run_autopkgtest,
        }
    }
}

/// A pinned Rust release: the archive and the armoured signature made
/// over it.
#[derive(Clone, Debug, PartialEq, Eq)]
pub struct RustConfig {
    pub rust_binary_url: String,
    pub rust_binary_gpg_asc: String,
}

pub struct RustConfigView {
    pub rust_binary_url: Seq<char>,
    pub rust_binary_gpg_asc: Seq<char>,
}

impl View for RustConfig {
    type V = RustConfigView;

    open spec fn view(&self) -> RustConfigView {
        RustConfigView {
            rust_binary_url: self.rust_binary_url@,
            rust_binary_gpg_asc: self.rust_binary_gpg_asc@,
        }
    }
}

/// A pinned Go release: the archive and its SHA-256 checksum.
#[derive(Clone, Debug, PartialEq, Eq)]
pub struct GoConfig {
    pub go_binary_url: String,
    pub go_binary_checksum: String,
}

pub struct GoConfigView {
    pub go_binary_url: Seq<char>,
    pub go_binary_checksum: Seq<char>,
}

impl View for GoConfig {
    type V = GoConfigView;

    open spec fn view(&self) -> GoConfigView {
        GoConfigView {
            go_binary_url: self.go_binary_url@,
            go_binary_checksum: self.go_binary_checksum@,
        }
    }
}

/// A pinned Node.js release, and the yarn version to install beside it if
/// one is wanted.
#[derive(Clone, Debug, PartialEq, Eq)]
pub struct JavascriptConfig {
    pub node_binary_url: String,
    pub node_binary_checksum: String,
    pub yarn_version: Option<String>,
}

pub struct JavascriptConfigView {
    pub node_binary_url: Seq<char>,
    pub node_binary_checksum: Seq<char>,
    pub yarn_version: Option<Seq<char>>,
}

impl View for JavascriptConfig {
    type V = JavascriptConfigView;

    open spec fn view(&self) -> JavascriptConfigView {
        JavascriptConfigView {
            node_binary_url: self.node_binary_url@,
            node_binary_checksum: self.node_binary_checksum@,
            yarn_version: match self.yarn_version {
                Some(version) => Some(version@),
                None => None,
            },
        }
    }
}

/// A pinned Gradle release.
#[derive(Clone, Debug, PartialEq, Eq)]
pub struct GradleConfig {
    pub gradle_version: String,
    pub gradle_binary_url: String,
    pub gradle_binary_checksum: String,
}

pub struct GradleConfigView {
    pub gradle_version: Seq<char>,
    pub gradle_binary_url: Seq<char>,
    pub gradle_binary_checksum: Seq<char>,
}

impl View for GradleConfig {
    type V = GradleConfigView;

    open spec fn view(&self) -> GradleConfigView {
        GradleConfigView {
            gradle_version: self.gradle_version@,
            gradle_binary_url: self.gradle_binary_url@,
            gradle_binary_checksum: self.gradle_binary_checksum@,
        }
    }
}

/// A JDK.  Only an Oracle JDK is provisioned by download; any other comes
/// from the distribution.
#[derive(Clone, Debug, PartialEq, Eq)]
pub struct JavaConfig {
    pub is_oracle: bool,
    pub jdk_version: String,
    pub jdk_binary_url: String,
    pub jdk_binary_checksum: String,
    pub gradle: Option<GradleConfig>,
}

pub struct JavaConfigView {
    pub is_oracle: bool,
    pub jdk_version: Seq<char>,
    pub jdk_binary_url: Seq<char>,
    pub jdk_binary_checksum: Seq<char>,
    pub gradle: Option<GradleConfigView>,
}

impl View for JavaConfig {
    type V = JavaConfigView;

    open spec fn view(&self) -> JavaConfigView {
        JavaConfigView {
            is_oracle: self.is_oracle,
            jdk_version: self.jdk_version@,
            jdk_binary_url: self.jdk_binary_url@,
            jdk_binary_checksum: self.jdk_binary_checksum@,
            gradle: match self.gradle {
                Some(gradle) => Some(gradle@),
                None => None,
            },
        }
    }
}

/// The .NET SDK to install from the vendor's package repository.
#[derive(Clone, Debug, PartialEq, Eq)]
pub struct DotnetConfig {
    pub dotnet_version: String,
}

pub struct DotnetConfigView {
    pub dotnet_version: Seq<char>,
}

impl View for DotnetConfig {
    type V = DotnetConfigView;

    open spec fn view(&self) -> DotnetConfigView {
        DotnetConfigView { dotnet_version: self.dotnet_version@ }
    }
}

/// A pinned Nim release.
#[derive(Clone, Debug, PartialEq, Eq)]
pub struct NimConfig {
    pub nim_version: String,
    pub nim_binary_url: String,
    pub nim_version_checksum: String,
}

pub struct NimConfigView {
    pub nim_version: Seq<char>,
    pub nim_binary_url: Seq<char>,
    pub nim_version_checksum: Seq<char>,
}

impl View for NimConfig {
    type V = NimConfigView;

    open spec fn view(&self) -> NimConfigView {
        NimConfigView {
            nim_version: self.nim_version@,
            nim_binary_url: self.nim_binary_url@,
            nim_version_checksum: self.nim_version_checksum@,
        }
    }
}

/// The toolchain that a package is built with.
#[derive(Clone, Debug, PartialEq, Eq)]
pub enum LanguageEnv {
    C,
    Rust(RustConfig),
    Go(GoConfig),
    JavaScript(JavascriptConfig),
    TypeScript(JavascriptConfig),
    Java(JavaConfig),
    Dotnet(DotnetConfig),
    Nim(NimConfig),
}

pub enum LanguageEnvView {
    C,
    Rust(RustConfigView),
    Go(GoConfigView),
    JavaScript(JavascriptConfigView),
    TypeScript(JavascriptConfigView),
    Java(JavaConfigView),
    Dotnet(DotnetConfigView),
    Nim(NimConfigView),
}

impl View for LanguageEnv {
    type V = LanguageEnvView;

    open spec fn view(&self) -> LanguageEnvView {
        match self {
            LanguageEnv::C => LanguageEnvView::C,
            LanguageEnv::Rust(config) => LanguageEnvView::Rust(config@),
            LanguageEnv::Go(config) => LanguageEnvView::Go(config@),
            LanguageEnv::JavaScript(config) => LanguageEnvView::JavaScript(config@),
            LanguageEnv::TypeScript(config) => LanguageEnvView::TypeScript(config@),
            LanguageEnv::Java(config) => LanguageEnvView::Java(config@),
            LanguageEnv::Dotnet(config) => LanguageEnvView::Dotnet(config@),
            LanguageEnv::Nim(config) => LanguageEnvView::Nim(config@),
        }
    }
}

/// A package built from a released source archive.
#[derive(Clone, Debug, PartialEq, Eq)]
pub struct DefaultPackageTypeConfig {
    pub language_env: LanguageEnv,
}

/// A package built from a version-control checkout.
#[derive(Clone, Debug, PartialEq, Eq)]
pub struct GitPackageTypeConfig {
    pub language_env: LanguageEnv,
}

/// Where the source of a package comes from.  A virtual package has no
/// source and so no toolchain.
#[derive(Clone, Debug, PartialEq, Eq)]
pub enum PackageType {
    Default(DefaultPackageTypeConfig),
    Git(GitPackageTypeConfig),
    Virtual,
}

pub enum PackageTypeView {
    Default(LanguageEnvView),
    Git(LanguageEnvView),
    Virtual,
}

impl View for PackageType {
    type V = PackageTypeView;

    open spec fn view(&self) -> PackageTypeView {
        match self {
            PackageType::Default(config) => PackageTypeView::Default(config.language_env@),
            PackageType::Git(config) => PackageTypeView::Git(config.language_env@),
            PackageType::Virtual => PackageTypeView::Virtual,
        }
    }
}

impl PackageTypeView {
    /// The toolchain of the package, if it has one.
    pub open spec fn language_env(self) -> Option<LanguageEnvView> {
        match self {
            PackageTypeView::Default(env) => Some(env),
            PackageTypeView::Git(env) => Some(env),
            PackageTypeView::Virtual => None,
        }
    }
}

impl PackageType {
    /// The toolchain of the package, if it has one.
    pub fn language_env(&self) -> (env: Option<&LanguageEnv>)
        ensures
            match env {
                Some(e) => self@.language_env() == Some(e@),
                None => self@.language_env() is None,
            },
    {
        match self {
            PackageType::Default(config) => Some(&config.language_env),
            PackageType::Git(config) => Some(&config.language_env),
            PackageType::Virtual => None,
        }
    }
}

/// Everything the build environment needs to know about one package.
#[derive(Clone, Debug, PartialEq, Eq)]
pub struct PkgConfig {
    pub package_fields: PackageFields,
    pub package_type: PackageType,
    pub build_env: BuildEnv,
}

pub struct PkgConfigView {
    pub package_fields: PackageFieldsView,
    pub package_type: PackageTypeView,
    pub build_env: BuildEnvView,
}

impl View for PkgConfig {
    type V = PkgConfigView;

    open spec fn view(&self) -> PkgConfigView {
        PkgConfigView {
            package_fields: self.package_fields@,
            package_type: self.package_type@,
            build_env: self.build_env@,
        }
    }
}

impl PkgConfigView {
    /// A virtual package of no name, for no release, with every optional
    /// stage left unset.
    pub open spec fn empty() -> PkgConfigView {
        PkgConfigView {
            package_fields: PackageFieldsView {
                package_name: Seq::empty(),
                version_number: Seq::empty(),
                revision_number: Seq::empty(),
            },
            package_type: PackageTypeView::Virtual,
            build_env: BuildEnvView {
                codename: Seq::empty(),
                arch: Seq::empty(),
                sbuild_cache_dir: None,
                run_lintian: None,
                run_piuparts: None,
                run_autopkgtest: None,
            },
        }
    }
}

impl Default for PkgConfig {
    fn default() -> (config: PkgConfig)
        ensures
            config@ == PkgConfigView::empty(),
    {
        PkgConfig {
            package_fields: PackageFields {
                package_name: String::new(),
                version_number: String::new(),
                revision_number: String::new(),
            },
            package_type: PackageType::Virtual,
            build_env: BuildEnv {
                codename: String::new(),
                arch: String::new(),
                sbuild_cache_dir: None,
                run_lintian: None,
                run_piuparts: None,
                run_autopkgtest: None,
            },
        }
    }
}

} // verus!
