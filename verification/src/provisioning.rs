//! The shell steps that install a toolchain inside the chroot.
//!
//! A toolchain that the distribution does not ship is fetched from a pinned
//! address, checked against a pinned checksum or signature before it is
//! unpacked, linked into the search path and probed once.  The helper
//! packages that the fetch needs are installed first and removed again.
//! Steps run in the order given; later ones rely on earlier ones.

use crate::pkg_config::{
    DotnetConfig, DotnetConfigView, GoConfig, GoConfigView, GradleConfigView,
    JavaConfig, JavaConfigView, JavascriptConfig, JavascriptConfigView, LanguageEnv,
    LanguageEnvView, NimConfig, NimConfigView, PackageType, PackageTypeView, RustConfig,
    RustConfigView,
};
use crate::text::{concat2, concat3, lines, owned, push_line};
use vstd::prelude::*;

verus! {

/// The step that installs the helper packages `packages`.
pub open spec fn install_step(packages: Seq<char>) -> Seq<char> {
    "apt install -y "@ + packages
}

/// The step that removes the helper packages `packages`.
pub open spec fn remove_step(packages: Seq<char>) -> Seq<char> {
    "apt remove -y "@ + packages
}

/// Steps that install a Rust release: fetch, verify the signature against
/// the project's public key, unpack without the documentation, install.
pub open spec fn rust_build_steps(config: RustConfigView) -> Seq<Seq<char>> {
    seq![
        install_step("curl gpg gpg-agent"@),
        "cd /tmp && curl -o rust.tar.xz -L "@ + config.rust_binary_url,
        "cd /tmp && echo \""@ + config.rust_binary_gpg_asc
            + "\" >> rust.tar.xz.asc && cat rust.tar.xz.asc "@,
        "curl https://keybase.io/rust/pgp_keys.asc | gpg --import"@,
        "cd /tmp && gpg --verify rust.tar.xz.asc rust.tar.xz"@,
        "cd /tmp && tar xvJf rust.tar.xz -C . --strip-components=1 --exclude=rust-docs"@,
        "cd /tmp && /bin/bash install.sh --without=rust-docs"@,
        remove_step("curl gpg gpg-agent"@),
    ]
}

/// Steps that install a Go release and build the shared standard library,
/// which Debian packages link against.
pub open spec fn go_build_steps(config: GoConfigView) -> Seq<Seq<char>> {
    seq![
        install_step("curl"@),
        "cd /tmp && curl -o go.tar.gz -L "@ + config.go_binary_url,
        "cd /tmp && echo \""@ + config.go_binary_checksum
            + " go.tar.gz\" >> hash_file.txt && cat hash_file.txt"@,
        "cd /tmp && sha256sum -c hash_file.txt"@,
        "cd /tmp && rm -rf /usr/local/go && mkdir /usr/local/go && tar -C /usr/local -xzf go.tar.gz"@,
        "ln -s /usr/local/go/bin/go /usr/bin/go"@,
        "go version"@,
        "go install -buildmode=shared std"@,
        "chmod -R a+rwx /usr/local/go/pkg"@,
        remove_step("curl"@),
    ]
}

/// Steps that install a Node.js release with npm, npx and corepack.
pub open spec fn node_build_steps(config: JavascriptConfigView) -> Seq<Seq<char>> {
    seq![
        install_step("curl"@),
        "cd /tmp && curl -o node.tar.gz -L "@ + config.node_binary_url,
        "cd /tmp && echo \""@ + config.node_binary_checksum
            + " node.tar.gz\" >> hash_file.txt && cat hash_file.txt"@,
        "cd /tmp && sha256sum -c hash_file.txt"@,
        "cd /tmp && rm -rf /usr/share/node && mkdir /usr/share/node && tar -C /usr/share/node -xzf node.tar.gz --strip-components=1"@,
        "ls -l /usr/share/node/bin"@,
        "ln -s /usr/share/node/bin/node /usr/bin/node"@,
        "ln -s /usr/share/node/bin/npm /usr/bin/npm"@,
        "ln -s /usr/share/node/bin/npx /usr/bin/npx"@,
        "ln -s /usr/share/node/bin/corepack /usr/bin/corepack"@,
        remove_step("curl"@),
        "node --version"@,
        "npm --version"@,
    ]
}

/// Steps that install the wanted yarn version through npm; none when no
/// version is wanted.
pub open spec fn yarn_build_steps(yarn_version: Option<Seq<char>>) -> Seq<Seq<char>> {
    match yarn_version {
        Some(version) => seq![
            "npm install --global yarn@"@ + version,
            "ln -s /usr/share/node/bin/yarn /usr/bin/yarn"@,
            "yarn --version"@,
        ],
        None => Seq::empty(),
    }
}

/// Steps that install an Oracle JDK under a path named by its version.
pub open spec fn jdk_build_steps(config: JavaConfigView) -> Seq<Seq<char>> {
    seq![
        install_step("wget"@),
        "mkdir -p /opt/lib/jvm/jdk-"@ + config.jdk_version + "-oracle && mkdir -p /usr/lib/jvm"@,
        "cd /tmp && wget -q --output-document jdk.tar.gz "@ + config.jdk_binary_url,
        "cd /tmp && echo \""@ + config.jdk_binary_checksum
            + " jdk.tar.gz\" >> hash_file.txt && cat hash_file.txt"@,
        "cd /tmp && sha256sum -c hash_file.txt"@,
        "cd /tmp && tar -zxf jdk.tar.gz -C /opt/lib/jvm/jdk-"@ + config.jdk_version
            + "-oracle --strip-components=1"@,
        "ln -s /opt/lib/jvm/jdk-"@ + config.jdk_version + "-oracle/bin/java  /usr/bin/java"@,
        "ln -s /opt/lib/jvm/jdk-"@ + config.jdk_version + "-oracle/bin/javac  /usr/bin/javac"@,
        "java -version"@,
        remove_step("wget"@),
    ]
}

/// Steps that install a Gradle release, and remove both helper packages
/// when they are done; none when no Gradle is wanted.
pub open spec fn gradle_build_steps(gradle: Option<GradleConfigView>) -> Seq<Seq<char>> {
    match gradle {
        Some(config) => seq![
            install_step("wget unzip"@),
            "mkdir -p /opt/lib/gradle-"@ + config.gradle_version,
            "cd /tmp && wget -q --output-document gradle.tar.gz "@ + config.gradle_binary_url,
            "cd /tmp && echo \""@ + config.gradle_binary_checksum
                + " gradle.tar.gz\" > hash_file.txt && cat hash_file.txt"@,
            "cd /tmp && sha256sum -c hash_file.txt"@,
            "cd /tmp && unzip gradle.tar.gz && mv gradle-"@ + config.gradle_version + " /opt/lib"@,
            "ln -s /opt/lib/gradle-"@ + config.gradle_version + "/bin/gradle  /usr/bin/gradle"@,
            "gradle -version"@,
            remove_step("wget unzip"@),
        ],
        None => Seq::empty(),
    }
}

/// Steps that provision Java.  A JDK that is not Oracle's comes from the
/// distribution and needs none, and then no Gradle is installed either.
pub open spec fn java_build_steps(config: JavaConfigView) -> Seq<Seq<char>> {
    if config.is_oracle {
        jdk_build_steps(config) + gradle_build_steps(config.gradle)
    } else {
        Seq::empty()
    }
}

/// Steps that register the vendor's package repository for .NET.  They are
/// needed before a build and before a test alike.
pub open spec fn dotnet_repository_steps() -> Seq<Seq<char>> {
    seq![
        install_step("wget"@),
        "cd /tmp && wget https://packages.microsoft.com/config/debian/12/packages-microsoft-prod.deb -O packages-microsoft-prod.deb"@,
        "cd /tmp && dpkg -i packages-microsoft-prod.deb "@,
        "apt-get update -y"@,
    ]
}

/// Steps that install a .NET SDK from the vendor's repository.  The
/// repository's own signing is trusted; its contents may shift upstream, so
/// this toolchain is pinned less firmly than the others.
pub open spec fn dotnet_build_steps(config: DotnetConfigView) -> Seq<Seq<char>> {
    dotnet_repository_steps() + seq![
        "apt-get install -y dotnet-sdk-"@ + config.dotnet_version,
        "dotnet --version"@,
        remove_step("wget"@),
    ]
}

/// Steps that register the vendor's repository and stop there: the
/// package under test has to pull in the runtime by its own dependencies.
pub open spec fn dotnet_test_steps() -> Seq<Seq<char>> {
    dotnet_repository_steps().push(remove_step("wget"@))
}

/// Steps that install a Nim release, after clearing what an earlier
/// install of that version left behind.
pub open spec fn nim_build_steps(config: NimConfigView) -> Seq<Seq<char>> {
    seq![
        install_step("wget"@),
        "rm -rf /tmp/nim-"@ + config.nim_version + " && rm -rf /usr/lib/nim/nim-"@
            + config.nim_version + "&& rm -rf /opt/lib/nim/nim-"@ + config.nim_version
            + " && mkdir /tmp/nim-"@ + config.nim_version,
        "mkdir -p /opt/lib/nim && mkdir -p /usr/lib/nim"@,
        "cd /tmp && wget -q "@ + config.nim_binary_url,
        "cd /tmp && echo "@ + config.nim_version_checksum
            + " >> hash_file.txt && cat hash_file.txt"@,
        "cd /tmp && sha256sum -c hash_file.txt"@,
        "cd /tmp && tar xJf nim-"@ + config.nim_version + "-linux_x64.tar.xz -C nim-"@
            + config.nim_version + " --strip-components=1"@,
        "cd /tmp  && mv nim-"@ + config.nim_version + " /opt/lib/nim"@,
        "ln -s /opt/lib/nim/nim-"@ + config.nim_version + "/bin/nim  /usr/bin/nim"@,
        "nim --version"@,
        remove_step("wget"@),
    ]
}

/// The steps that provision `env` before a build.  C is part of the base
/// image and needs none.
pub open spec fn build_steps(env: LanguageEnvView) -> Seq<Seq<char>> {
    match env {
        LanguageEnvView::C => Seq::empty(),
        LanguageEnvView::Rust(config) => rust_build_steps(config),
        LanguageEnvView::Go(config) => go_build_steps(config),
        LanguageEnvView::JavaScript(config) | LanguageEnvView::TypeScript(config) => {
            node_build_steps(config) + yarn_build_steps(config.yarn_version)
        },
        LanguageEnvView::Java(config) => java_build_steps(config),
        LanguageEnvView::Dotnet(config) => dotnet_build_steps(config),
        LanguageEnvView::Nim(config) => nim_build_steps(config),
    }
}

/// The steps that provision `env` before the built package is tested.  A
/// package compiled to a binary needs no toolchain then; a package that
/// needs a runtime must declare it, so none is installed ahead of it.
pub open spec fn test_steps(env: LanguageEnvView) -> Seq<Seq<char>> {
    match env {
        LanguageEnvView::Dotnet(_) => dotnet_test_steps(),
        _ => Seq::empty(),
    }
}

/// The build steps of a package; none for a virtual package.
pub open spec fn package_build_steps(package_type: PackageTypeView) -> Seq<Seq<char>> {
    match package_type.language_env() {
        Some(env) => build_steps(env),
        None => Seq::empty(),
    }
}

/// The test steps of a package; none for a virtual package.
pub open spec fn package_test_steps(package_type: PackageTypeView) -> Seq<Seq<char>> {
    match package_type.language_env() {
        Some(env) => test_steps(env),
        None => Seq::empty(),
    }
}

/// Whether the toolchain compiles a package to a self-contained binary.
pub open spec fn compiles_to_binary(env: LanguageEnvView) -> bool {
    env is C || env is Rust || env is Go || env is Nim
}

fn install_helpers(packages: &str) -> (step: String)
    ensures
        step@ == install_step(packages@),
{
    concat2("apt install -y ", packages)
}

fn remove_helpers(packages: &str) -> (step: String)
    ensures
        step@ == remove_step(packages@),
{
    concat2("apt remove -y ", packages)
}

pub fn rust_build_deps(config: &RustConfig) -> (steps: Vec<String>)
    ensures
        lines(steps@) == rust_build_steps(config@),
{
    let mut steps: Vec<String> = Vec::new();
    push_line(&mut steps, install_helpers("curl gpg gpg-agent"));
    push_line(
        &mut steps,
        concat2("cd /tmp && curl -o rust.tar.xz -L ", config.rust_binary_url.as_str()),
    );
    push_line(
        &mut steps,
        concat3(
            "cd /tmp && echo \"",
            config.rust_binary_gpg_asc.as_str(),
            "\" >> rust.tar.xz.asc && cat rust.tar.xz.asc ",
        ),
    );
    push_line(&mut steps, owned("curl https://keybase.io/rust/pgp_keys.asc | gpg --import"));
    push_line(&mut steps, owned("cd /tmp && gpg --verify rust.tar.xz.asc rust.tar.xz"));
    push_line(
        &mut steps,
        owned("cd /tmp && tar xvJf rust.tar.xz -C . --strip-components=1 --exclude=rust-docs"),
    );
    push_line(&mut steps, owned("cd /tmp && /bin/bash install.sh --without=rust-docs"));
    push_line(&mut steps, remove_helpers("curl gpg gpg-agent"));
    steps
}

pub fn go_build_deps(config: &GoConfig) -> (steps: Vec<String>)
    ensures
        lines(steps@) == go_build_steps(config@),
{
    let mut steps: Vec<String> = Vec::new();
    push_line(&mut steps, install_helpers("curl"));
    push_line(
        &mut steps,
        concat2("cd /tmp && curl -o go.tar.gz -L ", config.go_binary_url.as_str()),
    );
    push_line(
        &mut steps,
        concat3(
            "cd /tmp && echo \"",
            config.go_binary_checksum.as_str(),
            " go.tar.gz\" >> hash_file.txt && cat hash_file.txt",
        ),
    );
    push_line(&mut steps, owned("cd /tmp && sha256sum -c hash_file.txt"));
    push_line(
        &mut steps,
        owned(
            "cd /tmp && rm -rf /usr/local/go && mkdir /usr/local/go && tar -C /usr/local -xzf go.tar.gz",
        ),
    );
    push_line(&mut steps, owned("ln -s /usr/local/go/bin/go /usr/bin/go"));
    push_line(&mut steps, owned("go version"));
    push_line(&mut steps, owned("go install -buildmode=shared std"));
    push_line(&mut steps, owned("chmod -R a+rwx /usr/local/go/pkg"));
    push_line(&mut steps, remove_helpers("curl"));
    steps
}

pub fn node_build_deps(config: &JavascriptConfig) -> (steps: Vec<String>)
    ensures
        lines(steps@) == node_build_steps(config@) + yarn_build_steps(config@.yarn_version),
{
    let mut steps: Vec<String> = Vec::new();
    push_line(&mut steps, install_helpers("curl"));
    push_line(
        &mut steps,
        concat2("cd /tmp && curl -o node.tar.gz -L ", config.node_binary_url.as_str()),
    );
    push_line(
        &mut steps,
        concat3(
            "cd /tmp && echo \"",
            config.node_binary_checksum.as_str(),
            " node.tar.gz\" >> hash_file.txt && cat hash_file.txt",
        ),
    );
    push_line(&mut steps, owned("cd /tmp && sha256sum -c hash_file.txt"));
    push_line(
        &mut steps,
        owned(
            "cd /tmp && rm -rf /usr/share/node && mkdir /usr/share/node && tar -C /usr/share/node -xzf node.tar.gz --strip-components=1",
        ),
    );
    push_line(&mut steps, owned("ls -l /usr/share/node/bin"));
    push_line(&mut steps, owned("ln -s /usr/share/node/bin/node /usr/bin/node"));
    push_line(&mut steps, owned("ln -s /usr/share/node/bin/npm /usr/bin/npm"));
    push_line(&mut steps, owned("ln -s /usr/share/node/bin/npx /usr/bin/npx"));
    push_line(&mut steps, owned("ln -s /usr/share/node/bin/corepack /usr/bin/corepack"));
    push_line(&mut steps, remove_helpers("curl"));
    push_line(&mut steps, owned("node --version"));
    push_line(&mut steps, owned("npm --version"));
    match &config.yarn_version {
        Some(version) => {
            push_line(&mut steps, concat2("npm install --global yarn@", version.as_str()));
            push_line(&mut steps, owned("ln -s /usr/share/node/bin/yarn /usr/bin/yarn"));
            push_line(&mut steps, owned("yarn --version"));
        },
        None => {},
    }
    assert(lines(steps@) =~= node_build_steps(config@) + yarn_build_steps(config@.yarn_version));
    steps
}

pub fn java_build_deps(config: &JavaConfig) -> (steps: Vec<String>)
    ensures
        lines(steps@) == java_build_steps(config@),
{
    let mut steps: Vec<String> = Vec::new();
    if !config.is_oracle {
        assert(lines(steps@) =~= java_build_steps(config@));
        return steps;
    }
    let version = config.jdk_version.as_str();
    push_line(&mut steps, install_helpers("wget"));
    push_line(
        &mut steps,
        concat3("mkdir -p /opt/lib/jvm/jdk-", version, "-oracle && mkdir -p /usr/lib/jvm"),
    );
    push_line(
        &mut steps,
        concat2("cd /tmp && wget -q --output-document jdk.tar.gz ", config.jdk_binary_url.as_str()),
    );
    push_line(
        &mut steps,
        concat3(
            "cd /tmp && echo \"",
            config.jdk_binary_checksum.as_str(),
            " jdk.tar.gz\" >> hash_file.txt && cat hash_file.txt",
        ),
    );
    push_line(&mut steps, owned("cd /tmp && sha256sum -c hash_file.txt"));
    push_line(
        &mut steps,
        concat3(
            "cd /tmp && tar -zxf jdk.tar.gz -C /opt/lib/jvm/jdk-",
            version,
            "-oracle --strip-components=1",
        ),
    );
    push_line(
        &mut steps,
        concat3("ln -s /opt/lib/jvm/jdk-", version, "-oracle/bin/java  /usr/bin/java"),
    );
    push_line(
        &mut steps,
        concat3("ln -s /opt/lib/jvm/jdk-", version, "-oracle/bin/javac  /usr/bin/javac"),
    );
    push_line(&mut steps, owned("java -version"));
    push_line(&mut steps, remove_helpers("wget"));
    match &config.gradle {
        Some(gradle) => {
            let gradle_version = gradle.gradle_version.as_str();
            push_line(&mut steps, install_helpers("wget unzip"));
            push_line(&mut steps, concat2("mkdir -p /opt/lib/gradle-", gradle_version));
            push_line(
                &mut steps,
                concat2(
                    "cd /tmp && wget -q --output-document gradle.tar.gz ",
                    gradle.gradle_binary_url.as_str(),
                ),
            );
            push_line(
                &mut steps,
                concat3(
                    "cd /tmp && echo \"",
                    gradle.gradle_binary_checksum.as_str(),
                    " gradle.tar.gz\" > hash_file.txt && cat hash_file.txt",
                ),
            );
            push_line(&mut steps, owned("cd /tmp && sha256sum -c hash_file.txt"));
            push_line(
                &mut steps,
                concat3("cd /tmp && unzip gradle.tar.gz && mv gradle-", gradle_version, " /opt/lib"),
            );
            push_line(
                &mut steps,
                concat3("ln -s /opt/lib/gradle-", gradle_version, "/bin/gradle  /usr/bin/gradle"),
            );
            push_line(&mut steps, owned("gradle -version"));
            push_line(&mut steps, remove_helpers("wget unzip"));
        },
        None => {},
    }
    assert(lines(steps@) =~= java_build_steps(config@));
    steps
}

fn dotnet_repository_deps() -> (steps: Vec<String>)
    ensures
        lines(steps@) == dotnet_repository_steps(),
{
    let mut steps: Vec<String> = Vec::new();
    push_line(&mut steps, install_helpers("wget"));
    push_line(
        &mut steps,
        owned(
            "cd /tmp && wget https://packages.microsoft.com/config/debian/12/packages-microsoft-prod.deb -O packages-microsoft-prod.deb",
        ),
    );
    push_line(&mut steps, owned("cd /tmp && dpkg -i packages-microsoft-prod.deb "));
    push_line(&mut steps, owned("apt-get update -y"));
    steps
}

pub fn dotnet_build_deps(config: &DotnetConfig) -> (steps: Vec<String>)
    ensures
        lines(steps@) == dotnet_build_steps(config@),
{
    let mut steps = dotnet_repository_deps();
    push_line(
        &mut steps,
        concat2("apt-get install -y dotnet-sdk-", config.dotnet_version.as_str()),
    );
    push_line(&mut steps, owned("dotnet --version"));
    push_line(&mut steps, remove_helpers("wget"));
    assert(lines(steps@) =~= dotnet_build_steps(config@));
    steps
}

pub fn dotnet_test_deps() -> (steps: Vec<String>)
    ensures
        lines(steps@) == dotnet_test_steps(),
{
    let mut steps = dotnet_repository_deps();
    push_line(&mut steps, remove_helpers("wget"));
    steps
}

pub fn nim_build_deps(config: &NimConfig) -> (steps: Vec<String>)
    ensures
        lines(steps@) == nim_build_steps(config@),
{
    let version = config.nim_version.as_str();
    let mut steps: Vec<String> = Vec::new();
    push_line(&mut steps, install_helpers("wget"));
    let mut clear = concat3("rm -rf /tmp/nim-", version, " && rm -rf /usr/lib/nim/nim-");
    clear.append(version);
    clear.append("&& rm -rf /opt/lib/nim/nim-");
    clear.append(version);
    clear.append(" && mkdir /tmp/nim-");
    clear.append(version);
    push_line(&mut steps, clear);
    push_line(&mut steps, owned("mkdir -p /opt/lib/nim && mkdir -p /usr/lib/nim"));
    push_line(&mut steps, concat2("cd /tmp && wget -q ", config.nim_binary_url.as_str()));
    push_line(
        &mut steps,
        concat3(
            "cd /tmp && echo ",
            config.nim_version_checksum.as_str(),
            " >> hash_file.txt && cat hash_file.txt",
        ),
    );
    push_line(&mut steps, owned("cd /tmp && sha256sum -c hash_file.txt"));
    let mut unpack = concat3("cd /tmp && tar xJf nim-", version, "-linux_x64.tar.xz -C nim-");
    unpack.append(version);
    unpack.append(" --strip-components=1");
    push_line(&mut steps, unpack);
    push_line(&mut steps, concat3("cd /tmp  && mv nim-", version, " /opt/lib/nim"));
    push_line(
        &mut steps,
        concat3("ln -s /opt/lib/nim/nim-", version, "/bin/nim  /usr/bin/nim"),
    );
    push_line(&mut steps, owned("nim --version"));
    push_line(&mut steps, remove_helpers("wget"));
    steps
}

/// The steps that provision `env` before a build, in the order in which
/// they must run.
pub fn build_deps(env: &LanguageEnv) -> (steps: Vec<String>)
    ensures
        lines(steps@) == build_steps(env@),
{
    match env {
        LanguageEnv::C => {
            let steps: Vec<String> = Vec::new();
            assert(lines(steps@) =~= build_steps(env@));
            steps
        },
        LanguageEnv::Rust(config) => rust_build_deps(config),
        LanguageEnv::Go(config) => go_build_deps(config),
        LanguageEnv::JavaScript(config) => node_build_deps(config),
        LanguageEnv::TypeScript(config) => node_build_deps(config),
        LanguageEnv::Java(config) => java_build_deps(config),
        LanguageEnv::Dotnet(config) => dotnet_build_deps(config),
        LanguageEnv::Nim(config) => nim_build_deps(config),
    }
}

/// The steps that provision `env` before the built package is tested.
pub fn test_deps(env: &LanguageEnv) -> (steps: Vec<String>)
    ensures
        lines(steps@) == test_steps(env@),
{
    match env {
        LanguageEnv::Dotnet(_) => dotnet_test_deps(),
        _ => {
            let steps: Vec<String> = Vec::new();
            assert(lines(steps@) =~= test_steps(env@));
            steps
        },
    }
}

/// The build steps of a package; none for a virtual package.
pub fn package_build_deps(package_type: &PackageType) -> (steps: Vec<String>)
    ensures
        lines(steps@) == package_build_steps(package_type@),
{
    match package_type.language_env() {
        Some(env) => build_deps(env),
        None => {
            let steps: Vec<String> = Vec::new();
            assert(lines(steps@) =~= package_build_steps(package_type@));
            steps
        },
    }
}

/// The test steps of a package; none for a virtual package.
pub fn package_test_deps(package_type: &PackageType) -> (steps: Vec<String>)
    ensures
        lines(steps@) == package_test_steps(package_type@),
{
    match package_type.language_env() {
        Some(env) => test_deps(env),
        None => {
            let steps: Vec<String> = Vec::new();
            assert(lines(steps@) =~= package_test_steps(package_type@));
            steps
        },
    }
}

} // verus!
