//! No helper package stays in the chroot: whatever a step installs with
//! `apt install -y`, a later step removes with `apt remove -y`.
//!
//! The laws speak of the text of the steps, so they hold of what the
//! chroot is really told to run.  Their proofs read each step by its
//! first characters: a step that begins otherwise installs nothing.

use crate::pkg_config::{
    DotnetConfigView, GoConfigView, GradleConfigView, JavaConfigView, JavascriptConfigView,
    LanguageEnvView, NimConfigView, RustConfigView,
};
use crate::provisioning::{
    build_steps, dotnet_build_steps, dotnet_repository_steps, dotnet_test_steps,
    go_build_steps, gradle_build_steps, install_step, jdk_build_steps, nim_build_steps,
    node_build_steps, remove_step, rust_build_steps, test_steps, yarn_build_steps,
};
use vstd::prelude::*;

verus! {

/// Whether `steps` remove the helper packages `packages` at some step
/// after step `i`.
pub open spec fn removed_after(steps: Seq<Seq<char>>, i: int, packages: Seq<char>) -> bool {
    exists|k: int| i < k < steps.len() && #[trigger] steps[k] == remove_step(packages)
}

/// Whether `step` begins with another character than an install step.
spec fn begins_otherwise(step: Seq<char>) -> bool {
    step.len() > 0 && step[0] != 'a'
}

proof fn lemma_begins_otherwise(step: Seq<char>, packages: Seq<char>)
    requires
        begins_otherwise(step),
    ensures
        step != install_step(packages),
{
    reveal_strlit("apt install -y ");
    assert(install_step(packages)[0] == 'a');
}

/// A step of `apt-get` is no install step of helper packages.
proof fn lemma_apt_get_is_no_install(step: Seq<char>, packages: Seq<char>)
    requires
        step.len() > 3,
        step[3] == '-',
    ensures
        step != install_step(packages),
{
    reveal_strlit("apt install -y ");
    assert(install_step(packages)[3] == ' ');
}

/// A step that removes packages installs none.
proof fn lemma_removal_is_no_install(removed: Seq<char>, packages: Seq<char>)
    ensures
        remove_step(removed) != install_step(packages),
{
    reveal_strlit("apt install -y ");
    reveal_strlit("apt remove -y ");
    assert(install_step(packages)[4] == 'i');
    assert(remove_step(removed)[4] == 'r');
}

/// An install step names its packages: two install steps with the same
/// text install the same packages.
proof fn lemma_install_step_names_its_packages(first: Seq<char>, second: Seq<char>)
    requires
        install_step(first) == install_step(second),
    ensures
        first == second,
{
    let apt = "apt install -y "@;
    assert(first =~= install_step(first).skip(apt.len() as int));
    assert(second =~= install_step(second).skip(apt.len() as int));
}

/// Rust installs its helpers in the first step and nowhere else.
proof fn lemma_rust_installs(config: RustConfigView, i: int, packages: Seq<char>)
    requires
        0 <= i < rust_build_steps(config).len(),
        rust_build_steps(config)[i] == install_step(packages),
    ensures
        i == 0,
        packages == "curl gpg gpg-agent"@,
{
    let steps = rust_build_steps(config);
    reveal_strlit("cd /tmp && curl -o rust.tar.xz -L ");
    reveal_strlit("cd /tmp && echo \"");
    reveal_strlit("curl https://keybase.io/rust/pgp_keys.asc | gpg --import");
    reveal_strlit("cd /tmp && gpg --verify rust.tar.xz.asc rust.tar.xz");
    reveal_strlit("cd /tmp && tar xvJf rust.tar.xz -C . --strip-components=1 --exclude=rust-docs");
    reveal_strlit("cd /tmp && /bin/bash install.sh --without=rust-docs");
    if i == 0 {
        lemma_install_step_names_its_packages(packages, "curl gpg gpg-agent"@);
    } else if i == 1 {
        assert(begins_otherwise(steps[1]));
        lemma_begins_otherwise(steps[1], packages);
    } else if i == 2 {
        assert(begins_otherwise(steps[2]));
        lemma_begins_otherwise(steps[2], packages);
    } else if i == 3 {
        assert(begins_otherwise(steps[3]));
        lemma_begins_otherwise(steps[3], packages);
    } else if i == 4 {
        assert(begins_otherwise(steps[4]));
        lemma_begins_otherwise(steps[4], packages);
    } else if i == 5 {
        assert(begins_otherwise(steps[5]));
        lemma_begins_otherwise(steps[5], packages);
    } else if i == 6 {
        assert(begins_otherwise(steps[6]));
        lemma_begins_otherwise(steps[6], packages);
    } else if i == 7 {
        lemma_removal_is_no_install("curl gpg gpg-agent"@, packages);
    }
}

/// Go installs its helper in the first step and nowhere else.
proof fn lemma_go_installs(config: GoConfigView, i: int, packages: Seq<char>)
    requires
        0 <= i < go_build_steps(config).len(),
        go_build_steps(config)[i] == install_step(packages),
    ensures
        i == 0,
        packages == "curl"@,
{
    let steps = go_build_steps(config);
    reveal_strlit("cd /tmp && curl -o go.tar.gz -L ");
    reveal_strlit("cd /tmp && echo \"");
    reveal_strlit("cd /tmp && sha256sum -c hash_file.txt");
    reveal_strlit("cd /tmp && rm -rf /usr/local/go && mkdir /usr/local/go && tar -C /usr/local -xzf go.tar.gz");
    reveal_strlit("ln -s /usr/local/go/bin/go /usr/bin/go");
    reveal_strlit("go version");
    reveal_strlit("go install -buildmode=shared std");
    reveal_strlit("chmod -R a+rwx /usr/local/go/pkg");
    if i == 0 {
        lemma_install_step_names_its_packages(packages, "curl"@);
    } else if i == 1 {
        assert(begins_otherwise(steps[1]));
        lemma_begins_otherwise(steps[1], packages);
    } else if i == 2 {
        assert(begins_otherwise(steps[2]));
        lemma_begins_otherwise(steps[2], packages);
    } else if i == 3 {
        assert(begins_otherwise(steps[3]));
        lemma_begins_otherwise(steps[3], packages);
    } else if i == 4 {
        assert(begins_otherwise(steps[4]));
        lemma_begins_otherwise(steps[4], packages);
    } else if i == 5 {
        assert(begins_otherwise(steps[5]));
        lemma_begins_otherwise(steps[5], packages);
    } else if i == 6 {
        assert(begins_otherwise(steps[6]));
        lemma_begins_otherwise(steps[6], packages);
    } else if i == 7 {
        assert(begins_otherwise(steps[7]));
        lemma_begins_otherwise(steps[7], packages);
    } else if i == 8 {
        assert(begins_otherwise(steps[8]));
        lemma_begins_otherwise(steps[8], packages);
    } else if i == 9 {
        lemma_removal_is_no_install("curl"@, packages);
    }
}

/// Node.js installs its helper in the first step and nowhere else.
proof fn lemma_node_installs(config: JavascriptConfigView, i: int, packages: Seq<char>)
    requires
        0 <= i < node_build_steps(config).len(),
        node_build_steps(config)[i] == install_step(packages),
    ensures
        i == 0,
        packages == "curl"@,
{
    let steps = node_build_steps(config);
    reveal_strlit("cd /tmp && curl -o node.tar.gz -L ");
    reveal_strlit("cd /tmp && echo \"");
    reveal_strlit("cd /tmp && sha256sum -c hash_file.txt");
    reveal_strlit("cd /tmp && rm -rf /usr/share/node && mkdir /usr/share/node && tar -C /usr/share/node -xzf node.tar.gz --strip-components=1");
    reveal_strlit("ls -l /usr/share/node/bin");
    reveal_strlit("ln -s /usr/share/node/bin/node /usr/bin/node");
    reveal_strlit("ln -s /usr/share/node/bin/npm /usr/bin/npm");
    reveal_strlit("ln -s /usr/share/node/bin/npx /usr/bin/npx");
    reveal_strlit("ln -s /usr/share/node/bin/corepack /usr/bin/corepack");
    reveal_strlit("node --version");
    reveal_strlit("npm --version");
    if i == 0 {
        lemma_install_step_names_its_packages(packages, "curl"@);
    } else if i == 1 {
        assert(begins_otherwise(steps[1]));
        lemma_begins_otherwise(steps[1], packages);
    } else if i == 2 {
        assert(begins_otherwise(steps[2]));
        lemma_begins_otherwise(steps[2], packages);
    } else if i == 3 {
        assert(begins_otherwise(steps[3]));
        lemma_begins_otherwise(steps[3], packages);
    } else if i == 4 {
        assert(begins_otherwise(steps[4]));
        lemma_begins_otherwise(steps[4], packages);
    } else if i == 5 {
        assert(begins_otherwise(steps[5]));
        lemma_begins_otherwise(steps[5], packages);
    } else if i == 6 {
        assert(begins_otherwise(steps[6]));
        lemma_begins_otherwise(steps[6], packages);
    } else if i == 7 {
        assert(begins_otherwise(steps[7]));
        lemma_begins_otherwise(steps[7], packages);
    } else if i == 8 {
        assert(begins_otherwise(steps[8]));
        lemma_begins_otherwise(steps[8], packages);
    } else if i == 9 {
        assert(begins_otherwise(steps[9]));
        lemma_begins_otherwise(steps[9], packages);
    } else if i == 10 {
        lemma_removal_is_no_install("curl"@, packages);
    } else if i == 11 {
        assert(begins_otherwise(steps[11]));
        lemma_begins_otherwise(steps[11], packages);
    } else if i == 12 {
        assert(begins_otherwise(steps[12]));
        lemma_begins_otherwise(steps[12], packages);
    }
}

/// The yarn steps install no helper.
proof fn lemma_yarn_installs(version: Option<Seq<char>>, i: int, packages: Seq<char>)
    requires
        0 <= i < yarn_build_steps(version).len(),
    ensures
        yarn_build_steps(version)[i] != install_step(packages),
{
    let steps = yarn_build_steps(version);
    reveal_strlit("npm install --global yarn@");
    reveal_strlit("ln -s /usr/share/node/bin/yarn /usr/bin/yarn");
    reveal_strlit("yarn --version");
    if i == 0 {
        assert(begins_otherwise(steps[0]));
        lemma_begins_otherwise(steps[0], packages);
    } else if i == 1 {
        assert(begins_otherwise(steps[1]));
        lemma_begins_otherwise(steps[1], packages);
    } else if i == 2 {
        assert(begins_otherwise(steps[2]));
        lemma_begins_otherwise(steps[2], packages);
    }
}

/// The JDK installs its helper in the first step and nowhere else.
proof fn lemma_jdk_installs(config: JavaConfigView, i: int, packages: Seq<char>)
    requires
        0 <= i < jdk_build_steps(config).len(),
        jdk_build_steps(config)[i] == install_step(packages),
    ensures
        i == 0,
        packages == "wget"@,
{
    let steps = jdk_build_steps(config);
    reveal_strlit("mkdir -p /opt/lib/jvm/jdk-");
    reveal_strlit("cd /tmp && wget -q --output-document jdk.tar.gz ");
    reveal_strlit("cd /tmp && echo \"");
    reveal_strlit("cd /tmp && sha256sum -c hash_file.txt");
    reveal_strlit("cd /tmp && tar -zxf jdk.tar.gz -C /opt/lib/jvm/jdk-");
    reveal_strlit("ln -s /opt/lib/jvm/jdk-");
    reveal_strlit("java -version");
    if i == 0 {
        lemma_install_step_names_its_packages(packages, "wget"@);
    } else if i == 1 {
        assert(begins_otherwise(steps[1]));
        lemma_begins_otherwise(steps[1], packages);
    } else if i == 2 {
        assert(begins_otherwise(steps[2]));
        lemma_begins_otherwise(steps[2], packages);
    } else if i == 3 {
        assert(begins_otherwise(steps[3]));
        lemma_begins_otherwise(steps[3], packages);
    } else if i == 4 {
        assert(begins_otherwise(steps[4]));
        lemma_begins_otherwise(steps[4], packages);
    } else if i == 5 {
        assert(begins_otherwise(steps[5]));
        lemma_begins_otherwise(steps[5], packages);
    } else if i == 6 {
        assert(begins_otherwise(steps[6]));
        lemma_begins_otherwise(steps[6], packages);
    } else if i == 7 {
        assert(begins_otherwise(steps[7]));
        lemma_begins_otherwise(steps[7], packages);
    } else if i == 8 {
        assert(begins_otherwise(steps[8]));
        lemma_begins_otherwise(steps[8], packages);
    } else if i == 9 {
        lemma_removal_is_no_install("wget"@, packages);
    }
}

/// Gradle installs its helpers in the first step and nowhere else.
proof fn lemma_gradle_installs(gradle: Option<GradleConfigView>, i: int, packages: Seq<char>)
    requires
        0 <= i < gradle_build_steps(gradle).len(),
        gradle_build_steps(gradle)[i] == install_step(packages),
    ensures
        i == 0,
        packages == "wget unzip"@,
{
    let steps = gradle_build_steps(gradle);
    reveal_strlit("mkdir -p /opt/lib/gradle-");
    reveal_strlit("cd /tmp && wget -q --output-document gradle.tar.gz ");
    reveal_strlit("cd /tmp && echo \"");
    reveal_strlit("cd /tmp && sha256sum -c hash_file.txt");
    reveal_strlit("cd /tmp && unzip gradle.tar.gz && mv gradle-");
    reveal_strlit("ln -s /opt/lib/gradle-");
    reveal_strlit("gradle -version");
    if i == 0 {
        lemma_install_step_names_its_packages(packages, "wget unzip"@);
    } else if i == 1 {
        assert(begins_otherwise(steps[1]));
        lemma_begins_otherwise(steps[1], packages);
    } else if i == 2 {
        assert(begins_otherwise(steps[2]));
        lemma_begins_otherwise(steps[2], packages);
    } else if i == 3 {
        assert(begins_otherwise(steps[3]));
        lemma_begins_otherwise(steps[3], packages);
    } else if i == 4 {
        assert(begins_otherwise(steps[4]));
        lemma_begins_otherwise(steps[4], packages);
    } else if i == 5 {
        assert(begins_otherwise(steps[5]));
        lemma_begins_otherwise(steps[5], packages);
    } else if i == 6 {
        assert(begins_otherwise(steps[6]));
        lemma_begins_otherwise(steps[6], packages);
    } else if i == 7 {
        assert(begins_otherwise(steps[7]));
        lemma_begins_otherwise(steps[7], packages);
    } else if i == 8 {
        lemma_removal_is_no_install("wget unzip"@, packages);
    }
}

/// Nim installs its helper in the first step and nowhere else.
proof fn lemma_nim_installs(config: NimConfigView, i: int, packages: Seq<char>)
    requires
        0 <= i < nim_build_steps(config).len(),
        nim_build_steps(config)[i] == install_step(packages),
    ensures
        i == 0,
        packages == "wget"@,
{
    let steps = nim_build_steps(config);
    reveal_strlit("rm -rf /tmp/nim-");
    reveal_strlit("mkdir -p /opt/lib/nim && mkdir -p /usr/lib/nim");
    reveal_strlit("cd /tmp && wget -q ");
    reveal_strlit("cd /tmp && echo ");
    reveal_strlit("cd /tmp && sha256sum -c hash_file.txt");
    reveal_strlit("cd /tmp && tar xJf nim-");
    reveal_strlit("cd /tmp  && mv nim-");
    reveal_strlit("ln -s /opt/lib/nim/nim-");
    reveal_strlit("nim --version");
    if i == 0 {
        lemma_install_step_names_its_packages(packages, "wget"@);
    } else if i == 1 {
        assert(begins_otherwise(steps[1]));
        lemma_begins_otherwise(steps[1], packages);
    } else if i == 2 {
        assert(begins_otherwise(steps[2]));
        lemma_begins_otherwise(steps[2], packages);
    } else if i == 3 {
        assert(begins_otherwise(steps[3]));
        lemma_begins_otherwise(steps[3], packages);
    } else if i == 4 {
        assert(begins_otherwise(steps[4]));
        lemma_begins_otherwise(steps[4], packages);
    } else if i == 5 {
        assert(begins_otherwise(steps[5]));
        lemma_begins_otherwise(steps[5], packages);
    } else if i == 6 {
        assert(begins_otherwise(steps[6]));
        lemma_begins_otherwise(steps[6], packages);
    } else if i == 7 {
        assert(begins_otherwise(steps[7]));
        lemma_begins_otherwise(steps[7], packages);
    } else if i == 8 {
        assert(begins_otherwise(steps[8]));
        lemma_begins_otherwise(steps[8], packages);
    } else if i == 9 {
        assert(begins_otherwise(steps[9]));
        lemma_begins_otherwise(steps[9], packages);
    } else if i == 10 {
        lemma_removal_is_no_install("wget"@, packages);
    }
}

/// Registering the .NET repository installs its helper in the first step
/// and nowhere else.
proof fn lemma_dotnet_repository_installs(i: int, packages: Seq<char>)
    requires
        0 <= i < dotnet_repository_steps().len(),
        dotnet_repository_steps()[i] == install_step(packages),
    ensures
        i == 0,
        packages == "wget"@,
{
    let steps = dotnet_repository_steps();
    reveal_strlit(
        "cd /tmp && wget https://packages.microsoft.com/config/debian/12/packages-microsoft-prod.deb -O packages-microsoft-prod.deb",
    );
    reveal_strlit("cd /tmp && dpkg -i packages-microsoft-prod.deb ");
    reveal_strlit("apt-get update -y");
    if i == 0 {
        lemma_install_step_names_its_packages(packages, "wget"@);
    } else if i == 1 {
        assert(begins_otherwise(steps[1]));
        lemma_begins_otherwise(steps[1], packages);
    } else if i == 2 {
        assert(begins_otherwise(steps[2]));
        lemma_begins_otherwise(steps[2], packages);
    } else if i == 3 {
        lemma_apt_get_is_no_install(steps[3], packages);
    }
}

/// .NET installs its helper in the first step and nowhere else: the SDK
/// itself comes through `apt-get`, and is no helper.
proof fn lemma_dotnet_installs(config: DotnetConfigView, i: int, packages: Seq<char>)
    requires
        0 <= i < dotnet_build_steps(config).len(),
        dotnet_build_steps(config)[i] == install_step(packages),
    ensures
        i == 0,
        packages == "wget"@,
{
    let steps = dotnet_build_steps(config);
    reveal_strlit("apt-get install -y dotnet-sdk-");
    reveal_strlit("dotnet --version");
    assert(dotnet_repository_steps().len() == 4);
    if i < 4 {
        assert(steps[i] == dotnet_repository_steps()[i]);
        lemma_dotnet_repository_installs(i, packages);
    } else if i == 4 {
        lemma_apt_get_is_no_install(steps[4], packages);
    } else if i == 5 {
        assert(begins_otherwise(steps[5]));
        lemma_begins_otherwise(steps[5], packages);
    } else if i == 6 {
        lemma_removal_is_no_install("wget"@, packages);
    }
}

/// When a toolchain is provisioned at all, the first step installs the
/// helper packages that the download needs.
pub proof fn law_provisioning_starts_with_the_helpers(env: LanguageEnvView)
    requires
        build_steps(env).len() > 0,
    ensures
        exists|packages: Seq<char>| build_steps(env)[0] == #[trigger] install_step(packages),
{
    let steps = build_steps(env);
    match env {
        LanguageEnvView::C => {},
        LanguageEnvView::Rust(_) => {
            assert(steps[0] == install_step("curl gpg gpg-agent"@));
        },
        LanguageEnvView::Go(_) => {
            assert(steps[0] == install_step("curl"@));
        },
        LanguageEnvView::JavaScript(_) | LanguageEnvView::TypeScript(_) => {
            assert(steps[0] == install_step("curl"@));
        },
        LanguageEnvView::Java(_) => {
            assert(steps[0] == install_step("wget"@));
        },
        LanguageEnvView::Dotnet(_) => {
            assert(steps[0] == install_step("wget"@));
        },
        LanguageEnvView::Nim(_) => {
            assert(steps[0] == install_step("wget"@));
        },
    }
}

/// Every step before a build that installs helper packages is followed
/// by a step that removes exactly those packages: none of them stays in
/// the chroot.  This holds of every `apt install -y` in the steps, the
/// one that comes with Gradle included.
pub proof fn law_every_helper_is_removed_again(env: LanguageEnvView, i: int, packages: Seq<char>)
    requires
        0 <= i < build_steps(env).len(),
        build_steps(env)[i] == install_step(packages),
    ensures
        removed_after(build_steps(env), i, packages),
{
    let steps = build_steps(env);
    match env {
        LanguageEnvView::C => {},
        LanguageEnvView::Rust(config) => {
            lemma_rust_installs(config, i, packages);
            assert(steps[7] == remove_step(packages));
        },
        LanguageEnvView::Go(config) => {
            lemma_go_installs(config, i, packages);
            assert(steps[9] == remove_step(packages));
        },
        LanguageEnvView::JavaScript(config) | LanguageEnvView::TypeScript(config) => {
            assert(node_build_steps(config).len() == 13);
            if i < 13 {
                assert(steps[i] == node_build_steps(config)[i]);
                lemma_node_installs(config, i, packages);
                assert(steps[10] == remove_step(packages));
            } else {
                assert(steps[i] == yarn_build_steps(config.yarn_version)[i - 13]);
                lemma_yarn_installs(config.yarn_version, i - 13, packages);
            }
        },
        LanguageEnvView::Java(config) => {
            assert(jdk_build_steps(config).len() == 10);
            if i < 10 {
                assert(steps[i] == jdk_build_steps(config)[i]);
                lemma_jdk_installs(config, i, packages);
                assert(steps[9] == remove_step(packages));
            } else {
                assert(steps[i] == gradle_build_steps(config.gradle)[i - 10]);
                lemma_gradle_installs(config.gradle, i - 10, packages);
                assert(steps[18] == gradle_build_steps(config.gradle)[8]);
                assert(steps[18] == remove_step(packages));
            }
        },
        LanguageEnvView::Dotnet(config) => {
            lemma_dotnet_installs(config, i, packages);
            assert(steps[6] == remove_step(packages));
        },
        LanguageEnvView::Nim(config) => {
            lemma_nim_installs(config, i, packages);
            assert(steps[10] == remove_step(packages));
        },
    }
}

/// The same holds before a test: every step that installs helper
/// packages is followed by a step that removes exactly those packages.
pub proof fn law_every_test_helper_is_removed_again(
    env: LanguageEnvView,
    i: int,
    packages: Seq<char>,
)
    requires
        0 <= i < test_steps(env).len(),
        test_steps(env)[i] == install_step(packages),
    ensures
        removed_after(test_steps(env), i, packages),
{
    let steps = test_steps(env);
    if env is Dotnet {
        assert(dotnet_repository_steps().len() == 4);
        assert(steps == dotnet_test_steps());
        if i < 4 {
            assert(steps[i] == dotnet_repository_steps()[i]);
            lemma_dotnet_repository_installs(i, packages);
            assert(steps[4] == remove_step(packages));
        } else {
            lemma_removal_is_no_install("wget"@, packages);
        }
    }
}

} // verus!
