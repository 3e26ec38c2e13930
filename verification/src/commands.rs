//! The command lines of the external tools.
//!
//! Each is stated twice: as a sequence of arguments over the view of the
//! configuration, and as the code that assembles it.  The tools read their
//! arguments by position and by spelling, so nothing here is approximate.

use crate::pkg_config::{LanguageEnv, PkgConfig, PkgConfigView};
use crate::process::{Invocation, InvocationView};
use crate::provisioning::{
    package_build_deps, package_build_steps, package_test_deps, package_test_steps,
};
use crate::text::{concat2, concat3, lines, no_lines, owned, push_line, push_lines};
use vstd::prelude::*;
use vstd::string::*;

verus! {

/// The one release that packages are built for.
pub open spec fn supported_codename() -> Seq<char> {
    "bookworm"@
}

/// The archive that chroots are filled from.
pub open spec fn mirror() -> Seq<char> {
    "http://deb.debian.org/debian"@
}

/// The argument that makes the build tool run `step` while it sets up
/// the chroot.
pub open spec fn setup_flag(step: Seq<char>) -> Seq<char> {
    "--chroot-setup-commands="@ + step
}

/// One setup argument for each step, in the order of the steps.
pub open spec fn setup_flags(steps: Seq<Seq<char>>) -> Seq<Seq<char>> {
    Seq::new(steps.len(), |i: int| setup_flag(steps[i]))
}

/// What runs in every chroot after the toolchain is in place: a full
/// upgrade, then the removal of what is no longer needed.  The toolchain's
/// installers so meet the base image as it was cached.
pub open spec fn maintenance_steps() -> Seq<Seq<char>> {
    seq!["apt full-upgrade -y"@, "apt autoremove -y"@]
}

/// The arguments that switch lintian on, with its one noisy tag
/// suppressed, or off.  Lintian runs only where it is asked for.
pub open spec fn lint_flags(run_lintian: Option<bool>) -> Seq<Seq<char>> {
    if run_lintian == Some(true) {
        seq![
            "--run-lintian"@,
            "--lintian-opt=--suppress-tags"@,
            "--lintian-opt=bad-distribution-in-changes-file"@,
            "--lintian-opts=-i"@,
            "--lintian-opts=--I"@,
        ]
    } else {
        seq!["--no-run-lintian"@]
    }
}

/// The arguments of the build that do not depend on the toolchain: the
/// release, all architectures, a source package with source-only changes,
/// the cached chroot, verbose output, and isolation by `unshare`.
pub open spec fn build_base_args(codename: Seq<char>, cache_file: Seq<char>) -> Seq<Seq<char>> {
    seq![
        "-d"@,
        codename,
        "-A"@,
        "-s"@,
        "--source-only-changes"@,
        "-c"@,
        cache_file,
        "-v"@,
        "--chroot-mode=unshare"@,
    ]
}

/// The arguments of the build: the base, then one setup argument per
/// toolchain step and per maintenance step, then the lintian switch.
pub open spec fn build_args(config: PkgConfigView, cache_file: Seq<char>) -> Seq<Seq<char>> {
    build_base_args(config.build_env.codename, cache_file) + setup_flags(
        package_build_steps(config.package_type) + maintenance_steps(),
    ) + lint_flags(config.build_env.run_lintian)
}

/// The build: `sbuild` in the source directory.
pub open spec fn build_invocation(
    config: PkgConfigView,
    build_files_dir: Seq<char>,
    cache_file: Seq<char>,
) -> InvocationView {
    InvocationView {
        program: "sbuild"@,
        args: build_args(config, cache_file),
        working_dir: Some(build_files_dir),
        elevated: false,
    }
}

/// The vendor repository that a .NET package needs in order to install.
/// Its signatures go unverified: the chroot cannot check the repository's
/// certificates before the package that brings them is installed.  No
/// other toolchain adds a repository.
pub open spec fn extra_repository_args(config: PkgConfigView) -> Seq<Seq<char>> {
    match config.package_type.language_env() {
        Some(env) => if env is Dotnet {
            seq![
                "--extra-repo=deb https://packages.microsoft.com/debian/12/prod "@
                    + config.build_env.codename + " main"@,
                "--do-not-verify-signatures"@,
            ]
        } else {
            Seq::empty()
        },
        None => Seq::empty(),
    }
}

/// The arguments of the install test, after `sudo`: credentials from
/// standard input, then `piuparts` for the release with `/dev` mounted
/// and the archive keyring pinned, and the package last.
pub open spec fn install_test_args(config: PkgConfigView, deb_file: Seq<char>) -> Seq<Seq<char>> {
    seq![
        "-S"@,
        "piuparts"@,
        "-d"@,
        config.build_env.codename,
        "-m"@,
        mirror(),
        "--bindmount=/dev"@,
        "--keyring=/usr/share/keyrings/debian-archive-keyring.gpg"@,
    ] + extra_repository_args(config) + seq![deb_file]
}

/// The install test: `piuparts` as root, in the directory of the built
/// artifacts.
pub open spec fn install_test_invocation(
    config: PkgConfigView,
    deb_dir: Seq<char>,
    deb_file: Seq<char>,
) -> InvocationView {
    InvocationView {
        program: "sudo"@,
        args: install_test_args(config, deb_file),
        working_dir: Some(deb_dir),
        elevated: true,
    }
}

/// The creation of the test image: `autopkgtest-build-qemu` as root.
pub open spec fn image_invocation(codename: Seq<char>, image_path: Seq<char>) -> InvocationView {
    InvocationView {
        program: "sudo"@,
        args: seq!["-S"@, "autopkgtest-build-qemu"@, codename, image_path],
        working_dir: None,
        elevated: true,
    }
}

/// The arguments of the regression test: the changes file, the ban on
/// rebuilding what was just built, one setup argument per test step, and
/// after `--` the virtual machine and its image.
pub open spec fn regression_test_args(
    config: PkgConfigView,
    changes_file: Seq<char>,
    image_path: Seq<char>,
) -> Seq<Seq<char>> {
    seq![changes_file, "--no-built-binaries"@] + setup_flags(
        package_test_steps(config.package_type),
    ) + seq!["--"@, "qemu"@, image_path]
}

/// The regression test: `autopkgtest` in the directory of the built
/// artifacts.
pub open spec fn regression_test_invocation(
    config: PkgConfigView,
    deb_dir: Seq<char>,
    changes_file: Seq<char>,
    image_path: Seq<char>,
) -> InvocationView {
    InvocationView {
        program: "autopkgtest"@,
        args: regression_test_args(config, changes_file, image_path),
        working_dir: Some(deb_dir),
        elevated: false,
    }
}

/// The creation of the chroot: `sbuild-createchroot`, isolated by
/// `unshare`, writing a tarball for the release from the mirror.
pub open spec fn chroot_invocation(
    codename: Seq<char>,
    cache_file: Seq<char>,
    temp_dir: Seq<char>,
) -> InvocationView {
    InvocationView {
        program: "sbuild-createchroot"@,
        args: seq![
            "--chroot-mode=unshare"@,
            "--make-sbuild-tarball"@,
            cache_file,
            codename,
            temp_dir,
            mirror(),
        ],
        working_dir: None,
        elevated: false,
    }
}

/// Tells whether packages can be built for `codename`.
pub fn is_supported_codename(codename: &String) -> (supported: bool)
    ensures
        supported == (codename@ == supported_codename()),
{
    let bookworm = owned("bookworm");
    *codename == bookworm
}

/// One setup argument for each step, in the order of the steps.
pub fn make_setup_flags(steps: &Vec<String>) -> (flags: Vec<String>)
    ensures
        lines(flags@) == setup_flags(lines(steps@)),
{
    let mut flags: Vec<String> = Vec::new();
    let mut i: usize = 0;
    while i < steps.len()
        invariant
            i <= steps.len(),
            flags.len() == i,
            forall|j: int| 0 <= j < i ==> flags[j]@ == setup_flag(#[trigger] steps[j]@),
        decreases steps.len() - i,
    {
        flags.push(concat2("--chroot-setup-commands=", steps[i].as_str()));
        i = i + 1;
    }
    assert(lines(flags@) =~= setup_flags(lines(steps@)));
    flags
}

fn make_lint_flags(run_lintian: Option<bool>) -> (flags: Vec<String>)
    ensures
        lines(flags@) == lint_flags(run_lintian),
{
    let mut flags: Vec<String> = Vec::new();
    match run_lintian {
        Some(true) => {
            push_line(&mut flags, owned("--run-lintian"));
            push_line(&mut flags, owned("--lintian-opt=--suppress-tags"));
            push_line(&mut flags, owned("--lintian-opt=bad-distribution-in-changes-file"));
            push_line(&mut flags, owned("--lintian-opts=-i"));
            push_line(&mut flags, owned("--lintian-opts=--I"));
        },
        _ => {
            push_line(&mut flags, owned("--no-run-lintian"));
        },
    }
    flags
}

/// Assembles the build.
pub fn make_build_invocation(config: &PkgConfig, build_files_dir: &str, cache_file: &str) -> (call:
    Invocation)
    ensures
        call@ == build_invocation(config@, build_files_dir@, cache_file@),
{
    let mut args = no_lines();
    push_line(&mut args, owned("-d"));
    push_line(&mut args, config.build_env.codename.clone());
    push_line(&mut args, owned("-A"));
    push_line(&mut args, owned("-s"));
    push_line(&mut args, owned("--source-only-changes"));
    push_line(&mut args, owned("-c"));
    push_line(&mut args, owned(cache_file));
    push_line(&mut args, owned("-v"));
    push_line(&mut args, owned("--chroot-mode=unshare"));
    let mut steps = package_build_deps(&config.package_type);
    let ghost toolchain = lines(steps@);
    push_line(&mut steps, owned("apt full-upgrade -y"));
    push_line(&mut steps, owned("apt autoremove -y"));
    assert(lines(steps@) =~= toolchain + maintenance_steps());
    push_lines(&mut args, make_setup_flags(&steps));
    push_lines(&mut args, make_lint_flags(config.build_env.run_lintian));
    assert(lines(args@) =~= build_args(config@, cache_file@));
    Invocation {
        program: owned("sbuild"),
        args,
        working_dir: Some(owned(build_files_dir)),
        elevated: false,
    }
}

fn make_extra_repository_args(config: &PkgConfig) -> (args: Vec<String>)
    ensures
        lines(args@) == extra_repository_args(config@),
{
    let mut args = no_lines();
    match config.package_type.language_env() {
        Some(LanguageEnv::Dotnet(_)) => {
            push_line(
                &mut args,
                concat3(
                    "--extra-repo=deb https://packages.microsoft.com/debian/12/prod ",
                    config.build_env.codename.as_str(),
                    " main",
                ),
            );
            push_line(&mut args, owned("--do-not-verify-signatures"));
        },
        _ => {},
    }
    assert(lines(args@) =~= extra_repository_args(config@));
    args
}

/// Assembles the install test of the package at `deb_file`.
pub fn make_install_test_invocation(config: &PkgConfig, deb_dir: &str, deb_file: &str) -> (call:
    Invocation)
    ensures
        call@ == install_test_invocation(config@, deb_dir@, deb_file@),
{
    let mut args = no_lines();
    push_line(&mut args, owned("-S"));
    push_line(&mut args, owned("piuparts"));
    push_line(&mut args, owned("-d"));
    push_line(&mut args, config.build_env.codename.clone());
    push_line(&mut args, owned("-m"));
    push_line(&mut args, owned("http://deb.debian.org/debian"));
    push_line(&mut args, owned("--bindmount=/dev"));
    push_line(&mut args, owned("--keyring=/usr/share/keyrings/debian-archive-keyring.gpg"));
    push_lines(&mut args, make_extra_repository_args(config));
    push_line(&mut args, owned(deb_file));
    assert(lines(args@) =~= install_test_args(config@, deb_file@));
    Invocation { program: owned("sudo"), args, working_dir: Some(owned(deb_dir)), elevated: true }
}

/// Assembles the creation of the test image at `image_path`.
pub fn make_image_invocation(codename: &str, image_path: &str) -> (call: Invocation)
    ensures
        call@ == image_invocation(codename@, image_path@),
{
    let mut args = no_lines();
    push_line(&mut args, owned("-S"));
    push_line(&mut args, owned("autopkgtest-build-qemu"));
    push_line(&mut args, owned(codename));
    push_line(&mut args, owned(image_path));
    assert(lines(args@) =~= image_invocation(codename@, image_path@).args);
    Invocation { program: owned("sudo"), args, working_dir: None, elevated: true }
}

/// Assembles the regression test of the upload described by
/// `changes_file`, in the image at `image_path`.
pub fn make_regression_test_invocation(
    config: &PkgConfig,
    deb_dir: &str,
    changes_file: &str,
    image_path: &str,
) -> (call: Invocation)
    ensures
        call@ == regression_test_invocation(config@, deb_dir@, changes_file@, image_path@),
{
    let mut args = no_lines();
    push_line(&mut args, owned(changes_file));
    push_line(&mut args, owned("--no-built-binaries"));
    let steps = package_test_deps(&config.package_type);
    push_lines(&mut args, make_setup_flags(&steps));
    push_line(&mut args, owned("--"));
    push_line(&mut args, owned("qemu"));
    push_line(&mut args, owned(image_path));
    assert(lines(args@) =~= regression_test_args(config@, changes_file@, image_path@));
    Invocation {
        program: owned("autopkgtest"),
        args,
        working_dir: Some(owned(deb_dir)),
        elevated: false,
    }
}

/// Assembles the creation of the chroot at `cache_file`, with `temp_dir`
/// as its scratch directory.
pub fn make_chroot_invocation(codename: &str, cache_file: &str, temp_dir: &str) -> (call:
    Invocation)
    ensures
        call@ == chroot_invocation(codename@, cache_file@, temp_dir@),
{
    let mut args = no_lines();
    push_line(&mut args, owned("--chroot-mode=unshare"));
    push_line(&mut args, owned("--make-sbuild-tarball"));
    push_line(&mut args, owned(cache_file));
    push_line(&mut args, owned(codename));
    push_line(&mut args, owned(temp_dir));
    push_line(&mut args, owned("http://deb.debian.org/debian"));
    assert(lines(args@) =~= chroot_invocation(codename@, cache_file@, temp_dir@).args);
    Invocation { program: owned("sbuild-createchroot"), args, working_dir: None, elevated: false }
}

} // verus!
