use pkg_builder::machine::{Phase, Progress, Reply, Request, Step};
use pkg_builder::packager::BackendBuildEnv;
use pkg_builder::pkg_config::{
    DefaultPackageTypeConfig, DotnetConfig, GoConfig, LanguageEnv, PackageType, PkgConfig,
};
use pkg_builder::process::{FileTask, Invocation, PipelineError, ProcessOutcome, Stage};
use pkg_builder::sbuild::Sbuild;
use std::path::Path;
use tempfile::{tempdir, Builder, NamedTempFile, TempDir};

/// A stand-in for the machine that operations run on: it keeps the files
/// and directories it made, answers from the real file system, and only
/// pretends to run commands.
struct Host {
    files: Vec<NamedTempFile>,
    dirs: Vec<TempDir>,
    spawned: Vec<Invocation>,
    outcomes: Vec<ProcessOutcome>,
    removed: Vec<String>,
}

impl Host {
    fn new() -> Host {
        Host { files: vec![], dirs: vec![], spawned: vec![], outcomes: vec![], removed: vec![] }
    }

    fn create_file(&mut self, path: &str) -> bool {
        let path = Path::new(path);
        let name = path.file_name().unwrap().to_str().unwrap();
        match Builder::new().prefix(name).rand_bytes(0).tempfile_in(path.parent().unwrap()) {
            Ok(file) => {
                self.files.push(file);
                true
            }
            Err(_) => false,
        }
    }

    fn create_dir_all(&mut self, path: &Path) -> bool {
        if path.is_dir() {
            return true;
        }
        let parent = match path.parent() {
            Some(parent) => parent,
            None => return false,
        };
        if !self.create_dir_all(parent) {
            return false;
        }
        let name = path.file_name().unwrap().to_str().unwrap();
        match Builder::new().prefix(name).rand_bytes(0).tempdir_in(parent) {
            Ok(dir) => {
                self.dirs.push(dir);
                true
            }
            Err(_) => false,
        }
    }

    fn remove_file(&mut self, path: &str) -> bool {
        self.removed.push(path.to_string());
        match self.files.iter().position(|f| f.path() == Path::new(path)) {
            Some(at) => self.files.remove(at).close().is_ok(),
            None => false,
        }
    }

    fn answer(&mut self, request: Request) -> Reply {
        match request {
            Request::Canonicalize { dir } => Reply::Located {
                path: Path::new(&dir).canonicalize().ok().map(|p| p.to_str().unwrap().to_string()),
            },
            Request::CreateTempDir { name } => {
                match Builder::new().prefix(&name).rand_bytes(0).tempdir() {
                    Ok(dir) => {
                        let path = dir.path().to_str().unwrap().to_string();
                        self.dirs.push(dir);
                        Reply::Located { path: Some(path) }
                    }
                    Err(_) => Reply::Located { path: None },
                }
            }
            Request::Probe { path } => Reply::Present { present: Path::new(&path).exists() },
            Request::RemoveFile { path } => Reply::Performed { ok: self.remove_file(&path) },
            Request::RemoveDir { .. } => Reply::Performed { ok: false },
            Request::CreateDirAll { path } => {
                Reply::Performed { ok: self.create_dir_all(Path::new(&path)) }
            }
            Request::Spawn { invocation } => {
                let outcome = if self.outcomes.is_empty() {
                    ProcessOutcome::Success
                } else {
                    self.outcomes.remove(0)
                };
                if invocation.program == "sbuild-createchroot" && outcome == ProcessOutcome::Success
                {
                    // the tool writes the tarball that it was told to make
                    let tarball = invocation.args[2].clone();
                    self.create_file(&tarball);
                }
                self.spawned.push(invocation);
                Reply::Exited { outcome }
            }
            Request::Finished { .. } => unreachable!(),
        }
    }

    fn perform(&mut self, env: &Sbuild, first: Step) -> Result<(), PipelineError> {
        let mut step = first;
        loop {
            if let Request::Finished { result } = step.request {
                assert_eq!(step.progress.phase, Phase::Finished);
                return result;
            }
            let reply = self.answer(step.request);
            step = env.advance(step.progress, reply);
        }
    }
}

fn config(codename: &str, cache_dir: &str) -> PkgConfig {
    let mut config = PkgConfig::default();
    config.build_env.codename = codename.to_string();
    config.build_env.arch = "amd64".to_string();
    config.build_env.sbuild_cache_dir = Some(cache_dir.to_string());
    config.package_fields.package_name = "hello-world".to_string();
    config.package_fields.version_number = "1.0.0".to_string();
    config.package_fields.revision_number = "1".to_string();
    config
}

fn go() -> LanguageEnv {
    LanguageEnv::Go(GoConfig {
        go_binary_url: "https://go.dev/dl/go1.22.0.linux-amd64.tar.gz".to_string(),
        go_binary_checksum: "f6c8a87aa03b92c4b0bf3d558e28ea03006eb29db78917daec5cfb6ec1046265"
            .to_string(),
    })
}

fn strings(items: &[&str]) -> Vec<String> {
    items.iter().map(|s| s.to_string()).collect()
}

fn spawned(step: &Step) -> &Invocation {
    match &step.request {
        Request::Spawn { invocation } => invocation,
        other => panic!("expected a command, got {other:?}"),
    }
}

fn exited(outcome: ProcessOutcome) -> Reply {
    Reply::Exited { outcome }
}

fn at(phase: Phase) -> Progress {
    Progress {
        phase,
        cache_dir: "/var/cache/sbuild".to_string(),
        cache_file: "/var/cache/sbuild/bookworm-amd64.tar.gz".to_string(),
        temp_dir: "/tmp/temp_7".to_string(),
    }
}

#[test]
fn test_clean_sbuild_env_when_file_does_not_exist() {
    let mut pkg_config = PkgConfig::default();
    let build_files_dir = tempdir().unwrap().path().to_str().unwrap().to_string();
    pkg_config.build_env.codename = "bookworm".to_string();
    pkg_config.build_env.arch = "amd64".to_string();
    let sbuild_cache_dir = tempdir().unwrap().path().to_str().unwrap().to_string();
    pkg_config.build_env.sbuild_cache_dir = Some(sbuild_cache_dir);
    let build_env = Sbuild::new(pkg_config, build_files_dir);
    let mut host = Host::new();
    let result = host.perform(&build_env, build_env.clean());
    assert!(result.is_ok());
    let cache_file = build_env.get_cache_file(None).unwrap();
    let cache_file_path = Path::new(&cache_file);
    assert!(!cache_file_path.exists());
    assert!(host.removed.is_empty());
}

#[test]
fn test_clean_sbuild_env() {
    let mut pkg_config = PkgConfig::default();
    let build_files_dir = tempdir().unwrap().path().to_str().unwrap().to_string();
    pkg_config.build_env.codename = "bookworm".to_string();
    pkg_config.build_env.arch = "amd64".to_string();
    let sbuild_cache = tempdir().unwrap();
    let sbuild_cache_dir = sbuild_cache.path().to_str().unwrap().to_string();
    pkg_config.build_env.sbuild_cache_dir = Some(sbuild_cache_dir.clone());
    let build_env = Sbuild::new(pkg_config, build_files_dir);
    let cache_file = build_env.get_cache_file(None).unwrap();
    let cache_file_path = Path::new(&cache_file);

    let mut host = Host::new();
    assert!(host.create_file(&cache_file), "File needs to be created manually before testing deletion.");
    assert!(Path::new(&sbuild_cache_dir).exists());
    assert!(cache_file_path.exists(), "File should exist before testing deletion.");

    let result = host.perform(&build_env, build_env.clean());
    assert!(result.is_ok());
    assert!(!cache_file_path.exists())
}

#[test]
fn test_create_sbuild_env() {
    let mut pkg_config = PkgConfig::default();
    pkg_config.build_env.codename = "bookworm".to_string();
    pkg_config.build_env.arch = "amd64".to_string();
    let sbuild_cache_dir = tempdir().unwrap().path().to_str().unwrap().to_string();
    pkg_config.build_env.sbuild_cache_dir = Some(sbuild_cache_dir);

    let build_files_dir = tempdir().unwrap().path().to_str().unwrap().to_string();
    let build_env = Sbuild::new(pkg_config, build_files_dir);
    let mut host = Host::new();
    host.perform(&build_env, build_env.clean()).expect("Could not clean previous env.");
    let cache_file = build_env.get_cache_file(None).unwrap();
    let cache_file_path = Path::new(&cache_file);
    assert!(!cache_file_path.exists());
    let result = host.perform(&build_env, build_env.create());
    assert!(result.is_ok());
    assert!(cache_file_path.exists())
}

#[test]
fn clean_twice_is_clean_once() {
    let cache = tempdir().unwrap();
    let env = Sbuild::new(config("bookworm", cache.path().to_str().unwrap()), "/tmp/w/src".into());
    let cache_file = env.get_cache_file(None).unwrap();
    let mut host = Host::new();
    assert!(host.create_file(&cache_file));
    assert_eq!(host.perform(&env, env.clean()), Ok(()));
    assert_eq!(host.perform(&env, env.clean()), Ok(()));
    assert_eq!(host.removed, vec![cache_file.clone()]);
    assert!(!Path::new(&cache_file).exists());
}

#[test]
fn clean_leaves_the_neighbours_alone() {
    let cache = tempdir().unwrap();
    let dir = cache.path().to_str().unwrap();
    let env = Sbuild::new(config("bookworm", dir), "/tmp/w/src".into());
    let cache_file = env.get_cache_file(None).unwrap();
    let other_arch = format!("{dir}/bookworm-arm64.tar.gz");
    let image = format!("{dir}/autopkgtest-bookworm.img");
    let mut host = Host::new();
    assert!(host.create_file(&cache_file));
    assert!(host.create_file(&other_arch));
    assert!(host.create_file(&image));

    assert_eq!(host.perform(&env, env.clean()), Ok(()));

    assert_eq!(host.removed, vec![format!("{dir}/bookworm-amd64.tar.gz")]);
    assert!(!Path::new(&cache_file).exists());
    assert!(Path::new(&other_arch).exists());
    assert!(Path::new(&image).exists());
    assert!(host.spawned.is_empty());
}

#[test]
fn clean_asks_to_look_then_to_remove() {
    let env = Sbuild::new(config("bookworm", "/var/cache/sbuild"), "/tmp/w/src".into());
    let step = env.clean();
    assert_eq!(step.progress.phase, Phase::CleanProbe);
    assert_eq!(
        step.request,
        Request::Probe { path: "/var/cache/sbuild/bookworm-amd64.tar.gz".to_string() }
    );
    let step = env.advance(step.progress, Reply::Present { present: true });
    assert_eq!(step.progress.phase, Phase::CleanRemove);
    assert_eq!(
        step.request,
        Request::RemoveFile { path: "/var/cache/sbuild/bookworm-amd64.tar.gz".to_string() }
    );
    let step = env.advance(step.progress, Reply::Performed { ok: true });
    assert_eq!(step.request, Request::Finished { result: Ok(()) });
}

#[test]
fn clean_reports_a_file_that_would_not_go() {
    let env = Sbuild::new(config("bookworm", "/var/cache/sbuild"), "/tmp/w/src".into());
    let step = env.advance(at(Phase::CleanRemove), Reply::Performed { ok: false });
    assert_eq!(
        step.request,
        Request::Finished { result: Err(PipelineError::FileSystem(FileTask::RemoveCacheFile)) }
    );
}

#[test]
fn clean_resolves_a_relative_cache_directory_first() {
    let env = Sbuild::new(config("bookworm", "cache/sbuild"), "/tmp/w/src".into());
    let step = env.clean();
    assert_eq!(step.progress.phase, Phase::CleanResolve);
    assert_eq!(step.request, Request::Canonicalize { dir: "cache/sbuild".to_string() });

    let found = env.advance(
        step.progress.clone(),
        Reply::Located { path: Some("/home/u/cache/sbuild".to_string()) },
    );
    assert_eq!(
        found.request,
        Request::Probe { path: "/home/u/cache/sbuild/bookworm-amd64.tar.gz".to_string() }
    );

    let missing = env.advance(step.progress, Reply::Located { path: None });
    assert_eq!(missing.request, Request::Finished { result: Err(PipelineError::PathResolution) });
}

#[test]
fn clean_of_a_missing_relative_directory_fails_on_the_real_file_system() {
    let env = Sbuild::new(
        config("bookworm", "no-such-directory-for-the-chroot-cache"),
        "/tmp/w/src".into(),
    );
    let mut host = Host::new();
    assert_eq!(host.perform(&env, env.clean()), Err(PipelineError::PathResolution));
}

#[test]
fn create_names_its_scratch_directory_by_the_nonce() {
    let env = Sbuild::new(config("bookworm", "/var/cache/sbuild"), "/tmp/w/src".into());
    let step = env.create_from("/var/cache/sbuild".to_string(), 31337);
    assert_eq!(step.progress.phase, Phase::CreateTemp);
    assert_eq!(step.request, Request::CreateTempDir { name: "temp_31337".to_string() });
}

#[test]
fn create_draws_a_scratch_directory_name() {
    let env = Sbuild::new(config("bookworm", "/var/cache/sbuild"), "/tmp/w/src".into());
    let step = env.create();
    match step.request {
        Request::CreateTempDir { name } => {
            let number = name.strip_prefix("temp_").expect("temp_ comes first");
            assert_eq!(number.parse::<u32>().unwrap().to_string(), number);
        }
        other => panic!("expected a scratch directory, got {other:?}"),
    }
}

#[test]
fn create_runs_the_chroot_tool_with_its_six_arguments() {
    let env = Sbuild::new(config("bookworm", "/var/cache/sbuild"), "/tmp/w/src".into());
    let step = env.create_from("/var/cache/sbuild".to_string(), 7);
    let step = env.advance(step.progress, Reply::Located { path: Some("/tmp/temp_7".to_string()) });
    assert_eq!(step.progress.phase, Phase::CreateCacheDir);
    assert_eq!(step.request, Request::CreateDirAll { path: "/var/cache/sbuild".to_string() });
    let step = env.advance(step.progress, Reply::Performed { ok: true });
    assert_eq!(step.progress.phase, Phase::CreateChroot);
    assert_eq!(
        *spawned(&step),
        Invocation {
            program: "sbuild-createchroot".to_string(),
            args: strings(&[
                "--chroot-mode=unshare",
                "--make-sbuild-tarball",
                "/var/cache/sbuild/bookworm-amd64.tar.gz",
                "bookworm",
                "/tmp/temp_7",
                "http://deb.debian.org/debian",
            ]),
            working_dir: None,
            elevated: false,
        }
    );
    let done = env.advance(step.progress, exited(ProcessOutcome::Success));
    assert_eq!(done.request, Request::Finished { result: Ok(()) });
    assert_eq!(done.progress.phase, Phase::Finished);
}

#[test]
fn create_fails_when_the_chroot_tool_reports_failure() {
    let env = Sbuild::new(config("bookworm", "/var/cache/sbuild"), "/tmp/w/src".into());
    let step = env.advance(at(Phase::CreateChroot), exited(ProcessOutcome::NonZeroExit));
    assert_eq!(
        step.request,
        Request::Finished { result: Err(PipelineError::NonZeroExit(Stage::Create)) }
    );
    assert_eq!(PipelineError::NonZeroExit(Stage::Create).stage().unwrap().tag(), "create");
}

#[test]
fn create_fails_when_the_chroot_tool_does_not_start() {
    let env = Sbuild::new(config("bookworm", "/var/cache/sbuild"), "/tmp/w/src".into());
    for permission_denied in [false, true] {
        let step = env.advance(
            at(Phase::CreateChroot),
            exited(ProcessOutcome::SpawnFailed { permission_denied }),
        );
        assert_eq!(
            step.request,
            Request::Finished { result: Err(PipelineError::ProcessSpawn(Stage::Create)) }
        );
    }
    let step = env.advance(at(Phase::CreateChroot), exited(ProcessOutcome::IoFailed));
    assert_eq!(
        step.request,
        Request::Finished { result: Err(PipelineError::ProcessIo(Stage::Create)) }
    );
}

#[test]
fn create_that_succeeds_leaves_the_chroot_and_one_that_fails_does_not() {
    let cache = tempdir().unwrap();
    let env = Sbuild::new(config("bookworm", cache.path().to_str().unwrap()), "/tmp/w/src".into());
    let cache_file = env.get_cache_file(None).unwrap();

    for outcome in [
        ProcessOutcome::NonZeroExit,
        ProcessOutcome::SpawnFailed { permission_denied: false },
        ProcessOutcome::IoFailed,
    ] {
        let mut host = Host::new();
        host.outcomes = vec![outcome];
        let result = host.perform(&env, env.create());
        assert!(result.is_err());
        assert_eq!(result.unwrap_err().stage(), Some(Stage::Create));
        assert_eq!(host.spawned.len(), 1);
        assert!(!Path::new(&cache_file).exists());
    }

    let mut host = Host::new();
    assert_eq!(host.perform(&env, env.create()), Ok(()));
    assert_eq!(host.spawned.len(), 1);
    assert_eq!(host.spawned[0].args[2], cache_file);
    assert!(Path::new(&cache_file).exists());
}

#[test]
fn create_fails_when_a_directory_cannot_be_made() {
    let env = Sbuild::new(config("bookworm", "/var/cache/sbuild"), "/tmp/w/src".into());
    let step = env.advance(at(Phase::CreateTemp), Reply::Located { path: None });
    assert_eq!(
        step.request,
        Request::Finished { result: Err(PipelineError::FileSystem(FileTask::CreateTempDir)) }
    );
    let step = env.advance(at(Phase::CreateCacheDir), Reply::Performed { ok: false });
    assert_eq!(
        step.request,
        Request::Finished { result: Err(PipelineError::FileSystem(FileTask::CreateCacheDir)) }
    );
}

#[test]
fn create_for_another_release_runs_nothing() {
    let cache = tempdir().unwrap();
    for codename in ["bullseye", "debian 12", "jammy jellyfish", "", "Bookworm"] {
        let env =
            Sbuild::new(config(codename, cache.path().to_str().unwrap()), "/tmp/w/src".into());
        let mut host = Host::new();
        assert_eq!(host.perform(&env, env.create()), Err(PipelineError::Configuration));
        assert!(host.spawned.is_empty());
        assert!(!Path::new(&env.get_cache_file(None).unwrap()).exists());
    }
}

#[test]
fn create_resolves_a_relative_cache_directory_after_the_scratch_directory() {
    let env = Sbuild::new(config("bookworm", "cache"), "/tmp/w/src".into());
    let step = env.create_from("cache".to_string(), 1);
    let step = env.advance(step.progress, Reply::Located { path: Some("/tmp/temp_1".to_string()) });
    assert_eq!(step.progress.phase, Phase::CreateResolve);
    assert_eq!(step.request, Request::Canonicalize { dir: "cache".to_string() });
    let missing = env.advance(step.progress.clone(), Reply::Located { path: None });
    assert_eq!(missing.request, Request::Finished { result: Err(PipelineError::PathResolution) });
    let found =
        env.advance(step.progress, Reply::Located { path: Some("/work/cache".to_string()) });
    assert_eq!(found.request, Request::CreateDirAll { path: "/work/cache".to_string() });
    assert_eq!(found.progress.cache_file, "/work/cache/bookworm-amd64.tar.gz");
    assert_eq!(found.progress.temp_dir, "/tmp/temp_1");
}

#[test]
fn go_package_without_tests_is_built_and_nothing_more() {
    let mut config = config("bookworm", "/var/cache/sbuild");
    config.build_env.run_lintian = Some(false);
    config.build_env.run_piuparts = Some(false);
    config.build_env.run_autopkgtest = Some(false);
    config.package_type = PackageType::Default(DefaultPackageTypeConfig { language_env: go() });
    let env = Sbuild::new(config, "/tmp/work/hello-world-1.0.0".to_string());

    let step = env.build();
    assert_eq!(step.progress.phase, Phase::Build);
    let build = spawned(&step);
    assert_eq!(build.program, "sbuild");
    assert_eq!(build.working_dir, Some("/tmp/work/hello-world-1.0.0".to_string()));
    assert!(!build.elevated);
    let expected = strings(&[
        "-d",
        "bookworm",
        "-A",
        "-s",
        "--source-only-changes",
        "-c",
        "/var/cache/sbuild/bookworm-amd64.tar.gz",
        "-v",
        "--chroot-mode=unshare",
        "--chroot-setup-commands=apt install -y curl",
        "--chroot-setup-commands=cd /tmp && curl -o go.tar.gz -L https://go.dev/dl/go1.22.0.linux-amd64.tar.gz",
        "--chroot-setup-commands=cd /tmp && echo \"f6c8a87aa03b92c4b0bf3d558e28ea03006eb29db78917daec5cfb6ec1046265 go.tar.gz\" >> hash_file.txt && cat hash_file.txt",
        "--chroot-setup-commands=cd /tmp && sha256sum -c hash_file.txt",
        "--chroot-setup-commands=cd /tmp && rm -rf /usr/local/go && mkdir /usr/local/go && tar -C /usr/local -xzf go.tar.gz",
        "--chroot-setup-commands=ln -s /usr/local/go/bin/go /usr/bin/go",
        "--chroot-setup-commands=go version",
        "--chroot-setup-commands=go install -buildmode=shared std",
        "--chroot-setup-commands=chmod -R a+rwx /usr/local/go/pkg",
        "--chroot-setup-commands=apt remove -y curl",
        "--chroot-setup-commands=apt full-upgrade -y",
        "--chroot-setup-commands=apt autoremove -y",
        "--no-run-lintian",
    ]);
    assert_eq!(build.args, expected);
    assert!(build.args.contains(&"--no-run-lintian".to_string()));
    assert!(!build.args.contains(&"--run-lintian".to_string()));

    let setup: Vec<&String> =
        build.args.iter().filter(|a| a.starts_with("--chroot-setup-commands=")).collect();
    let go_steps = env.get_build_deps_not_in_debian();
    assert_eq!(go_steps.len(), 10);
    assert_eq!(setup.len(), 12);
    for (flag, step) in setup.iter().zip(go_steps.iter()) {
        assert_eq!(**flag, format!("--chroot-setup-commands={step}"));
    }

    let done = env.advance(step.progress, exited(ProcessOutcome::Success));
    assert_eq!(done.request, Request::Finished { result: Ok(()) });
    assert_eq!(done.progress.phase, Phase::Finished);
}

#[test]
fn lintian_runs_only_where_asked_for() {
    for (run_lintian, on) in [(None, false), (Some(false), false), (Some(true), true)] {
        let mut config = config("bookworm", "/var/cache/sbuild");
        config.build_env.run_lintian = run_lintian;
        let env = Sbuild::new(config, "/tmp/w/src".to_string());
        let step = env.package();
        let args = &spawned(&step).args;
        let tail = if on {
            strings(&[
                "--chroot-setup-commands=apt full-upgrade -y",
                "--chroot-setup-commands=apt autoremove -y",
                "--run-lintian",
                "--lintian-opt=--suppress-tags",
                "--lintian-opt=bad-distribution-in-changes-file",
                "--lintian-opts=-i",
                "--lintian-opts=--I",
            ])
        } else {
            strings(&[
                "--chroot-setup-commands=apt full-upgrade -y",
                "--chroot-setup-commands=apt autoremove -y",
                "--no-run-lintian",
            ])
        };
        assert_eq!(args[9..], tail[..]);
    }
}

#[test]
fn package_for_another_release_asks_for_nothing() {
    for codename in ["bullseye", "debian 12", "trixie", ""] {
        let env = Sbuild::new(config(codename, "/var/cache/sbuild"), "/tmp/w/src".into());
        let step = env.package();
        assert_eq!(step.request, Request::Finished { result: Err(PipelineError::Configuration) });
        let mut host = Host::new();
        assert_eq!(host.perform(&env, env.build()), Err(PipelineError::Configuration));
        assert!(host.spawned.is_empty());
    }
}

#[test]
fn package_resolves_a_relative_cache_directory_first() {
    let env = Sbuild::new(config("bookworm", "cache"), "/tmp/w/src".into());
    let step = env.package();
    assert_eq!(step.progress.phase, Phase::BuildResolve);
    assert_eq!(step.request, Request::Canonicalize { dir: "cache".to_string() });
    let missing = env.advance(step.progress.clone(), Reply::Located { path: None });
    assert_eq!(missing.request, Request::Finished { result: Err(PipelineError::PathResolution) });
    let found = env.advance(step.progress, Reply::Located { path: Some("/w/cache".to_string()) });
    assert_eq!(spawned(&found).args[6], "/w/cache/bookworm-amd64.tar.gz");
}

#[test]
fn failed_build_stops_the_pipeline() {
    let mut config = config("bookworm", "/var/cache/sbuild");
    config.build_env.run_piuparts = Some(true);
    config.build_env.run_autopkgtest = Some(true);
    let env = Sbuild::new(config, "/tmp/work/src".to_string());
    let mut host = Host::new();
    host.outcomes = vec![ProcessOutcome::NonZeroExit];
    assert_eq!(
        host.perform(&env, env.package()),
        Err(PipelineError::NonZeroExit(Stage::Build))
    );
    assert_eq!(host.spawned.len(), 1);
    assert_eq!(PipelineError::NonZeroExit(Stage::Build).stage().unwrap().tag(), "build");
}

#[test]
fn install_test_runs_piuparts_as_root_on_the_built_package() {
    let mut config = config("bookworm", "/var/cache/sbuild");
    config.build_env.run_piuparts = Some(true);
    let env = Sbuild::new(config, "/tmp/work/hello-world-1.0.0".to_string());
    let step = env.advance(at(Phase::Build), exited(ProcessOutcome::Success));
    assert_eq!(step.progress.phase, Phase::InstallTest);
    assert_eq!(
        *spawned(&step),
        Invocation {
            program: "sudo".to_string(),
            args: strings(&[
                "-S",
                "piuparts",
                "-d",
                "bookworm",
                "-m",
                "http://deb.debian.org/debian",
                "--bindmount=/dev",
                "--keyring=/usr/share/keyrings/debian-archive-keyring.gpg",
                "/tmp/work/hello-world_1.0.0-1_amd64.deb",
            ]),
            working_dir: Some("/tmp/work".to_string()),
            elevated: true,
        }
    );
    let done = env.advance(step.progress, exited(ProcessOutcome::Success));
    assert_eq!(done.request, Request::Finished { result: Ok(()) });
}

#[test]
fn install_test_of_a_dotnet_package_trusts_the_vendor_repository() {
    let mut config = config("bookworm", "/var/cache/sbuild");
    config.build_env.run_piuparts = Some(true);
    config.package_type = PackageType::Default(DefaultPackageTypeConfig {
        language_env: LanguageEnv::Dotnet(DotnetConfig { dotnet_version: "8.0".to_string() }),
    });
    let env = Sbuild::new(config, "/tmp/work/hello-world-1.0.0".to_string());
    let step = env.advance(at(Phase::Build), exited(ProcessOutcome::Success));
    assert_eq!(
        spawned(&step).args,
        strings(&[
            "-S",
            "piuparts",
            "-d",
            "bookworm",
            "-m",
            "http://deb.debian.org/debian",
            "--bindmount=/dev",
            "--keyring=/usr/share/keyrings/debian-archive-keyring.gpg",
            "--extra-repo=deb https://packages.microsoft.com/debian/12/prod bookworm main",
            "--do-not-verify-signatures",
            "/tmp/work/hello-world_1.0.0-1_amd64.deb",
        ])
    );
}

#[test]
fn failed_install_test_is_tagged_and_stops_the_pipeline() {
    let mut config = config("bookworm", "/var/cache/sbuild");
    config.build_env.run_piuparts = Some(true);
    config.build_env.run_autopkgtest = Some(true);
    let env = Sbuild::new(config, "/tmp/work/src".to_string());
    let mut host = Host::new();
    host.outcomes = vec![ProcessOutcome::Success, ProcessOutcome::NonZeroExit];
    let result = host.perform(&env, env.package());
    assert_eq!(result, Err(PipelineError::NonZeroExit(Stage::InstallTest)));
    assert_eq!(result.unwrap_err().stage().unwrap().tag(), "install-test");
    assert_eq!(host.spawned.len(), 2);

    let refused = env.advance(
        at(Phase::InstallTest),
        exited(ProcessOutcome::SpawnFailed { permission_denied: true }),
    );
    assert_eq!(
        refused.request,
        Request::Finished { result: Err(PipelineError::PrivilegeDenied(Stage::InstallTest)) }
    );
}

#[test]
fn regression_test_looks_for_the_image_first() {
    let mut config = config("bookworm", "/var/cache/sbuild");
    config.build_env.run_autopkgtest = Some(true);
    let env = Sbuild::new(config, "/tmp/work/src".to_string());
    let step = env.advance(at(Phase::Build), exited(ProcessOutcome::Success));
    assert_eq!(step.progress.phase, Phase::ImageProbe);
    assert_eq!(
        step.request,
        Request::Probe { path: "/var/cache/sbuild/autopkgtest-bookworm.img".to_string() }
    );
}

#[test]
fn present_image_is_not_created_again() {
    let mut config = config("bookworm", "/var/cache/sbuild");
    config.build_env.run_autopkgtest = Some(true);
    config.package_type = PackageType::Default(DefaultPackageTypeConfig {
        language_env: LanguageEnv::Dotnet(DotnetConfig { dotnet_version: "8.0".to_string() }),
    });
    let env = Sbuild::new(config, "/tmp/work/hello-world-1.0.0".to_string());
    let step = env.advance(at(Phase::ImageProbe), Reply::Present { present: true });
    assert_eq!(step.progress.phase, Phase::RegressionTest);
    assert_eq!(
        *spawned(&step),
        Invocation {
            program: "autopkgtest".to_string(),
            args: strings(&[
                "/tmp/work/hello-world_1.0.0-1_amd64.changes",
                "--no-built-binaries",
                "--chroot-setup-commands=apt install -y wget",
                "--chroot-setup-commands=cd /tmp && wget https://packages.microsoft.com/config/debian/12/packages-microsoft-prod.deb -O packages-microsoft-prod.deb",
                "--chroot-setup-commands=cd /tmp && dpkg -i packages-microsoft-prod.deb ",
                "--chroot-setup-commands=apt-get update -y",
                "--chroot-setup-commands=apt remove -y wget",
                "--",
                "qemu",
                "/var/cache/sbuild/autopkgtest-bookworm.img",
            ]),
            working_dir: Some("/tmp/work".to_string()),
            elevated: false,
        }
    );
}

#[test]
fn missing_image_is_created_as_root_before_the_test() {
    let mut config = config("bookworm", "/var/cache/sbuild");
    config.build_env.run_autopkgtest = Some(true);
    let env = Sbuild::new(config, "/tmp/work/hello-world-1.0.0".to_string());
    let step = env.advance(at(Phase::ImageProbe), Reply::Present { present: false });
    assert_eq!(step.progress.phase, Phase::ImageBuild);
    assert_eq!(
        *spawned(&step),
        Invocation {
            program: "sudo".to_string(),
            args: strings(&[
                "-S",
                "autopkgtest-build-qemu",
                "bookworm",
                "/var/cache/sbuild/autopkgtest-bookworm.img",
            ]),
            working_dir: None,
            elevated: true,
        }
    );
    let step = env.advance(step.progress, exited(ProcessOutcome::Success));
    assert_eq!(step.progress.phase, Phase::RegressionTest);
    assert_eq!(
        spawned(&step).args,
        strings(&[
            "/tmp/work/hello-world_1.0.0-1_amd64.changes",
            "--no-built-binaries",
            "--",
            "qemu",
            "/var/cache/sbuild/autopkgtest-bookworm.img",
        ])
    );
    let done = env.advance(step.progress, exited(ProcessOutcome::Success));
    assert_eq!(done.request, Request::Finished { result: Ok(()) });
}

#[test]
fn image_is_probed_on_the_real_file_system() {
    let cache = tempdir().unwrap();
    let dir = cache.path().to_str().unwrap();
    let mut config = config("bookworm", dir);
    config.build_env.run_autopkgtest = Some(true);
    let env = Sbuild::new(config, "/tmp/work/src".to_string());

    let mut host = Host::new();
    assert_eq!(host.perform(&env, env.package()), Ok(()));
    let programs: Vec<&str> = host.spawned.iter().map(|i| i.program.as_str()).collect();
    assert_eq!(programs, ["sbuild", "sudo", "autopkgtest"]);
    assert!(host.spawned[1].elevated);

    let mut host = Host::new();
    assert!(host.create_file(&format!("{dir}/autopkgtest-bookworm.img")));
    assert_eq!(host.perform(&env, env.package()), Ok(()));
    let programs: Vec<&str> = host.spawned.iter().map(|i| i.program.as_str()).collect();
    assert_eq!(programs, ["sbuild", "autopkgtest"]);
    assert!(host.spawned.iter().all(|i| !i.elevated));
}

#[test]
fn failed_image_creation_and_failed_test_are_regression_test_failures() {
    let mut config = config("bookworm", "/var/cache/sbuild");
    config.build_env.run_autopkgtest = Some(true);
    let env = Sbuild::new(config, "/tmp/work/src".to_string());
    let step = env.advance(at(Phase::ImageBuild), exited(ProcessOutcome::NonZeroExit));
    assert_eq!(
        step.request,
        Request::Finished { result: Err(PipelineError::NonZeroExit(Stage::RegressionTest)) }
    );
    let step = env.advance(
        at(Phase::ImageBuild),
        exited(ProcessOutcome::SpawnFailed { permission_denied: true }),
    );
    assert_eq!(
        step.request,
        Request::Finished { result: Err(PipelineError::PrivilegeDenied(Stage::RegressionTest)) }
    );
    let step = env.advance(at(Phase::RegressionTest), exited(ProcessOutcome::IoFailed));
    assert_eq!(
        step.request,
        Request::Finished { result: Err(PipelineError::ProcessIo(Stage::RegressionTest)) }
    );
    let step = env.advance(at(Phase::RegressionTest), exited(ProcessOutcome::NonZeroExit));
    assert_eq!(
        step.request,
        Request::Finished { result: Err(PipelineError::NonZeroExit(Stage::RegressionTest)) }
    );
    assert_eq!(Stage::RegressionTest.tag(), "regression-test");
}

#[test]
fn all_stages_run_in_order_when_all_are_asked_for() {
    let cache = tempdir().unwrap();
    let mut config = config("bookworm", cache.path().to_str().unwrap());
    config.build_env.run_lintian = Some(true);
    config.build_env.run_piuparts = Some(true);
    config.build_env.run_autopkgtest = Some(true);
    let env = Sbuild::new(config, "/tmp/work/src".to_string());
    let mut host = Host::new();
    assert_eq!(host.perform(&env, env.package()), Ok(()));
    let commands: Vec<(&str, &str)> =
        host.spawned.iter().map(|i| (i.program.as_str(), i.args[1].as_str())).collect();
    assert_eq!(
        commands,
        [
            ("sbuild", "bookworm"),
            ("sudo", "piuparts"),
            ("sudo", "autopkgtest-build-qemu"),
            ("autopkgtest", "--no-built-binaries"),
        ]
    );
}

#[test]
fn tests_need_a_directory_beside_the_source() {
    let mut config = config("bookworm", "/var/cache/sbuild");
    config.build_env.run_piuparts = Some(true);
    config.build_env.run_autopkgtest = Some(true);
    let env = Sbuild::new(config, "/".to_string());
    let step = env.advance(at(Phase::Build), exited(ProcessOutcome::Success));
    assert_eq!(step.request, Request::Finished { result: Err(PipelineError::SourceDirectory) });
    let step = env.advance(at(Phase::InstallTest), exited(ProcessOutcome::Success));
    assert_eq!(step.request, Request::Finished { result: Err(PipelineError::SourceDirectory) });
    let step = env.advance(at(Phase::ImageProbe), Reply::Present { present: true });
    assert_eq!(step.request, Request::Finished { result: Err(PipelineError::SourceDirectory) });
}

#[test]
fn reply_that_answers_another_request_ends_the_operation() {
    let env = Sbuild::new(config("bookworm", "/var/cache/sbuild"), "/tmp/w/src".into());
    let protocol = Request::Finished { result: Err(PipelineError::Protocol) };
    for phase in [
        Phase::CleanResolve,
        Phase::CleanRemove,
        Phase::CreateTemp,
        Phase::CreateResolve,
        Phase::CreateCacheDir,
        Phase::CreateChroot,
        Phase::BuildResolve,
        Phase::Build,
        Phase::InstallTest,
        Phase::ImageBuild,
        Phase::RegressionTest,
        Phase::Launch { stage: Stage::Create, elevated: false },
        Phase::Finished,
    ] {
        let step = env.advance(at(phase), Reply::Present { present: true });
        assert_eq!(step.request, protocol);
        assert_eq!(step.progress.phase, Phase::Finished);
    }
    let launch = Phase::Launch { stage: Stage::Create, elevated: false };
    for phase in [Phase::CleanProbe, Phase::ImageProbe, launch, Phase::Finished] {
        let step = env.advance(at(phase), exited(ProcessOutcome::Success));
        assert_eq!(step.request, protocol);
    }
}
