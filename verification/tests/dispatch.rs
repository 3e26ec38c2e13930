use pkg_builder::packager::{Dispatch, Distribution, DistributionPackager, Operation};
use pkg_builder::pkg_config::PkgConfig;
use pkg_builder::process::PipelineError;

fn packager(codename: &str) -> DistributionPackager {
    let mut config = PkgConfig::default();
    config.build_env.codename = codename.to_string();
    DistributionPackager::new(config, "/home/user/hello-world".to_string())
}

#[test]
fn packager_keeps_what_it_was_made_with() {
    let packager = packager("bookworm");
    assert_eq!(packager.config().build_env.codename, "bookworm");
    assert_eq!(packager.config_root(), "/home/user/hello-world");
}

#[test]
fn bookworm_goes_by_codename_and_by_number() {
    for codename in ["bookworm", "debian 12"] {
        let packager = packager(codename);
        assert_eq!(
            packager.package(),
            Ok(Dispatch { distribution: Distribution::Bookworm, operation: Operation::Package })
        );
        assert_eq!(
            packager.clean_build_env(),
            Ok(Dispatch {
                distribution: Distribution::Bookworm,
                operation: Operation::CleanBuildEnv,
            })
        );
        assert_eq!(
            packager.create_build_env(),
            Ok(Dispatch {
                distribution: Distribution::Bookworm,
                operation: Operation::CreateBuildEnv,
            })
        );
    }
}

#[test]
fn other_releases_are_turned_down() {
    for codename in ["jammy jellyfish", "ubuntu 22.04", "bullseye", "Bookworm", "debian12", ""] {
        let packager = packager(codename);
        assert_eq!(packager.package(), Err(PipelineError::Configuration));
        assert_eq!(packager.clean_build_env(), Err(PipelineError::Configuration));
        assert_eq!(packager.create_build_env(), Err(PipelineError::Configuration));
    }
}
