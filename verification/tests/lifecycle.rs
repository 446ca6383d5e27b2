use debian_bridge_core::app::{App, BuildRequest, Creation, Removal, RunRequest};
use debian_bridge_core::catalog::FeaturesList;
use debian_bridge_core::config::{Config, Icon, Program};
use debian_bridge_core::container::{
    generate_build_spec, generate_directives, generate_run_args, PackageMetadata,
};
use debian_bridge_core::desktop::DesktopEntry;
use debian_bridge_core::error::{AppError, GatewayError};
use debian_bridge_core::feature::Feature;

fn app_on(window_manager: bool, sound_daemon: bool) -> App {
    App::new(
        "debian_bridge",
        "bridge",
        "/cache",
        &Config::new(),
        FeaturesList::new(window_manager, sound_daemon),
    )
}

fn pkg(name: &str) -> PackageMetadata {
    PackageMetadata::new(name, &Some("An editor".to_string()), &Some("libc6".to_string()))
}

fn install(app: &mut App, name: &str, settings: &Vec<Feature>, icon: &Option<Icon>) {
    let creation = app.create("pkg.deb", settings, icon, &None, &None).unwrap();
    let request = app.create_extracted(creation, Ok(pkg(name))).unwrap();
    app.create_built(request, Ok(())).unwrap();
}

#[test]
fn new_app_starts_from_the_given_registry() {
    let mut config = Config::new();
    config.push(&Program::new("a", "/a.deb", &vec![], &None, &None, &None)).unwrap();
    let app = App::new("debian_bridge", "bridge", "/cache", &config, FeaturesList::new(true, true));
    assert_eq!(app.list(), vec!["a"]);
    assert_eq!(app.config(), &config);
    assert_eq!(app.save(), config);
    assert_eq!(app.features(), &FeaturesList::new(true, true));
    assert_eq!(app.features, FeaturesList::new(true, true));
}

#[test]
fn create_with_an_unavailable_feature_fails_at_once() {
    let app = app_on(true, false);
    let res = app.create("pkg.deb", &vec![Feature::Sound], &None, &None, &None);
    assert_eq!(res, Err(AppError::UnsupportedFeature(Feature::Sound)));
    let res = app.create("pkg.deb", &vec![Feature::Display, Feature::Sound], &None, &None, &None);
    assert_eq!(res, Err(AppError::UnsupportedFeature(Feature::Sound)));
    assert!(app.list().is_empty());
}

#[test]
fn request_that_the_host_cannot_serve_is_refused_at_the_second_step_too() {
    let app = app_on(false, true);
    let creation = Creation {
        path: "pkg.deb".to_string(),
        settings: vec![Feature::Sound, Feature::Display],
        icon: None,
        command: None,
        deps: None,
    };
    assert_eq!(
        app.create_extracted(creation, Err("unreadable".to_string())),
        Err(AppError::UnsupportedFeature(Feature::Display))
    );
}

#[test]
fn create_keeps_the_request() {
    let app = app_on(true, false);
    let icon = Some(Icon::new("/i.png"));
    let res = app.create(
        "pkg.deb",
        &vec![Feature::Display],
        &icon,
        &Some("run-it".to_string()),
        &Some("libfoo".to_string()),
    );
    assert_eq!(
        res,
        Ok(Creation {
            path: "pkg.deb".to_string(),
            settings: vec![Feature::Display],
            icon,
            command: Some("run-it".to_string()),
            deps: Some("libfoo".to_string()),
        })
    );
}

#[test]
fn create_then_create_again_then_remove() {
    let mut app = app_on(true, false);
    let settings = vec![Feature::Display];

    let creation = app.create("pkg.deb", &settings, &None, &None, &None).unwrap();
    let request = app.create_extracted(creation, Ok(pkg("gimp"))).unwrap();
    assert_eq!(app.create_built(request, Ok(())), Ok(None));
    assert_eq!(app.list(), vec!["gimp"]);
    let saved = app.save();
    assert_eq!(saved.programs.len(), 1);
    assert_eq!(saved.programs[0].get_name_short(), "gimp");
    assert_eq!(saved.programs[0].settings, vec![Feature::Display]);
    assert_eq!(saved.programs[0].path, "pkg.deb");
    assert_eq!(saved.programs[0].command, "gimp");

    let creation = app.create("pkg.deb", &settings, &None, &None, &None).unwrap();
    assert_eq!(
        app.create_extracted(creation, Ok(pkg("gimp"))),
        Err(AppError::DuplicateProgram("gimp".to_string()))
    );
    assert_eq!(app.list(), vec!["gimp"]);

    let removal = app.remove("gimp").unwrap();
    assert_eq!(removal.container, "bridge_gimp");
    assert_eq!(app.remove_deleted(removal, Ok(())), Ok(None));
    assert!(app.list().is_empty());
    assert!(app.save().programs.is_empty());
}

#[test]
fn build_request_says_what_to_build_and_where() {
    let app = app_on(true, true);
    let settings = vec![Feature::Sound, Feature::Display];
    let creation = app
        .create("/dl/pkg.deb", &settings, &None, &Some("gimp -n".to_string()), &Some("libfoo".to_string()))
        .unwrap();
    let request = app.create_extracted(creation, Ok(pkg("gimp"))).unwrap();
    let program = Program::new(
        "gimp",
        "/dl/pkg.deb",
        &settings,
        &None,
        &Some("gimp -n".to_string()),
        &Some("libfoo".to_string()),
    );
    let described = PackageMetadata::new("gimp", &None, &Some("libfoo".to_string()));
    assert_eq!(
        request,
        BuildRequest {
            program,
            comment: "An editor".to_string(),
            image: "bridge_gimp".to_string(),
            context: "/cache".to_string(),
            artifact: "/cache/tmp.deb".to_string(),
            build_file: "/cache/Dockerfile".to_string(),
            spec: generate_build_spec(&described, &settings, "gimp -n").unwrap(),
        }
    );
    assert_eq!(
        request.spec.render(),
        "FROM debian:stable-slim\n\
         COPY tmp.deb /data/gimp.deb\n\
         RUN apt-get update && apt-get install -y /data/gimp.deb libfoo\n\
         CMD gimp -n\n\
         VOLUME /tmp/.X11-unix\n\
         ENV DISPLAY=:0\n\
         VOLUME /dev/snd\n"
    );
}

#[test]
fn package_without_description_gets_the_default_comment() {
    let app = app_on(true, true);
    let creation = app.create("pkg.deb", &vec![], &None, &None, &None).unwrap();
    let request = app
        .create_extracted(creation, Ok(PackageMetadata::new("gimp", &None, &None)))
        .unwrap();
    assert_eq!(request.comment, "Application");
}

#[test]
fn unreadable_package_fails_the_creation() {
    let app = app_on(true, true);
    let creation = app.create("pkg.deb", &vec![], &None, &None, &None).unwrap();
    assert_eq!(
        app.create_extracted(creation, Err("not an archive".to_string())),
        Err(AppError::PackageExtractionFailed("not an archive".to_string()))
    );
}

#[test]
fn package_without_a_name_fails_the_creation() {
    let app = app_on(true, true);
    let creation = app.create("pkg.deb", &vec![], &None, &None, &None).unwrap();
    assert_eq!(
        app.create_extracted(creation, Ok(PackageMetadata::new("", &None, &None))),
        Err(AppError::InvalidPackageMetadata)
    );
}

#[test]
fn failed_build_registers_nothing() {
    let mut app = app_on(true, true);
    let creation = app.create("pkg.deb", &vec![], &None, &None, &None).unwrap();
    let request = app.create_extracted(creation, Ok(pkg("gimp"))).unwrap();
    assert_eq!(
        app.create_built(request, Err(GatewayError::Other("exit 1".to_string()))),
        Err(AppError::BuildFailed("exit 1".to_string()))
    );
    assert!(app.list().is_empty());
    let creation = app.create("pkg.deb", &vec![], &None, &None, &None).unwrap();
    let request = app.create_extracted(creation, Ok(pkg("gimp"))).unwrap();
    assert_eq!(
        app.create_built(request, Err(GatewayError::NotFound)),
        Err(AppError::BuildFailed("container or image not found".to_string()))
    );
    assert!(app.list().is_empty());
}

fn hand_made(name: &str, settings: Vec<Feature>) -> BuildRequest {
    let program = Program::new(name, "pkg.deb", &settings, &None, &None, &None);
    BuildRequest {
        program,
        comment: "Application".to_string(),
        image: format!("bridge_{}", name),
        context: "/cache".to_string(),
        artifact: "/cache/tmp.deb".to_string(),
        build_file: "/cache/Dockerfile".to_string(),
        spec: generate_build_spec(&PackageMetadata::new("x", &None, &None), &settings, "x").unwrap(),
    }
}

#[test]
fn hand_made_request_for_an_unavailable_feature_is_not_registered() {
    let mut app = app_on(true, false);
    let request = hand_made("gimp", vec![Feature::Display, Feature::Sound]);
    assert_eq!(
        app.create_built(request, Ok(())),
        Err(AppError::UnsupportedFeature(Feature::Sound))
    );
    assert!(app.list().is_empty());
}

#[test]
fn hand_made_request_without_a_name_is_not_registered() {
    let mut app = app_on(true, true);
    let request = hand_made("", vec![Feature::Display]);
    assert_eq!(app.create_built(request, Ok(())), Err(AppError::InvalidPackageMetadata));
    assert!(app.list().is_empty());
    let request = hand_made("", vec![Feature::Sound]);
    let mut bare = app_on(false, false);
    assert_eq!(
        bare.create_built(request, Ok(())),
        Err(AppError::UnsupportedFeature(Feature::Sound))
    );
    assert!(bare.list().is_empty());
}

#[test]
fn hand_made_request_that_fits_is_registered() {
    let mut app = app_on(true, false);
    let request = hand_made("gimp", vec![Feature::Display]);
    assert_eq!(app.create_built(request, Ok(())), Ok(None));
    assert_eq!(app.list(), vec!["gimp"]);
}

#[test]
fn failed_build_is_reported_whatever_the_request() {
    let mut app = app_on(false, false);
    let request = hand_made("", vec![Feature::Sound]);
    assert_eq!(
        app.create_built(request, Err(GatewayError::Other("exit 1".to_string()))),
        Err(AppError::BuildFailed("exit 1".to_string()))
    );
    assert!(app.list().is_empty());
}

#[test]
fn name_registered_during_the_build_is_a_duplicate() {
    let mut app = app_on(true, true);
    let creation = app.create("pkg.deb", &vec![], &None, &None, &None).unwrap();
    let first = app.create_extracted(creation, Ok(pkg("gimp"))).unwrap();
    let creation = app.create("other.deb", &vec![], &None, &None, &None).unwrap();
    let second = app.create_extracted(creation, Ok(pkg("gimp"))).unwrap();
    assert_eq!(app.create_built(first, Ok(())), Ok(None));
    assert_eq!(
        app.create_built(second, Ok(())),
        Err(AppError::DuplicateProgram("gimp".to_string()))
    );
    assert_eq!(app.list(), vec!["gimp"]);
    assert_eq!(app.save().programs[0].path, "pkg.deb");
}

#[test]
fn program_with_an_icon_gets_a_launcher_entry() {
    let mut app = app_on(true, true);
    let icon = Some(Icon::new("/icons/gimp.png"));
    let creation = app.create("pkg.deb", &vec![], &icon, &None, &None).unwrap();
    let request = app.create_extracted(creation, Ok(pkg("gimp"))).unwrap();
    let entry = app.create_built(request, Ok(())).unwrap();
    assert_eq!(
        entry,
        Some(DesktopEntry {
            name: "gimp".to_string(),
            comment: "An editor".to_string(),
            command: "debian_bridge run gimp".to_string(),
            icon: "/icons/gimp.png".to_string(),
        })
    );
    let removal = app.remove("gimp").unwrap();
    assert_eq!(app.remove_deleted(removal, Ok(())), Ok(Some("gimp.desktop".to_string())));
}

#[test]
fn run_of_an_unknown_program_is_not_found() {
    let app = app_on(true, true);
    assert_eq!(app.run("nonexistent"), Err(AppError::ProgramNotFound("nonexistent".to_string())));
    let mut app = app_on(true, true);
    install(&mut app, "gimp", &vec![], &None);
    assert_eq!(app.run("Gimp"), Err(AppError::ProgramNotFound("Gimp".to_string())));
}

#[test]
fn run_derives_the_arguments_from_the_record() {
    let mut app = app_on(true, true);
    let settings = vec![Feature::HomePersistent, Feature::Display];
    install(&mut app, "gimp", &settings, &None);
    let request = app.run("gimp").unwrap();
    let described = PackageMetadata::new("gimp", &None, &None);
    assert_eq!(
        request,
        RunRequest {
            container: "bridge_gimp".to_string(),
            directives: generate_directives("gimp", &settings),
            args: generate_run_args(&described, &settings).unwrap(),
        }
    );
    assert_eq!(
        request.args,
        vec![
            "--volume",
            "/tmp/.X11-unix:/tmp/.X11-unix",
            "--env",
            "DISPLAY=:0",
            "--volume",
            "gimp_home:/root",
        ]
    );
    assert_eq!(app.run("gimp").unwrap(), request);
    assert_eq!(app.list(), vec!["gimp"]);
}

#[test]
fn run_arguments_are_those_of_the_build() {
    let mut app = app_on(true, true);
    let settings = vec![Feature::Time, Feature::Sound];
    let creation = app.create("pkg.deb", &settings, &None, &None, &None).unwrap();
    let build = app.create_extracted(creation, Ok(pkg("gimp"))).unwrap();
    let portion = build.spec.run_portion();
    app.create_built(build, Ok(())).unwrap();
    assert_eq!(app.run("gimp").unwrap().args, portion);
}

#[test]
fn run_of_a_record_without_a_name_is_invalid() {
    let mut config = Config::new();
    config.push(&Program::new("", "/a.deb", &vec![], &None, &None, &None)).unwrap();
    let app = App::new("debian_bridge", "bridge", "/cache", &config, FeaturesList::new(true, true));
    assert_eq!(app.run(""), Err(AppError::InvalidPackageMetadata));
}

#[test]
fn runtime_failure_fails_the_run() {
    let app = app_on(true, true);
    assert_eq!(app.run_finished(Ok(())), Ok(()));
    assert_eq!(
        app.run_finished(Err(GatewayError::Other("exit 2".to_string()))),
        Err(AppError::RuntimeExecutionFailed("exit 2".to_string()))
    );
    assert_eq!(
        app.run_finished(Err(GatewayError::NotFound)),
        Err(AppError::RuntimeExecutionFailed("container or image not found".to_string()))
    );
}

#[test]
fn remove_of_an_unknown_program_is_not_found() {
    let mut app = app_on(true, true);
    install(&mut app, "gimp", &vec![], &None);
    assert_eq!(app.remove("vlc"), Err(AppError::ProgramNotFound("vlc".to_string())));
    assert_eq!(app.list(), vec!["gimp"]);
}

#[test]
fn remove_succeeds_when_the_runtime_finds_nothing() {
    let mut app = app_on(true, true);
    install(&mut app, "gimp", &vec![], &None);
    install(&mut app, "vlc", &vec![], &None);
    let removal = app.remove("gimp").unwrap();
    assert_eq!(app.remove_deleted(removal, Err(GatewayError::NotFound)), Ok(None));
    assert_eq!(app.list(), vec!["vlc"]);
}

#[test]
fn remove_fails_on_any_other_runtime_failure() {
    let mut app = app_on(true, true);
    install(&mut app, "gimp", &vec![], &None);
    let removal = app.remove("gimp").unwrap();
    assert_eq!(
        app.remove_deleted(removal, Err(GatewayError::Other("status 500".to_string()))),
        Err(AppError::RuntimeExecutionFailed("status 500".to_string()))
    );
    assert_eq!(app.list(), vec!["gimp"]);
}

#[test]
fn remove_of_a_record_that_left_meanwhile_is_not_found() {
    let mut app = app_on(true, true);
    install(&mut app, "gimp", &vec![], &None);
    let first = app.remove("gimp").unwrap();
    let second = Removal { program: first.program.clone(), container: first.container.clone() };
    assert_eq!(app.remove_deleted(first, Ok(())), Ok(None));
    assert_eq!(
        app.remove_deleted(second, Ok(())),
        Err(AppError::ProgramNotFound("gimp".to_string()))
    );
}

#[test]
fn gateway_error_messages() {
    assert_eq!(GatewayError::NotFound.message(), "container or image not found");
    assert_eq!(GatewayError::Other("x".to_string()).message(), "x");
}

#[test]
fn main_items_are_at_the_crate_root() {
    let config = debian_bridge_core::Config::new();
    let features = debian_bridge_core::FeaturesList::new(true, true);
    let app = debian_bridge_core::App::new("debian_bridge", "bridge", "/cache", &config, features);
    let icon = debian_bridge_core::Icon::new("/i.png");
    let program = debian_bridge_core::Program::new(
        "gimp",
        "/g.deb",
        &vec![debian_bridge_core::Feature::Time],
        &Some(icon),
        &None,
        &None,
    );
    assert_eq!(program.get_name("bridge"), "bridge_gimp");
    assert_eq!(
        app.run("gimp"),
        Err(debian_bridge_core::AppError::ProgramNotFound("gimp".to_string()))
    );
    assert_eq!(debian_bridge_core::GatewayError::NotFound.message(), "container or image not found");
}
