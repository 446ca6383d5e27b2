//! The lifecycle of a program: create, run, remove and list. Each operation
//! is cut at the points where the outside world has to act: a step decides
//! what is to be done, the caller does it, and the next step takes the outcome.

use vstd::prelude::*;
use crate::catalog::{first_unavailable, FeaturesList};
use crate::config::{
    contains_name, copy_features, copy_icon, copy_text, found, icon_of, inserted, join_path,
    joined, names, removed, text_of, unique_names, Config, Icon, Program, ProgramView,
};
use crate::container::{
    build_spec, directive_views, directives, generate_build_spec, generate_directives, run_args,
    run_args_from, BuildSpec, BuildSpecView, Directive, DirectiveView, PackageMetadata,
    PackageMetadataView, BUILD_FILE, STAGED_ARTIFACT,
};
use crate::desktop::{
    entry_file_name, file_name_of, invocation, launch_invocation, DesktopEntry,
    DesktopEntryView, DEFAULT_COMMENT,
};
use crate::error::{
    outcome_view, AppError, AppErrorView, GatewayError, GatewayErrorView,
};
use crate::feature::Feature;
use crate::text::views;

verus! {

/// A request to create a program whose capabilities the host can provide.
/// The next thing to do is to read the metadata of the package at `path`.
#[derive(Debug, PartialEq, Eq)]
pub struct Creation {
    pub path: String,
    pub settings: Vec<Feature>,
    pub icon: Option<Icon>,
    pub command: Option<String>,
    pub deps: Option<String>,
}

/// A [`Creation`] as a mathematical value.
pub struct CreationView {
    pub path: Seq<char>,
    pub settings: Seq<Feature>,
    pub icon: Option<Seq<char>>,
    pub command: Option<Seq<char>>,
    pub deps: Option<Seq<char>>,
}

impl View for Creation {
    type V = CreationView;

    open spec fn view(&self) -> CreationView {
        CreationView {
            path: self.path@,
            settings: self.settings@,
            icon: icon_of(self.icon),
            command: text_of(self.command),
            deps: text_of(self.deps),
        }
    }
}

/// What the runtime is to build: the image `image`, in the build context
/// `context`, into which the package is to be copied as `artifact` and the
/// text of `spec` written as `build_file`. Both files are to be removed
/// again whether the build succeeds or not.
#[derive(Debug, PartialEq, Eq)]
pub struct BuildRequest {
    pub program: Program,
    pub comment: String,
    pub image: String,
    pub context: String,
    pub artifact: String,
    pub build_file: String,
    pub spec: BuildSpec,
}

/// A [`BuildRequest`] as a mathematical value.
pub struct BuildRequestView {
    pub program: ProgramView,
    pub comment: Seq<char>,
    pub image: Seq<char>,
    pub context: Seq<char>,
    pub artifact: Seq<char>,
    pub build_file: Seq<char>,
    pub spec: BuildSpecView,
}

impl View for BuildRequest {
    type V = BuildRequestView;

    open spec fn view(&self) -> BuildRequestView {
        BuildRequestView {
            program: self.program@,
            comment: self.comment@,
            image: self.image@,
            context: self.context@,
            artifact: self.artifact@,
            build_file: self.build_file@,
            spec: self.spec@,
        }
    }
}

/// What the runtime is to start: the container `container` with the
/// bridges `directives`, which `args` holds once more as runtime arguments.
#[derive(Debug, PartialEq, Eq)]
pub struct RunRequest {
    pub container: String,
    pub directives: Vec<Directive>,
    pub args: Vec<String>,
}

/// A [`RunRequest`] as a mathematical value.
pub struct RunRequestView {
    pub container: Seq<char>,
    pub directives: Seq<DirectiveView>,
    pub args: Seq<Seq<char>>,
}

impl View for RunRequest {
    type V = RunRequestView;

    open spec fn view(&self) -> RunRequestView {
        RunRequestView {
            container: self.container@,
            directives: directive_views(self.directives@),
            args: views(self.args@),
        }
    }
}

/// What the runtime is to delete: the container and image `container` of
/// the program `program`.
#[derive(Debug, PartialEq, Eq)]
pub struct Removal {
    pub program: Program,
    pub container: String,
}

/// A [`Removal`] as a mathematical value.
pub struct RemovalView {
    pub program: ProgramView,
    pub container: Seq<char>,
}

impl View for Removal {
    type V = RemovalView;

    open spec fn view(&self) -> RemovalView {
        RemovalView { program: self.program@, container: self.container@ }
    }
}

/// The state of the lifecycle as a mathematical value.
pub struct AppView {
    pub package_name: Seq<char>,
    pub prefix: Seq<char>,
    pub cache_path: Seq<char>,
    pub config: Seq<ProgramView>,
    pub features: Map<Feature, bool>,
}

/// The identifier of the program `name` at the runtime, under `prefix`.
pub open spec fn runtime_name(prefix: Seq<char>, name: Seq<char>) -> Seq<char> {
    prefix + "_"@ + name
}

/// The record of the program `name` that the request `c` asks for.
pub open spec fn record_of(name: Seq<char>, c: CreationView) -> ProgramView {
    ProgramView {
        name,
        path: c.path,
        settings: c.settings,
        icon: c.icon,
        command: match c.command {
            Some(command) => command,
            None => name,
        },
        deps: c.deps,
    }
}

/// What the record `p` tells of its package: the name and the further
/// packages to install. It is from this that the program's container is
/// specified, when it is created and whenever it is run.
pub open spec fn metadata_of(p: ProgramView) -> PackageMetadataView {
    PackageMetadataView { package: p.name, description: None, dependencies: p.deps }
}

/// The outcome of the first step of `create`: the request, or the first
/// requested capability that the host cannot provide.
pub open spec fn admitted(features: Map<Feature, bool>, c: CreationView) -> Result<
    CreationView,
    AppErrorView,
> {
    match first_unavailable(features, c.settings) {
        Some(f) => Err(AppErrorView::UnsupportedFeature(f)),
        None => Ok(c),
    }
}

/// The outcome of the second step of `create`, on what the extractor made of
/// the package: the build to ask of the runtime. A request that the host
/// cannot serve is refused here as in the first step, and the name is
/// checked against the registry before anything is built.
pub open spec fn planned_build(
    app: AppView,
    c: CreationView,
    extracted: Result<PackageMetadataView, Seq<char>>,
) -> Result<BuildRequestView, AppErrorView> {
    match (admitted(app.features, c), extracted) {
        (Err(e), _) => Err(e),
        (Ok(_), Err(cause)) => Err(AppErrorView::PackageExtractionFailed(cause)),
        (Ok(_), Ok(meta)) => {
            let program = record_of(meta.package, c);
            if contains_name(app.config, meta.package) && meta.package.len() > 0 {
                Err(AppErrorView::DuplicateProgram(meta.package))
            } else {
                match build_spec(metadata_of(program), program.settings, program.command) {
                    Err(e) => Err(e),
                    Ok(spec) => Ok(
                        BuildRequestView {
                            program,
                            comment: match meta.description {
                                Some(d) => d,
                                None => DEFAULT_COMMENT@,
                            },
                            image: runtime_name(app.prefix, meta.package),
                            context: app.cache_path,
                            artifact: joined(app.cache_path, STAGED_ARTIFACT@),
                            build_file: joined(app.cache_path, BUILD_FILE@),
                            spec,
                        },
                    ),
                }
            }
        },
    }
}

/// The launcher entry of the program of `request`, if it has an icon.
pub open spec fn entry_of(package_name: Seq<char>, request: BuildRequestView) -> Option<
    DesktopEntryView,
> {
    match request.program.icon {
        Some(icon) => Some(
            DesktopEntryView {
                name: request.program.name,
                comment: request.comment,
                command: launch_invocation(package_name, request.program.name),
                icon,
            },
        ),
        None => None,
    }
}

/// The outcome of the last step of `create`, on what the runtime answered to
/// the build: the registry with the new record, and the launcher entry to
/// write. A failed build leaves the registry as it was. So does a request
/// that the earlier steps would not have made: one for a capability that the
/// host cannot provide, or for a program without a name.
pub open spec fn built(
    app: AppView,
    request: BuildRequestView,
    outcome: Result<(), GatewayErrorView>,
) -> Result<(Seq<ProgramView>, Option<DesktopEntryView>), AppErrorView> {
    match outcome {
        Err(e) => Err(AppErrorView::BuildFailed(e.message())),
        Ok(()) => match first_unavailable(app.features, request.program.settings) {
            Some(f) => Err(AppErrorView::UnsupportedFeature(f)),
            None => if request.program.name.len() == 0 {
                Err(AppErrorView::InvalidPackageMetadata)
            } else {
                match inserted(app.config, request.program) {
                    Err(e) => Err(e),
                    Ok(after) => Ok((after, entry_of(app.package_name, request))),
                }
            },
        },
    }
}

/// The outcome of the first step of `run`: what to start, with the arguments
/// that follow from the stored record.
pub open spec fn planned_run(app: AppView, name: Seq<char>) -> Result<
    RunRequestView,
    AppErrorView,
> {
    match found(app.config, name) {
        None => Err(AppErrorView::ProgramNotFound(name)),
        Some((p, _)) => match run_args(metadata_of(p), p.settings) {
            Err(e) => Err(e),
            Ok(args) => Ok(
                RunRequestView {
                    container: runtime_name(app.prefix, p.name),
                    directives: directives(p.name, p.settings),
                    args,
                },
            ),
        },
    }
}

/// The outcome of `run`, on what the runtime answered: every failure of the
/// runtime is a failed execution.
pub open spec fn ran(outcome: Result<(), GatewayErrorView>) -> Result<(), AppErrorView> {
    match outcome {
        Ok(()) => Ok(()),
        Err(e) => Err(AppErrorView::RuntimeExecutionFailed(e.message())),
    }
}

/// The outcome of the first step of `remove`: what to delete at the runtime.
pub open spec fn planned_removal(app: AppView, name: Seq<char>) -> Result<
    RemovalView,
    AppErrorView,
> {
    match found(app.config, name) {
        None => Err(AppErrorView::ProgramNotFound(name)),
        Some((p, _)) => Ok(RemovalView { program: p, container: runtime_name(app.prefix, p.name) }),
    }
}

/// The outcome of the last step of `remove`, on what the runtime answered to
/// the deletion: the registry without the record, and the name of the
/// launcher file to delete. That the runtime did not find the container
/// counts as a deletion; any other failure leaves the registry as it was.
pub open spec fn deleted(
    app: AppView,
    removal: RemovalView,
    outcome: Result<(), GatewayErrorView>,
) -> Result<(Seq<ProgramView>, Option<Seq<char>>), AppErrorView> {
    match outcome {
        Err(GatewayErrorView::Other(cause)) => Err(AppErrorView::RuntimeExecutionFailed(cause)),
        _ => match removed(app.config, removal.program.name) {
            Err(e) => Err(e),
            Ok(after) => Ok(
                (
                    after,
                    match removal.program.icon {
                        Some(_) => Some(entry_file_name(removal.program.name)),
                        None => None,
                    },
                ),
            ),
        },
    }
}

/// What the record `program` tells of its package.
pub fn metadata_of_program(program: &Program) -> (meta: PackageMetadata)
    ensures
        meta@ == metadata_of(program@),
{
    let name = program.get_name_short();
    PackageMetadata::new(name.as_str(), &None, program.deps())
}

/// The lifecycle of the programs of one installation of the bridge: the
/// registry, the capabilities of the host, and the names under which the
/// installation works.
#[derive(Debug)]
pub struct App {
    package_name: String,
    prefix: String,
    cache_path: String,
    config: Config,
    pub features: FeaturesList,
}

impl View for App {
    type V = AppView;

    closed spec fn view(&self) -> AppView {
        AppView {
            package_name: self.package_name@,
            prefix: self.prefix@,
            cache_path: self.cache_path@,
            config: self.config@,
            features: self.features@,
        }
    }
}

impl App {
    /// Whether the registry invariant holds: no two programs share a name.
    pub open spec fn wf(&self) -> bool {
        unique_names(self@.config)
    }

    /// The lifecycle of an installation that is called `package_name`, names
    /// its containers with `prefix`, builds in the directory `cache_path`,
    /// starts from the registry `config` and runs on a host with the
    /// capabilities `features`.
    pub fn new(
        package_name: &str,
        prefix: &str,
        cache_path: &str,
        config: &Config,
        features: FeaturesList,
    ) -> (app: Self)
        ensures
            app@ == (AppView {
                package_name: package_name@,
                prefix: prefix@,
                cache_path: cache_path@,
                config: config@,
                features: features@,
            }),
    {
        App {
            package_name: package_name.to_owned(),
            prefix: prefix.to_owned(),
            cache_path: cache_path.to_owned(),
            config: config.clone(),
            features,
        }
    }

    /// The registry as it stands.
    pub fn config(&self) -> (config: &Config)
        ensures
            config@ == self@.config,
    {
        &self.config
    }

    /// The capabilities of the host.
    pub fn features(&self) -> (features: &FeaturesList)
        ensures
            features@ == self@.features,
    {
        &self.features
    }

    /// The names of the installed programs, in registry order.
    pub fn list(&self) -> (res: Vec<String>)
        ensures
            views(res@) == names(self@.config),
    {
        self.config.list()
    }

    /// The registry as it is to be persisted after an operation.
    pub fn save(&self) -> (config: Config)
        ensures
            config@ == self@.config,
    {
        self.config.clone()
    }

    /// First step of creating a program from the package at `path`: checks
    /// the requested capabilities against the host. Fails with the first one
    /// that the host cannot provide; nothing has been read or built then.
    pub fn create(
        &self,
        path: &str,
        settings: &Vec<Feature>,
        icon: &Option<Icon>,
        cmd: &Option<String>,
        deps: &Option<String>,
    ) -> (res: Result<Creation, AppError>)
        ensures
            match admitted(
                self@.features,
                CreationView {
                    path: path@,
                    settings: settings@,
                    icon: icon_of(*icon),
                    command: text_of(*cmd),
                    deps: text_of(*deps),
                },
            ) {
                Ok(c) => res matches Ok(x) && x@ == c,
                Err(e) => res matches Err(x) && x@ == e,
            },
    {
        match self.features.first_unavailable(settings) {
            Some(feature) => Err(AppError::UnsupportedFeature(feature)),
            None => Ok(
                Creation {
                    path: path.to_owned(),
                    settings: copy_features(settings),
                    icon: copy_icon(icon),
                    command: copy_text(cmd),
                    deps: copy_text(deps),
                },
            ),
        }
    }

    /// Second step of creating a program, on what the extractor made of the
    /// package: makes the record and says what the runtime is to build.
    /// Fails if the package could not be read, has no name, or has the name
    /// of a program that is registered already.
    pub fn create_extracted(
        &self,
        creation: Creation,
        extracted: Result<PackageMetadata, String>,
    ) -> (res: Result<BuildRequest, AppError>)
        ensures
            match planned_build(
                self@,
                creation@,
                match extracted {
                    Ok(meta) => Ok(meta@),
                    Err(cause) => Err(cause@),
                },
            ) {
                Ok(request) => res matches Ok(x) && x@ == request,
                Err(e) => res matches Err(x) && x@ == e,
            },
    {
        match self.features.first_unavailable(&creation.settings) {
            Some(feature) => {
                return Err(AppError::UnsupportedFeature(feature));
            },
            None => {},
        }
        let meta = match extracted {
            Ok(meta) => meta,
            Err(cause) => {
                return Err(AppError::PackageExtractionFailed(cause));
            },
        };
        let name = meta.package.as_str();
        if name.unicode_len() > 0 && self.config.find(name).is_some() {
            return Err(AppError::DuplicateProgram(meta.package.clone()));
        }
        let program = Program::new(
            name,
            creation.path.as_str(),
            &creation.settings,
            &creation.icon,
            &creation.command,
            &creation.deps,
        );
        let described = metadata_of_program(&program);
        let spec = match generate_build_spec(
            &described,
            program.settings(),
            program.command().as_str(),
        ) {
            Ok(spec) => spec,
            Err(e) => {
                return Err(e);
            },
        };
        let comment = match &meta.description {
            Some(d) => d.clone(),
            None => DEFAULT_COMMENT.to_owned(),
        };
        Ok(
            BuildRequest {
                image: program.get_name(self.prefix.as_str()),
                program,
                comment,
                context: self.cache_path.clone(),
                artifact: join_path(self.cache_path.as_str(), STAGED_ARTIFACT),
                build_file: join_path(self.cache_path.as_str(), BUILD_FILE),
                spec,
            },
        )
    }

    /// Last step of creating a program, on what the runtime answered to the
    /// build: registers the program and says which launcher entry is to be
    /// written, if any. A failed build, or a name that has been registered
    /// in the meantime, leaves the registry as it was. So does a request for
    /// a capability that the host cannot provide or for a program without a
    /// name, which no earlier step hands out.
    pub fn create_built(&mut self, request: BuildRequest, outcome: Result<(), GatewayError>) -> (res:
        Result<Option<DesktopEntry>, AppError>)
        ensures
            match built(old(self)@, request@, outcome_view(outcome)) {
                Ok((after, entry)) => {
                    &&& res matches Ok(x)
                    &&& entry_view(x) == entry
                    &&& final(self)@ == (AppView { config: after, ..old(self)@ })
                },
                Err(e) => res matches Err(x) && x@ == e && final(self)@ == old(self)@,
            },
            old(self).wf() ==> final(self).wf(),
    {
        match outcome {
            Err(e) => {
                return Err(AppError::BuildFailed(e.message()));
            },
            Ok(()) => {},
        }
        match self.features.first_unavailable(request.program.settings()) {
            Some(feature) => {
                return Err(AppError::UnsupportedFeature(feature));
            },
            None => {},
        }
        let name = request.program.get_name_short();
        if name.as_str().unicode_len() == 0 {
            return Err(AppError::InvalidPackageMetadata);
        }
        match self.config.push(&request.program) {
            Err(e) => {
                return Err(e);
            },
            Ok(()) => {},
        }
        match request.program.icon() {
            Some(icon) => Ok(
                Some(
                    DesktopEntry {
                        command: invocation(self.package_name.as_str(), name.as_str()),
                        name,
                        comment: request.comment,
                        icon: icon.path.clone(),
                    },
                ),
            ),
            None => Ok(None),
        }
    }

    /// First step of running the program `name`: looks the record up and
    /// derives the runtime arguments from it. Fails if no such program is
    /// registered; the runtime has not been asked anything then.
    pub fn run(&self, name: &str) -> (res: Result<RunRequest, AppError>)
        ensures
            match planned_run(self@, name@) {
                Ok(request) => res matches Ok(x) && x@ == request,
                Err(e) => res matches Err(x) && x@ == e,
            },
    {
        let program = match self.config.find(name) {
            Some((program, _)) => program,
            None => {
                return Err(AppError::ProgramNotFound(name.to_owned()));
            },
        };
        let name = program.get_name_short();
        if name.as_str().unicode_len() == 0 {
            return Err(AppError::InvalidPackageMetadata);
        }
        let directives = generate_directives(name.as_str(), program.settings());
        let args = run_args_from(&directives);
        Ok(RunRequest { container: program.get_name(self.prefix.as_str()), directives, args })
    }

    /// Last step of running a program, on what the runtime answered: every
    /// failure of the runtime is reported as a failed execution.
    pub fn run_finished(&self, outcome: Result<(), GatewayError>) -> (res: Result<(), AppError>)
        ensures
            match ran(outcome_view(outcome)) {
                Ok(()) => res is Ok,
                Err(e) => res matches Err(x) && x@ == e,
            },
    {
        match outcome {
            Ok(()) => Ok(()),
            Err(e) => Err(AppError::RuntimeExecutionFailed(e.message())),
        }
    }

    /// First step of removing the program `name`: looks the record up and
    /// says what the runtime is to delete. Fails if no such program is
    /// registered; nothing has been changed then.
    pub fn remove(&self, name: &str) -> (res: Result<Removal, AppError>)
        ensures
            match planned_removal(self@, name@) {
                Ok(removal) => res matches Ok(x) && x@ == removal,
                Err(e) => res matches Err(x) && x@ == e,
            },
    {
        match self.config.find(name) {
            Some((program, _)) => {
                let container = program.get_name(self.prefix.as_str());
                Ok(Removal { program, container })
            },
            None => Err(AppError::ProgramNotFound(name.to_owned())),
        }
    }

    /// Last step of removing a program, on what the runtime answered to the
    /// deletion: takes the record out of the registry and names the launcher
    /// file to delete, if the program had an icon. That the runtime did not
    /// find the container counts as a deletion. Any other failure of the
    /// runtime leaves the registry as it was.
    pub fn remove_deleted(&mut self, removal: Removal, outcome: Result<(), GatewayError>) -> (res:
        Result<Option<String>, AppError>)
        ensures
            match deleted(old(self)@, removal@, outcome_view(outcome)) {
                Ok((after, file)) => {
                    &&& res matches Ok(x)
                    &&& text_of(x) == file
                    &&& final(self)@ == (AppView { config: after, ..old(self)@ })
                },
                Err(e) => res matches Err(x) && x@ == e && final(self)@ == old(self)@,
            },
            old(self).wf() ==> final(self).wf(),
    {
        match outcome {
            Err(GatewayError::Other(cause)) => {
                return Err(AppError::RuntimeExecutionFailed(cause));
            },
            _ => {},
        }
        match self.config.remove(&removal.program) {
            Err(e) => {
                return Err(e);
            },
            Ok(()) => {},
        }
        match removal.program.icon() {
            Some(_) => {
                let name = removal.program.get_name_short();
                Ok(Some(file_name_of(name.as_str())))
            },
            None => Ok(None),
        }
    }
}

/// The view of an optional launcher entry.
pub open spec fn entry_view(entry: Option<DesktopEntry>) -> Option<DesktopEntryView> {
    match entry {
        Some(e) => Some(e@),
        None => None,
    }
}

} // verus!
