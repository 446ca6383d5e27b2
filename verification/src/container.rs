//! From a package and the capabilities chosen for it to the specification of
//! its container: the lines that build the image and the arguments that start
//! it. Everything here is a function of its arguments alone.

use vstd::prelude::*;
use crate::config::{copy_text, text_of};
use crate::error::{AppError, AppErrorView};
use crate::feature::{all_features, Feature};
use crate::text::{splice, splice3, join_terminated, lemma_views_push, terminated, views};

verus! {

/// The image that every program's image is built on.
pub const BASE_IMAGE: &'static str = "debian:stable-slim";

/// The name under which the package artifact lies in the build context.
pub const STAGED_ARTIFACT: &'static str = "tmp.deb";

/// The name of the build specification in the build context.
pub const BUILD_FILE: &'static str = "Dockerfile";

/// What is known of a package: its name, a description for people, and
/// further packages to install beside it, as free text.
#[derive(Debug, PartialEq, Eq)]
pub struct PackageMetadata {
    pub package: String,
    pub description: Option<String>,
    pub dependencies: Option<String>,
}

/// A [`PackageMetadata`] as a mathematical value.
pub struct PackageMetadataView {
    pub package: Seq<char>,
    pub description: Option<Seq<char>>,
    pub dependencies: Option<Seq<char>>,
}

impl View for PackageMetadata {
    type V = PackageMetadataView;

    open spec fn view(&self) -> PackageMetadataView {
        PackageMetadataView {
            package: self.package@,
            description: text_of(self.description),
            dependencies: text_of(self.dependencies),
        }
    }
}

impl Clone for PackageMetadata {
    fn clone(&self) -> (res: Self)
        ensures
            res@ == self@,
    {
        PackageMetadata {
            package: self.package.clone(),
            description: copy_text(&self.description),
            dependencies: copy_text(&self.dependencies),
        }
    }
}

impl PackageMetadata {
    /// The metadata of the package `package`.
    pub fn new(package: &str, description: &Option<String>, dependencies: &Option<String>) -> (meta:
        Self)
        ensures
            meta@ == (PackageMetadataView {
                package: package@,
                description: text_of(*description),
                dependencies: text_of(*dependencies),
            }),
    {
        PackageMetadata {
            package: package.to_owned(),
            description: copy_text(description),
            dependencies: copy_text(dependencies),
        }
    }
}

/// How a directive bridges the host into the container.
#[derive(Clone, Copy, Debug, PartialEq, Eq, Structural)]
pub enum DirectiveKind {
    /// The host path `source` is visible in the container at `target`.
    Mount,
    /// The host device `source` is usable in the container as `target`.
    Device,
    /// The variable `source` has the value `target` in the container.
    Env,
    /// The volume named `source`, which outlives the container, is mounted
    /// at `target`.
    Volume,
}

/// One bridge between the host and the container.
#[derive(Debug, PartialEq, Eq)]
pub struct Directive {
    pub kind: DirectiveKind,
    pub source: String,
    pub target: String,
}

/// A [`Directive`] as a mathematical value.
pub struct DirectiveView {
    pub kind: DirectiveKind,
    pub source: Seq<char>,
    pub target: Seq<char>,
}

impl View for Directive {
    type V = DirectiveView;

    open spec fn view(&self) -> DirectiveView {
        DirectiveView { kind: self.kind, source: self.source@, target: self.target@ }
    }
}

impl Clone for Directive {
    fn clone(&self) -> (res: Self)
        ensures
            res@ == self@,
    {
        Directive { kind: self.kind, source: self.source.clone(), target: self.target.clone() }
    }
}

/// The views of the directives of `v`, in order.
pub open spec fn directive_views(v: Seq<Directive>) -> Seq<DirectiveView> {
    Seq::new(v.len(), |i: int| v[i]@)
}

impl DirectiveView {
    /// The directive as a line of the build specification.
    pub open spec fn build_line(self) -> Seq<char> {
        match self.kind {
            DirectiveKind::Env => "ENV "@ + self.source + "="@ + self.target,
            _ => "VOLUME "@ + self.target,
        }
    }

    /// The directive as arguments for the runtime: a flag and its value.
    pub open spec fn run_flags(self) -> Seq<Seq<char>> {
        match self.kind {
            DirectiveKind::Mount => seq!["--volume"@, self.source + ":"@ + self.target],
            DirectiveKind::Device => seq!["--device"@, self.source + ":"@ + self.target],
            DirectiveKind::Env => seq!["--env"@, self.source + "="@ + self.target],
            DirectiveKind::Volume => seq!["--volume"@, self.source + ":"@ + self.target],
        }
    }
}

impl Directive {
    /// A directive of the given kind from `source` to `target`.
    pub fn new(kind: DirectiveKind, source: &str, target: &str) -> (d: Self)
        ensures
            d@ == (DirectiveView { kind, source: source@, target: target@ }),
    {
        Directive { kind, source: source.to_owned(), target: target.to_owned() }
    }

    /// The directive as a line of the build specification.
    pub fn build_line(&self) -> (line: String)
        ensures
            line@ == self@.build_line(),
    {
        match self.kind {
            DirectiveKind::Env => {
                let mut line = splice3("ENV ", self.source.as_str(), "=");
                line.append(self.target.as_str());
                line
            },
            _ => splice("VOLUME ", self.target.as_str()),
        }
    }

    /// The directive as arguments for the runtime: a flag and its value.
    pub fn run_flags(&self) -> (flags: Vec<String>)
        ensures
            views(flags@) == self@.run_flags(),
    {
        let (flag, link) = match self.kind {
            DirectiveKind::Mount => ("--volume", ":"),
            DirectiveKind::Device => ("--device", ":"),
            DirectiveKind::Env => ("--env", "="),
            DirectiveKind::Volume => ("--volume", ":"),
        };
        let mut flags: Vec<String> = Vec::new();
        flags.push(flag.to_owned());
        flags.push(splice3(self.source.as_str(), link, self.target.as_str()));
        assert(views(flags@) =~= self@.run_flags());
        flags
    }
}

/// The directives that one capability stands for, for the package `package`.
pub open spec fn feature_directives(package: Seq<char>, f: Feature) -> Seq<DirectiveView> {
    match f {
        Feature::Display => seq![
            DirectiveView {
                kind: DirectiveKind::Mount,
                source: "/tmp/.X11-unix"@,
                target: "/tmp/.X11-unix"@,
            },
            DirectiveView { kind: DirectiveKind::Env, source: "DISPLAY"@, target: ":0"@ },
        ],
        Feature::Sound => seq![
            DirectiveView { kind: DirectiveKind::Device, source: "/dev/snd"@, target: "/dev/snd"@ },
        ],
        Feature::Notification => seq![
            DirectiveView {
                kind: DirectiveKind::Mount,
                source: "/var/run/dbus"@,
                target: "/var/run/dbus"@,
            },
        ],
        Feature::Devices => seq![
            DirectiveView { kind: DirectiveKind::Mount, source: "/dev"@, target: "/dev"@ },
        ],
        Feature::HomePersistent => seq![
            DirectiveView {
                kind: DirectiveKind::Volume,
                source: package + "_home"@,
                target: "/root"@,
            },
        ],
        Feature::Time => seq![
            DirectiveView {
                kind: DirectiveKind::Mount,
                source: "/etc/localtime"@,
                target: "/etc/localtime"@,
            },
        ],
    }
}

/// The directives of the first `n` capabilities of the catalog, as far as
/// `settings` asks for them.
pub open spec fn directives_upto(package: Seq<char>, settings: Seq<Feature>, n: int) -> Seq<
    DirectiveView,
>
    decreases n,
{
    if n <= 0 {
        Seq::<DirectiveView>::empty()
    } else {
        let f = all_features()[n - 1];
        directives_upto(package, settings, n - 1) + if settings.contains(f) {
            feature_directives(package, f)
        } else {
            Seq::<DirectiveView>::empty()
        }
    }
}

/// The directives of every capability that `settings` asks for, in catalog
/// order. How often and where a capability stands in `settings` is of no
/// account.
pub open spec fn directives(package: Seq<char>, settings: Seq<Feature>) -> Seq<DirectiveView> {
    directives_upto(package, settings, all_features().len() as int)
}

/// The runtime arguments of `ds`: the flags of each directive, in order.
pub open spec fn run_args_of(ds: Seq<DirectiveView>) -> Seq<Seq<char>>
    decreases ds.len(),
{
    if ds.len() == 0 {
        Seq::<Seq<char>>::empty()
    } else {
        run_args_of(ds.drop_last()) + ds.last().run_flags()
    }
}

/// The build lines of `ds`: one line for each directive, in order.
pub open spec fn build_lines_of(ds: Seq<DirectiveView>) -> Seq<Seq<char>> {
    Seq::new(ds.len(), |i: int| ds[i].build_line())
}

/// The line that installs the staged artifact, and with it the packages
/// that it declares and those that `dependencies` names.
pub open spec fn install_line(package: Seq<char>, dependencies: Option<Seq<char>>) -> Seq<char> {
    let install = "RUN apt-get update && apt-get install -y /data/"@ + package + ".deb"@;
    match dependencies {
        Some(d) => install + " "@ + d,
        None => install,
    }
}

/// The base layer: the base image, the artifact, its installation, and the
/// launch command as the container's entry command.
pub open spec fn base_layer(meta: PackageMetadataView, command: Seq<char>) -> Seq<Seq<char>> {
    seq![
        "FROM "@ + BASE_IMAGE@,
        "COPY "@ + STAGED_ARTIFACT@ + " /data/"@ + meta.package + ".deb"@,
        install_line(meta.package, meta.dependencies),
        "CMD "@ + command,
    ]
}

/// A build specification as a mathematical value.
pub struct BuildSpecView {
    pub base: Seq<Seq<char>>,
    pub directives: Seq<DirectiveView>,
}

impl BuildSpecView {
    /// The part of the specification that is handed to the runtime when the
    /// container is started.
    pub open spec fn run_portion(self) -> Seq<Seq<char>> {
        run_args_of(self.directives)
    }

    /// The specification as text: the base layer, then the capabilities'
    /// lines, each line ended by a newline.
    pub open spec fn text(self) -> Seq<char> {
        terminated(self.base + build_lines_of(self.directives), "\n"@)
    }
}

/// The build specification of the package `meta` with the capabilities
/// `settings` and the launch command `command`. There is none for a package
/// without a name.
pub open spec fn build_spec(
    meta: PackageMetadataView,
    settings: Seq<Feature>,
    command: Seq<char>,
) -> Result<BuildSpecView, AppErrorView> {
    if meta.package.len() == 0 {
        Err(AppErrorView::InvalidPackageMetadata)
    } else {
        Ok(
            BuildSpecView {
                base: base_layer(meta, command),
                directives: directives(meta.package, settings),
            },
        )
    }
}

/// The runtime arguments of the package `meta` with the capabilities
/// `settings`. There are none for a package without a name.
pub open spec fn run_args(meta: PackageMetadataView, settings: Seq<Feature>) -> Result<
    Seq<Seq<char>>,
    AppErrorView,
> {
    if meta.package.len() == 0 {
        Err(AppErrorView::InvalidPackageMetadata)
    } else {
        Ok(run_args_of(directives(meta.package, settings)))
    }
}

/// What builds a program's image: the lines of the base layer and the
/// directives of the chosen capabilities.
#[derive(Debug, PartialEq, Eq)]
pub struct BuildSpec {
    pub base: Vec<String>,
    pub directives: Vec<Directive>,
}

impl View for BuildSpec {
    type V = BuildSpecView;

    open spec fn view(&self) -> BuildSpecView {
        BuildSpecView { base: views(self.base@), directives: directive_views(self.directives@) }
    }
}

impl BuildSpec {
    /// The part of the specification that is handed to the runtime when the
    /// container is started: the directives as runtime arguments.
    pub fn run_portion(&self) -> (args: Vec<String>)
        ensures
            views(args@) == self@.run_portion(),
    {
        run_args_from(&self.directives)
    }

    /// The specification as text, one instruction on each line.
    pub fn render(&self) -> (out: String)
        ensures
            out@ == self@.text(),
    {
        let mut lines: Vec<String> = Vec::new();
        let mut i: usize = 0;
        while i < self.base.len()
            invariant
                i <= self.base.len(),
                views(lines@) == views(self.base@).take(i as int),
            decreases self.base.len() - i,
        {
            proof {
                lemma_views_push(lines@, self.base@[i as int]);
            }
            lines.push(self.base[i].clone());
            i = i + 1;
            assert(views(lines@) =~= views(self.base@).take(i as int));
        }
        assert(views(self.base@).take(self.base.len() as int) =~= views(self.base@));
        let mut k: usize = 0;
        while k < self.directives.len()
            invariant
                k <= self.directives.len(),
                views(lines@) == self@.base + build_lines_of(self@.directives).take(k as int),
            decreases self.directives.len() - k,
        {
            let line = self.directives[k].build_line();
            proof {
                lemma_views_push(lines@, line);
            }
            lines.push(line);
            k = k + 1;
            assert(views(lines@) =~= self@.base + build_lines_of(self@.directives).take(k as int));
        }
        assert(build_lines_of(self@.directives).take(self.directives.len() as int)
            =~= build_lines_of(self@.directives));
        join_terminated(&lines, "\n")
    }
}

/// The directives that the capability `f` stands for, for the package
/// `package`.
pub fn directives_for(package: &str, f: Feature) -> (ds: Vec<Directive>)
    ensures
        directive_views(ds@) == feature_directives(package@, f),
{
    let mut ds: Vec<Directive> = Vec::new();
    match f {
        Feature::Display => {
            ds.push(Directive::new(DirectiveKind::Mount, "/tmp/.X11-unix", "/tmp/.X11-unix"));
            ds.push(Directive::new(DirectiveKind::Env, "DISPLAY", ":0"));
        },
        Feature::Sound => {
            ds.push(Directive::new(DirectiveKind::Device, "/dev/snd", "/dev/snd"));
        },
        Feature::Notification => {
            ds.push(Directive::new(DirectiveKind::Mount, "/var/run/dbus", "/var/run/dbus"));
        },
        Feature::Devices => {
            ds.push(Directive::new(DirectiveKind::Mount, "/dev", "/dev"));
        },
        Feature::HomePersistent => {
            let volume = splice(package, "_home");
            ds.push(Directive::new(DirectiveKind::Volume, volume.as_str(), "/root"));
        },
        Feature::Time => {
            ds.push(Directive::new(DirectiveKind::Mount, "/etc/localtime", "/etc/localtime"));
        },
    }
    assert(directive_views(ds@) =~= feature_directives(package@, f));
    ds
}

/// Whether `settings` asks for the capability `f`.
pub fn has_feature(settings: &Vec<Feature>, f: Feature) -> (b: bool)
    ensures
        b == settings@.contains(f),
{
    let mut i: usize = 0;
    while i < settings.len()
        invariant
            i <= settings.len(),
            forall|j: int| 0 <= j < i ==> settings@[j] != f,
        decreases settings.len() - i,
    {
        if settings[i] == f {
            return true;
        }
        i = i + 1;
    }
    false
}

/// The directives of every capability that `settings` asks for, in catalog
/// order.
pub fn generate_directives(package: &str, settings: &Vec<Feature>) -> (ds: Vec<Directive>)
    ensures
        directive_views(ds@) == directives(package@, settings@),
{
    let all = Feature::all();
    let mut ds: Vec<Directive> = Vec::new();
    let mut i: usize = 0;
    assert(directive_views(ds@) =~= directives_upto(package@, settings@, 0));
    while i < all.len()
        invariant
            i <= all.len(),
            all@ == all_features(),
            directive_views(ds@) == directives_upto(package@, settings@, i as int),
        decreases all.len() - i,
    {
        let f = all[i];
        if has_feature(settings, f) {
            let mut more = directives_for(package, f);
            let ghost before = ds@;
            let ghost added = more@;
            ds.append(&mut more);
            assert(directive_views(ds@) =~= directive_views(before) + directive_views(added));
        } else {
            assert(directive_views(ds@) =~= directive_views(ds@) + Seq::<DirectiveView>::empty());
        }
        i = i + 1;
    }
    ds
}

/// The runtime arguments of `ds`: the flags of each directive, in order.
pub fn run_args_from(ds: &Vec<Directive>) -> (args: Vec<String>)
    ensures
        views(args@) == run_args_of(directive_views(ds@)),
{
    let mut args: Vec<String> = Vec::new();
    let mut i: usize = 0;
    assert(views(args@) =~= run_args_of(directive_views(ds@).take(0)));
    while i < ds.len()
        invariant
            i <= ds.len(),
            views(args@) == run_args_of(directive_views(ds@).take(i as int)),
        decreases ds.len() - i,
    {
        let mut flags = ds[i].run_flags();
        let ghost before = args@;
        let ghost added = flags@;
        args.append(&mut flags);
        proof {
            let all = directive_views(ds@);
            assert(views(args@) =~= views(before) + views(added));
            assert(all.take(i + 1).drop_last() =~= all.take(i as int));
            assert(all.take(i + 1).last() == ds@[i as int]@);
        }
        i = i + 1;
    }
    assert(directive_views(ds@).take(ds.len() as int) =~= directive_views(ds@));
    args
}

/// The lines of the base layer for the package `meta` and the launch
/// command `command`.
pub fn generate_base_layer(meta: &PackageMetadata, command: &str) -> (lines: Vec<String>)
    ensures
        views(lines@) == base_layer(meta@, command@),
{
    let from = splice("FROM ", BASE_IMAGE);
    let mut copy = splice3("COPY ", STAGED_ARTIFACT, " /data/");
    copy.append(meta.package.as_str());
    copy.append(".deb");
    let mut install = splice3(
        "RUN apt-get update && apt-get install -y /data/",
        meta.package.as_str(),
        ".deb",
    );
    match &meta.dependencies {
        Some(d) => {
            install.append(" ");
            install.append(d.as_str());
        },
        None => {},
    }
    let entry = splice("CMD ", command);
    let mut lines: Vec<String> = Vec::new();
    lines.push(from);
    lines.push(copy);
    lines.push(install);
    lines.push(entry);
    assert(views(lines@) =~= base_layer(meta@, command@));
    lines
}

/// Generates the build specification of a program: the base layer, which
/// installs the package and sets `command` as the entry command, and the
/// directives of the capabilities in `settings`. Fails for a package without
/// a name.
pub fn generate_build_spec(meta: &PackageMetadata, settings: &Vec<Feature>, command: &str) -> (res:
    Result<BuildSpec, AppError>)
    ensures
        match build_spec(meta@, settings@, command@) {
            Ok(b) => res matches Ok(x) && x@ == b,
            Err(e) => res matches Err(x) && x@ == e,
        },
{
    if meta.package.as_str().unicode_len() == 0 {
        return Err(AppError::InvalidPackageMetadata);
    }
    Ok(
        BuildSpec {
            base: generate_base_layer(meta, command),
            directives: generate_directives(meta.package.as_str(), settings),
        },
    )
}

/// Generates the arguments with which the runtime starts a program's
/// container. Fails for a package without a name.
pub fn generate_run_args(meta: &PackageMetadata, settings: &Vec<Feature>) -> (res: Result<
    Vec<String>,
    AppError,
>)
    ensures
        match run_args(meta@, settings@) {
            Ok(a) => res matches Ok(x) && views(x@) == a,
            Err(e) => res matches Err(x) && x@ == e,
        },
{
    if meta.package.as_str().unicode_len() == 0 {
        return Err(AppError::InvalidPackageMetadata);
    }
    let ds = generate_directives(meta.package.as_str(), settings);
    Ok(run_args_from(&ds))
}

/// The arguments that start a container are the run portion of the
/// specification that built its image, whatever the launch command was: both
/// fail for a package without a name, and agree otherwise.
pub proof fn lemma_run_args_match_build_spec(
    meta: PackageMetadataView,
    settings: Seq<Feature>,
    command: Seq<char>,
)
    ensures
        run_args(meta, settings) == match build_spec(meta, settings, command) {
            Ok(b) => Ok::<Seq<Seq<char>>, AppErrorView>(b.run_portion()),
            Err(e) => Err(e),
        },
{
}

/// A request that names no capability yields the base layer alone.
pub proof fn lemma_no_settings_no_directives(package: Seq<char>)
    ensures
        directives(package, Seq::<Feature>::empty()) == Seq::<DirectiveView>::empty(),
        run_args_of(directives(package, Seq::<Feature>::empty())) == Seq::<Seq<char>>::empty(),
{
    reveal_with_fuel(directives_upto, 7);
    assert(directives(package, Seq::<Feature>::empty()) =~= Seq::<DirectiveView>::empty());
}

/// Two requests that ask for the same capabilities, in whatever order and
/// however often, yield the same directives.
pub proof fn lemma_directives_of_same_set(package: Seq<char>, a: Seq<Feature>, b: Seq<Feature>)
    requires
        forall|f: Feature| a.contains(f) == b.contains(f),
    ensures
        directives(package, a) == directives(package, b),
{
    lemma_directives_by_membership(package, a, b, all_features().len() as int);
}

/// Every capability that is asked for is bridged, and nothing else is: a
/// directive is among those of a request exactly if it is a directive of one
/// of the requested capabilities.
pub proof fn lemma_directives_are_the_requested(
    package: Seq<char>,
    settings: Seq<Feature>,
    d: DirectiveView,
)
    ensures
        directives(package, settings).contains(d) <==> exists|f: Feature|
            settings.contains(f) && #[trigger] feature_directives(package, f).contains(d),
{
    let n = all_features().len() as int;
    lemma_directives_upto_are_the_requested(package, settings, n, d);
    if exists|f: Feature| settings.contains(f) && #[trigger] feature_directives(
        package,
        f,
    ).contains(d) {
        let f = choose|f: Feature|
            settings.contains(f) && #[trigger] feature_directives(package, f).contains(d);
        crate::feature::lemma_catalog_complete(f);
        let k = choose|k: int| 0 <= k < n && all_features()[k] == f;
        assert(all_features()[k] == f);
    }
}

/// A directive is among those of the first `n` capabilities exactly if it is
/// a directive of one of them that is asked for.
proof fn lemma_directives_upto_are_the_requested(
    package: Seq<char>,
    settings: Seq<Feature>,
    n: int,
    d: DirectiveView,
)
    requires
        0 <= n <= all_features().len(),
    ensures
        directives_upto(package, settings, n).contains(d) <==> exists|k: int|
            0 <= k < n && settings.contains(all_features()[k]) && #[trigger] feature_directives(
                package,
                all_features()[k],
            ).contains(d),
    decreases n,
{
    if n > 0 {
        lemma_directives_upto_are_the_requested(package, settings, n - 1, d);
        let f = all_features()[n - 1];
        let front = directives_upto(package, settings, n - 1);
        let back = if settings.contains(f) {
            feature_directives(package, f)
        } else {
            Seq::<DirectiveView>::empty()
        };
        let whole = directives_upto(package, settings, n);
        assert(whole == front + back);
        if whole.contains(d) {
            let i = choose|i: int| 0 <= i < whole.len() && whole[i] == d;
            if i < front.len() {
                assert(front[i] == d);
                assert(front.contains(d));
            } else {
                assert(back[i - front.len()] == d);
                assert(back.contains(d));
                assert(feature_directives(package, all_features()[n - 1]).contains(d));
            }
        }
        if front.contains(d) {
            let i = choose|i: int| 0 <= i < front.len() && front[i] == d;
            assert(whole[i] == d);
        }
        if back.contains(d) {
            let i = choose|i: int| 0 <= i < back.len() && back[i] == d;
            assert(whole[front.len() + i] == d);
        }
    } else {
        assert(directives_upto(package, settings, n) =~= Seq::<DirectiveView>::empty());
    }
}

proof fn lemma_directives_by_membership(
    package: Seq<char>,
    a: Seq<Feature>,
    b: Seq<Feature>,
    n: int,
)
    requires
        forall|f: Feature| a.contains(f) == b.contains(f),
    ensures
        directives_upto(package, a, n) == directives_upto(package, b, n),
    decreases n,
{
    if n > 0 {
        lemma_directives_by_membership(package, a, b, n - 1);
    }
}

} // verus!
