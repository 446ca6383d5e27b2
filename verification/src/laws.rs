//! What holds of the registry and of the lifecycle whatever the programs
//! are, stated over the same functions as the contracts of the operations.

use vstd::prelude::*;
use crate::app::{
    admitted, built, deleted, planned_build, planned_removal, planned_run, AppView,
    BuildRequestView, CreationView, RemovalView,
};
use crate::catalog::{
    all_available, first_unavailable, first_unavailable_at, lemma_first_unavailable,
};
use crate::config::{
    contains_name, inserted, lemma_position_is_first, lemma_removed_keeps_unique, position,
    registry_after, removed, unique_names, ProgramView,
};
use crate::container::{directives, run_args_of, PackageMetadataView};
use crate::error::{AppErrorView, GatewayErrorView};
use crate::feature::Feature;

verus! {

/// Once a program has been inserted, or was there before, inserting any
/// record of the same name fails as a duplicate and leaves the registry as
/// the first attempt left it.
pub proof fn lemma_second_insert_is_duplicate(r: Seq<ProgramView>, p: ProgramView, q: ProgramView)
    requires
        q.name == p.name,
    ensures
        inserted(registry_after(r, inserted(r, p)), q) == Err::<Seq<ProgramView>, AppErrorView>(
            AppErrorView::DuplicateProgram(q.name),
        ),
        registry_after(registry_after(r, inserted(r, p)), inserted(registry_after(r, inserted(r, p)), q))
            == registry_after(r, inserted(r, p)),
{
    let first = registry_after(r, inserted(r, p));
    if !contains_name(r, p.name) {
        assert(first == r.push(p));
        assert(first[r.len() as int].name == q.name);
    }
    assert(contains_name(first, q.name));
}

/// Removing a name that the registry does not hold fails as not found and
/// leaves the registry as it was.
pub proof fn lemma_remove_absent_fails(r: Seq<ProgramView>, name: Seq<char>)
    requires
        !contains_name(r, name),
    ensures
        removed(r, name) == Err::<Seq<ProgramView>, AppErrorView>(
            AppErrorView::ProgramNotFound(name),
        ),
        registry_after(r, removed(r, name)) == r,
{
}

/// Removing a program that was inserted last gives back the registry that
/// it was inserted into.
pub proof fn lemma_insert_then_remove(r: Seq<ProgramView>, p: ProgramView)
    requires
        !contains_name(r, p.name),
    ensures
        inserted(r, p) == Ok::<Seq<ProgramView>, AppErrorView>(r.push(p)),
        removed(r.push(p), p.name) == Ok::<Seq<ProgramView>, AppErrorView>(r),
{
    let after = r.push(p);
    assert(after[r.len() as int].name == p.name);
    assert(contains_name(after, p.name));
    lemma_position_is_first(after, p.name);
    let at = position(after, p.name);
    if at < r.len() {
        assert(r[at].name == p.name);
        assert(contains_name(r, p.name));
    }
    assert(after.remove(at) =~= r);
}

/// A deletion that the runtime answers with "not found" removes the program
/// as a successful deletion does: wherever the program is registered, the
/// removal succeeds and takes its record out of the registry.
pub proof fn lemma_remove_is_idempotent_at_runtime(app: AppView, removal: RemovalView)
    ensures
        deleted(app, removal, Err(GatewayErrorView::NotFound)) == deleted(app, removal, Ok(())),
        contains_name(app.config, removal.program.name) ==> (deleted(
            app,
            removal,
            Err(GatewayErrorView::NotFound),
        ) matches Ok((after, _)) && after == app.config.remove(
            position(app.config, removal.program.name),
        )),
        contains_name(app.config, removal.program.name) && unique_names(app.config) ==> (deleted(
            app,
            removal,
            Err(GatewayErrorView::NotFound),
        ) matches Ok((after, _)) && !contains_name(after, removal.program.name)),
{
    if contains_name(app.config, removal.program.name) && unique_names(app.config) {
        lemma_removed_keeps_unique(app.config, removal.program.name);
    }
}

/// Running or removing a program that is not registered fails as not found
/// before the runtime is asked anything.
pub proof fn lemma_unknown_program_is_not_found(app: AppView, name: Seq<char>)
    requires
        !contains_name(app.config, name),
    ensures
        planned_run(app, name) == Err::<crate::app::RunRequestView, AppErrorView>(
            AppErrorView::ProgramNotFound(name),
        ),
        planned_removal(app, name) == Err::<RemovalView, AppErrorView>(
            AppErrorView::ProgramNotFound(name),
        ),
{
}

/// A registry entry always has a built image behind it: a build that failed
/// registers nothing, and so does a package that could not be read.
pub proof fn lemma_failed_build_registers_nothing(
    app: AppView,
    request: BuildRequestView,
    failure: GatewayErrorView,
)
    ensures
        built(app, request, Err(failure)) == Err::<
            (Seq<ProgramView>, Option<crate::desktop::DesktopEntryView>),
            AppErrorView,
        >(AppErrorView::BuildFailed(failure.message())),
{
}

/// What is registered fits the host and has a name: the record that the last
/// step of a creation registers asks only for capabilities that the host
/// provides, is named, and is appended to the registry, whoever made the
/// request.
pub proof fn lemma_registered_record_fits(
    app: AppView,
    request: BuildRequestView,
    outcome: Result<(), GatewayErrorView>,
)
    ensures
        built(app, request, outcome) matches Ok((after, _)) ==> {
            &&& outcome is Ok
            &&& all_available(app.features, request.program.settings)
            &&& request.program.name.len() > 0
            &&& !contains_name(app.config, request.program.name)
            &&& after == app.config.push(request.program)
        },
{
}

/// The request that the second step of a creation plans is registered by
/// the last step once the build has succeeded, as long as the registry has
/// stayed as it was.
pub proof fn lemma_planned_build_is_registered(
    app: AppView,
    c: CreationView,
    extracted: Result<PackageMetadataView, Seq<char>>,
)
    ensures
        planned_build(app, c, extracted) matches Ok(request) ==> built(app, request, Ok(()))
            == Ok::<(Seq<ProgramView>, Option<crate::desktop::DesktopEntryView>), AppErrorView>(
            (app.config.push(request.program), crate::app::entry_of(app.package_name, request)),
        ),
{
}

/// A package whose name is registered already is refused before anything is
/// built.
pub proof fn lemma_duplicate_is_refused_before_build(
    app: AppView,
    c: CreationView,
    meta: PackageMetadataView,
)
    requires
        all_available(app.features, c.settings),
        meta.package.len() > 0,
        contains_name(app.config, meta.package),
    ensures
        planned_build(app, c, Ok(meta)) == Err::<BuildRequestView, AppErrorView>(
            AppErrorView::DuplicateProgram(meta.package),
        ),
{
}

/// A request for a capability that the host cannot provide is refused
/// whatever the package is, and even if it cannot be read.
pub proof fn lemma_unsupported_is_refused_first(
    app: AppView,
    c: CreationView,
    extracted: Result<PackageMetadataView, Seq<char>>,
)
    requires
        !all_available(app.features, c.settings),
    ensures
        first_unavailable(app.features, c.settings) matches Some(f) && {
            &&& c.settings.contains(f)
            &&& !app.features[f]
            &&& admitted(app.features, c) == Err::<CreationView, AppErrorView>(
                AppErrorView::UnsupportedFeature(f),
            )
            &&& planned_build(app, c, extracted) == Err::<BuildRequestView, AppErrorView>(
                AppErrorView::UnsupportedFeature(f),
            )
        },
{
    let i = choose|i: int| first_unavailable_at(app.features, c.settings, i);
    lemma_first_unavailable_exists(app.features, c.settings, c.settings.len() as int);
    assert(first_unavailable_at(app.features, c.settings, i));
    lemma_first_unavailable(app.features, c.settings, i);
}

/// Where some capability of the first `n` is unavailable, one of them is
/// the first.
proof fn lemma_first_unavailable_exists(m: Map<Feature, bool>, requested: Seq<Feature>, n: int)
    requires
        0 <= n <= requested.len(),
        exists|j: int| 0 <= j < n && !m[#[trigger] requested[j]],
    ensures
        exists|i: int| first_unavailable_at(m, requested, i),
    decreases n,
{
    if exists|j: int| 0 <= j < n - 1 && !m[#[trigger] requested[j]] {
        lemma_first_unavailable_exists(m, requested, n - 1);
    } else {
        assert(first_unavailable_at(m, requested, n - 1));
    }
}

/// The record of a program that is to be built asks only for capabilities
/// that the host provides, has a name, and has a name that is not taken.
pub proof fn lemma_planned_record_fits(
    app: AppView,
    c: CreationView,
    extracted: Result<PackageMetadataView, Seq<char>>,
)
    ensures
        planned_build(app, c, extracted) matches Ok(request) ==> {
            &&& all_available(app.features, request.program.settings)
            &&& request.program.name.len() > 0
            &&& !contains_name(app.config, request.program.name)
            &&& request.spec.run_portion() == run_args_of(
                directives(request.program.name, request.program.settings),
            )
        },
{
}

/// A request is valid exactly if none of its capabilities is unavailable;
/// the empty request is valid on every host.
pub proof fn lemma_validity(m: Map<Feature, bool>, requested: Seq<Feature>)
    ensures
        !all_available(m, requested) <==> exists|i: int|
            0 <= i < requested.len() && !m[#[trigger] requested[i]],
        all_available(m, Seq::<Feature>::empty()),
{
}

} // verus!
