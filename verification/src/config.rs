//! Program records and the registry that holds them.

use vstd::prelude::*;
use crate::error::{AppError, AppErrorView};
use crate::feature::Feature;
use crate::host::home_dir;
use crate::text::{splice, splice3};

verus! {

/// File name of the icon that a program gets when none is chosen.
pub const ICON_NAME_DEFAULT: &'static str = "debian_bridge_default.ico";

/// `base` with `part` below it: a `/` is put between the two unless `base`
/// is empty or already ends in one.
pub open spec fn joined(base: Seq<char>, part: Seq<char>) -> Seq<char> {
    if base.len() == 0 || base.last() == '/' {
        base + part
    } else {
        base + "/"@ + part
    }
}

/// The path of `part` below the directory `base`.
pub fn join_path(base: &str, part: &str) -> (path: String)
    ensures
        path@ == joined(base@, part@),
{
    let len: usize = base.unicode_len();
    if len == 0 || base.get_char(len - 1) == '/' {
        splice(base, part)
    } else {
        splice3(base, "/", part)
    }
}

/// Where the default icon lies for a user whose home directory is `home`.
pub open spec fn default_icon_path(home: Seq<char>) -> Seq<char> {
    joined(joined(home, ".icons"@), ICON_NAME_DEFAULT@)
}

/// A reference to an icon file. The file itself is managed elsewhere.
#[derive(Debug, PartialEq, Eq)]
pub struct Icon {
    pub path: String,
}

impl View for Icon {
    type V = Seq<char>;

    open spec fn view(&self) -> Seq<char> {
        self.path@
    }
}

impl Clone for Icon {
    fn clone(&self) -> (res: Self)
        ensures
            res@ == self@,
    {
        Icon { path: self.path.clone() }
    }
}

impl Icon {
    /// The icon at `path`.
    pub fn new(path: &str) -> (icon: Self)
        ensures
            icon@ == path@,
    {
        Icon { path: path.to_owned() }
    }

    /// The default icon of a user whose home directory is `home`.
    pub fn default_in(home: &str) -> (icon: Self)
        ensures
            icon@ == default_icon_path(home@),
    {
        let dir = join_path(home, ".icons");
        Icon { path: join_path(dir.as_str(), ICON_NAME_DEFAULT) }
    }

    /// The default icon of the current user. There is none where the host
    /// knows no home directory for the user.
    pub fn try_default() -> (res: Option<Self>)
        ensures
            exists|home: Option<Seq<char>>|
                icon_of(res) == #[trigger] default_icon_for(home),
    {
        // The host's answer decides; `default_from` says what is made of
        // each answer.
        let home = home_dir();
        Icon::default_from(home)
    }
}

/// A program record as a mathematical value.
pub struct ProgramView {
    pub name: Seq<char>,
    pub path: Seq<char>,
    pub settings: Seq<Feature>,
    pub icon: Option<Seq<char>>,
    pub command: Seq<char>,
    pub deps: Option<Seq<char>>,
}

/// The view of an optional string.
pub open spec fn text_of(s: Option<String>) -> Option<Seq<char>> {
    match s {
        Some(t) => Some(t@),
        None => None,
    }
}

/// The view of an optional icon.
pub open spec fn icon_of(icon: Option<Icon>) -> Option<Seq<char>> {
    match icon {
        Some(i) => Some(i@),
        None => None,
    }
}

/// A copy of an optional string.
pub fn copy_text(s: &Option<String>) -> (res: Option<String>)
    ensures
        text_of(res) == text_of(*s),
{
    match s {
        Some(t) => Some(t.clone()),
        None => None,
    }
}

/// A copy of an optional icon.
pub fn copy_icon(icon: &Option<Icon>) -> (res: Option<Icon>)
    ensures
        icon_of(res) == icon_of(*icon),
{
    match icon {
        Some(i) => Some(i.clone()),
        None => None,
    }
}

/// A copy of a list of capabilities.
pub fn copy_features(settings: &Vec<Feature>) -> (res: Vec<Feature>)
    ensures
        res@ == settings@,
{
    let mut res: Vec<Feature> = Vec::new();
    let mut i: usize = 0;
    while i < settings.len()
        invariant
            i <= settings.len(),
            res@ == settings@.take(i as int),
        decreases settings.len() - i,
    {
        res.push(settings[i]);
        i = i + 1;
        assert(res@ =~= settings@.take(i as int));
    }
    assert(settings@.take(settings.len() as int) =~= settings@);
    res
}

/// The persisted description of one installed program.
#[derive(Debug, PartialEq, Eq)]
pub struct Program {
    name: String,
    pub path: String,
    pub settings: Vec<Feature>,
    pub icon: Option<Icon>,
    pub command: String,
    pub deps: Option<String>,
}

impl View for Program {
    type V = ProgramView;

    closed spec fn view(&self) -> ProgramView {
        ProgramView {
            name: self.name@,
            path: self.path@,
            settings: self.settings@,
            icon: icon_of(self.icon),
            command: self.command@,
            deps: text_of(self.deps),
        }
    }
}

impl Clone for Program {
    fn clone(&self) -> (res: Self)
        ensures
            res@ == self@,
    {
        Program {
            name: self.name.clone(),
            path: self.path.clone(),
            settings: copy_features(&self.settings),
            icon: copy_icon(&self.icon),
            command: self.command.clone(),
            deps: copy_text(&self.deps),
        }
    }
}

impl Program {
    /// The path of the package artifact that the program was installed from.
    pub fn path(&self) -> (path: &String)
        ensures
            path@ == self@.path,
    {
        &self.path
    }

    /// The capabilities that were chosen when the program was installed.
    pub fn settings(&self) -> (settings: &Vec<Feature>)
        ensures
            settings@ == self@.settings,
    {
        &self.settings
    }

    /// The program's icon, if it has one.
    pub fn icon(&self) -> (icon: &Option<Icon>)
        ensures
            icon_of(*icon) == self@.icon,
    {
        &self.icon
    }

    /// The command that starts the program inside its container.
    pub fn command(&self) -> (command: &String)
        ensures
            command@ == self@.command,
    {
        &self.command
    }

    /// Further packages to install into the image, as free text.
    pub fn deps(&self) -> (deps: &Option<String>)
        ensures
            text_of(*deps) == self@.deps,
    {
        &self.deps
    }

    /// The identifier under which the container runtime knows the program:
    /// the prefix, an underscore and the program's name.
    pub fn get_name(&self, prefix: &str) -> (id: String)
        ensures
            id@ == prefix@ + "_"@ + self@.name,
    {
        splice3(prefix, "_", self.name.as_str())
    }

    /// The program's name, its key in the registry.
    pub fn get_name_short(&self) -> (name: String)
        ensures
            name@ == self@.name,
    {
        self.name.clone()
    }

    /// A record for the program `name`. The launch command is `cmd` where
    /// one is given, and the name itself otherwise.
    pub fn new(
        name: &str,
        path: &str,
        settings: &Vec<Feature>,
        icon: &Option<Icon>,
        cmd: &Option<String>,
        deps: &Option<String>,
    ) -> (program: Self)
        ensures
            program@ == (ProgramView {
                name: name@,
                path: path@,
                settings: settings@,
                icon: icon_of(*icon),
                command: match *cmd {
                    Some(c) => c@,
                    None => name@,
                },
                deps: text_of(*deps),
            }),
    {
        let command = match cmd {
            Some(c) => c.clone(),
            None => name.to_owned(),
        };
        Program {
            name: name.to_owned(),
            path: path.to_owned(),
            settings: copy_features(settings),
            icon: copy_icon(icon),
            command,
            deps: copy_text(deps),
        }
    }
}

/// Whether a record named `name` occurs in `r`.
pub open spec fn contains_name(r: Seq<ProgramView>, name: Seq<char>) -> bool {
    exists|i: int| 0 <= i < r.len() && (#[trigger] r[i]).name == name
}

/// Whether `i` is the place of the first record of `r` that is named `name`.
pub open spec fn first_at(r: Seq<ProgramView>, name: Seq<char>, i: int) -> bool {
    &&& 0 <= i < r.len()
    &&& r[i].name == name
    &&& forall|j: int| 0 <= j < i ==> (#[trigger] r[j]).name != name
}

/// The place of the first record of `r` that is named `name`. It means
/// something only where there is such a record.
pub open spec fn position(r: Seq<ProgramView>, name: Seq<char>) -> int {
    choose|i: int| first_at(r, name, i)
}

/// The registry invariant: no two records share a name.
pub open spec fn unique_names(r: Seq<ProgramView>) -> bool {
    forall|i: int, j: int|
        0 <= i < j < r.len() ==> (#[trigger] r[i]).name != (#[trigger] r[j]).name
}

/// The names of the records of `r`, in registry order.
pub open spec fn names(r: Seq<ProgramView>) -> Seq<Seq<char>> {
    Seq::new(r.len(), |i: int| r[i].name)
}

/// The record named `name` and its place in `r`, if there is one.
pub open spec fn found(r: Seq<ProgramView>, name: Seq<char>) -> Option<(ProgramView, int)> {
    if contains_name(r, name) {
        Some((r[position(r, name)], position(r, name)))
    } else {
        None
    }
}

/// What inserting `p` makes of `r`: `p` is appended, unless a record of its
/// name is there already.
pub open spec fn inserted(r: Seq<ProgramView>, p: ProgramView) -> Result<
    Seq<ProgramView>,
    AppErrorView,
> {
    if contains_name(r, p.name) {
        Err(AppErrorView::DuplicateProgram(p.name))
    } else {
        Ok(r.push(p))
    }
}

/// What removing the program `name` makes of `r`: the first record of that
/// name leaves, and it is a failure if there is none.
pub open spec fn removed(r: Seq<ProgramView>, name: Seq<char>) -> Result<
    Seq<ProgramView>,
    AppErrorView,
> {
    if contains_name(r, name) {
        Ok(r.remove(position(r, name)))
    } else {
        Err(AppErrorView::ProgramNotFound(name))
    }
}

/// The registry after an attempt that had the outcome `outcome` on the
/// registry `r`: a failed attempt leaves the registry as it was.
pub open spec fn registry_after(
    r: Seq<ProgramView>,
    outcome: Result<Seq<ProgramView>, AppErrorView>,
) -> Seq<ProgramView> {
    match outcome {
        Ok(after) => after,
        Err(_) => r,
    }
}

/// A place that holds the first record named `name` is the `position` of
/// that name.
pub proof fn lemma_first_at_is_position(r: Seq<ProgramView>, name: Seq<char>, i: int)
    requires
        first_at(r, name, i),
    ensures
        contains_name(r, name),
        position(r, name) == i,
{
    let k = position(r, name);
    assert(first_at(r, name, k));
    if k < i {
        assert(r[k].name != name);
    }
    if i < k {
        assert(r[i].name != name);
    }
}

/// Where a name occurs, its `position` holds its first record.
pub proof fn lemma_position_is_first(r: Seq<ProgramView>, name: Seq<char>)
    requires
        contains_name(r, name),
    ensures
        first_at(r, name, position(r, name)),
    decreases r.len(),
{
    let w = choose|i: int| 0 <= i < r.len() && (#[trigger] r[i]).name == name;
    lemma_first_before(r, name, w);
}

/// Below any record named `name` there is a first one.
proof fn lemma_first_before(r: Seq<ProgramView>, name: Seq<char>, w: int)
    requires
        0 <= w < r.len(),
        r[w].name == name,
    ensures
        exists|i: int| first_at(r, name, i),
    decreases w,
{
    if exists|j: int| 0 <= j < w && (#[trigger] r[j]).name == name {
        let j = choose|j: int| 0 <= j < w && (#[trigger] r[j]).name == name;
        lemma_first_before(r, name, j);
    } else {
        assert(first_at(r, name, w));
    }
}

/// The installed programs, in the order in which they were inserted.
#[derive(Debug, PartialEq, Eq)]
pub struct Config {
    pub programs: Vec<Program>,
}

impl View for Config {
    type V = Seq<ProgramView>;

    open spec fn view(&self) -> Seq<ProgramView> {
        Seq::new(self.programs@.len(), |i: int| self.programs@[i]@)
    }
}

impl Clone for Config {
    fn clone(&self) -> (res: Self)
        ensures
            res@ == self@,
    {
        let mut programs: Vec<Program> = Vec::new();
        let mut i: usize = 0;
        while i < self.programs.len()
            invariant
                i <= self.programs.len(),
                programs.len() == i,
                forall|j: int| 0 <= j < i ==> (#[trigger] programs@[j])@ == self.programs@[j]@,
            decreases self.programs.len() - i,
        {
            programs.push(self.programs[i].clone());
            i = i + 1;
        }
        let res = Config { programs };
        assert(res@ =~= self@);
        res
    }
}

impl Config {
    /// Whether the registry invariant holds: no two records share a name.
    pub open spec fn wf(&self) -> bool {
        unique_names(self@)
    }

    /// The empty registry.
    pub fn new() -> (config: Self)
        ensures
            config@ == Seq::<ProgramView>::empty(),
            config.wf(),
    {
        let config = Config { programs: Vec::new() };
        assert(config@ =~= Seq::<ProgramView>::empty());
        config
    }

    /// The place of the first record named `name`, or the number of records
    /// if there is none.
    fn locate(&self, name: &String) -> (i: usize)
        ensures
            i <= self@.len(),
            i < self@.len() ==> first_at(self@, name@, i as int),
            i == self@.len() ==> !contains_name(self@, name@),
    {
        let mut i: usize = 0;
        while i < self.programs.len()
            invariant
                i <= self.programs.len(),
                forall|j: int| 0 <= j < i ==> (#[trigger] self@[j]).name != name@,
            decreases self.programs.len() - i,
        {
            if self.programs[i].name == *name {
                assert(self@[i as int].name == name@);
                return i;
            }
            i = i + 1;
        }
        i
    }

    /// Appends a copy of `program`. Fails, and changes nothing, if a record
    /// of the same name is there already.
    pub fn push(&mut self, program: &Program) -> (res: Result<(), AppError>)
        ensures
            match inserted(old(self)@, program@) {
                Ok(r) => res is Ok && final(self)@ == r,
                Err(e) => res matches Err(x) && x@ == e && final(self)@ == old(self)@,
            },
            final(self)@ == registry_after(old(self)@, inserted(old(self)@, program@)),
            old(self).wf() ==> final(self).wf(),
    {
        let at = self.locate(&program.name);
        if at < self.programs.len() {
            return Err(AppError::DuplicateProgram(program.name.clone()));
        }
        self.programs.push(program.clone());
        proof {
            assert(self@ =~= old(self)@.push(program@));
            if old(self).wf() {
                lemma_inserted_keeps_unique(old(self)@, program@);
            }
        }
        Ok(())
    }

    /// The first record named `name`, with its place in the registry.
    pub fn find(&self, name: &str) -> (res: Option<(Program, usize)>)
        ensures
            match found(self@, name@) {
                Some((p, i)) => res matches Some((q, k)) && q@ == p && k == i,
                None => res is None,
            },
    {
        let name = name.to_owned();
        let at = self.locate(&name);
        if at < self.programs.len() {
            proof {
                lemma_first_at_is_position(self@, name@, at as int);
            }
            Some((self.programs[at].clone(), at))
        } else {
            None
        }
    }

    /// Removes the first record that has the name of `program`. Fails, and
    /// changes nothing, if there is none.
    pub fn remove(&mut self, program: &Program) -> (res: Result<(), AppError>)
        ensures
            match removed(old(self)@, program@.name) {
                Ok(r) => res is Ok && final(self)@ == r,
                Err(e) => res matches Err(x) && x@ == e && final(self)@ == old(self)@,
            },
            final(self)@ == registry_after(old(self)@, removed(old(self)@, program@.name)),
            old(self).wf() ==> final(self).wf() && !contains_name(final(self)@, program@.name),
    {
        let at = self.locate(&program.name);
        if at >= self.programs.len() {
            return Err(AppError::ProgramNotFound(program.name.clone()));
        }
        proof {
            lemma_first_at_is_position(self@, program@.name, at as int);
        }
        self.programs.remove(at);
        proof {
            assert(self@ =~= old(self)@.remove(at as int));
            if old(self).wf() {
                lemma_removed_keeps_unique(old(self)@, program@.name);
            }
        }
        Ok(())
    }

    /// Empties the registry.
    pub fn clear(&mut self)
        ensures
            final(self)@ == Seq::<ProgramView>::empty(),
            final(self).wf(),
    {
        self.programs = Vec::new();
        assert(self@ =~= Seq::<ProgramView>::empty());
    }

    /// The names of the programs, in registry order.
    pub fn list(&self) -> (res: Vec<String>)
        ensures
            crate::text::views(res@) == names(self@),
    {
        let mut res: Vec<String> = Vec::new();
        let mut i: usize = 0;
        while i < self.programs.len()
            invariant
                i <= self.programs.len(),
                res.len() == i,
                forall|j: int| 0 <= j < i ==> (#[trigger] res@[j])@ == self@[j].name,
            decreases self.programs.len() - i,
        {
            res.push(self.programs[i].get_name_short());
            i = i + 1;
        }
        assert(crate::text::views(res@) =~= names(self@));
        res
    }
}

/// Inserting keeps the registry invariant.
pub proof fn lemma_inserted_keeps_unique(r: Seq<ProgramView>, p: ProgramView)
    requires
        unique_names(r),
    ensures
        inserted(r, p) matches Ok(after) ==> unique_names(after),
{
    if !contains_name(r, p.name) {
        let after = r.push(p);
        assert forall|i: int, j: int| 0 <= i < j < after.len() implies (#[trigger] after[i]).name
            != (#[trigger] after[j]).name by {
            if j < r.len() {
                assert(r[i].name != r[j].name);
            } else {
                assert(r[i].name != p.name);
            }
        }
    }
}

/// Removing keeps the registry invariant, and in a registry that has it no
/// record of the removed name is left.
pub proof fn lemma_removed_keeps_unique(r: Seq<ProgramView>, name: Seq<char>)
    requires
        unique_names(r),
    ensures
        removed(r, name) matches Ok(after) ==> unique_names(after) && !contains_name(after, name),
{
    if contains_name(r, name) {
        lemma_position_is_first(r, name);
        let at = position(r, name);
        let after = r.remove(at);
        assert forall|i: int, j: int| 0 <= i < j < after.len() implies (#[trigger] after[i]).name
            != (#[trigger] after[j]).name by {
            let oi = if i < at { i } else { i + 1 };
            let oj = if j < at { j } else { j + 1 };
            assert(after[i] == r[oi]);
            assert(after[j] == r[oj]);
            assert(r[oi].name != r[oj].name);
        }
        assert forall|i: int| 0 <= i < after.len() implies (#[trigger] after[i]).name != name by {
            let oi = if i < at { i } else { i + 1 };
            assert(after[i] == r[oi]);
            if oi < at {
                assert(r[oi].name != r[at].name);
            } else {
                assert(r[at].name != r[oi].name);
            }
        }
    }
}

/// The default icon of a user of whom the host gave `home` as the home
/// directory, where `None` stands for a host that knows none.
pub open spec fn default_icon_for(home: Option<Seq<char>>) -> Option<Seq<char>> {
    match home {
        Some(h) => Some(default_icon_path(h)),
        None => None,
    }
}

impl Icon {
    /// The default icon of a user of whom the host gave `home` as the home
    /// directory: the icon below that directory, and none where the host
    /// gave none.
    pub fn default_from(home: Option<String>) -> (res: Option<Self>)
        ensures
            icon_of(res) == default_icon_for(text_of(home)),
    {
        match home {
            Some(h) => Some(Icon::default_in(h.as_str())),
            None => None,
        }
    }
}

} // verus!
