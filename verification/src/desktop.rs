//! The launcher entry that makes an installed program appear on the desktop.

use vstd::prelude::*;
use crate::config::{join_path, joined, text_of};
use crate::text::{splice, splice3, join_terminated, terminated, views};

verus! {

/// What a launcher entry says when the package has no description.
pub const DEFAULT_COMMENT: &'static str = "Application";

/// The name of the launcher file of the program `name`.
pub open spec fn entry_file_name(name: Seq<char>) -> Seq<char> {
    name + ".desktop"@
}

/// The command that launches the program `name` through the bridge that is
/// installed as `package_name`.
pub open spec fn launch_invocation(package_name: Seq<char>, name: Seq<char>) -> Seq<char> {
    package_name + " run "@ + name
}

/// A launcher entry as a mathematical value.
pub struct DesktopEntryView {
    pub name: Seq<char>,
    pub comment: Seq<char>,
    pub command: Seq<char>,
    pub icon: Seq<char>,
}

impl DesktopEntryView {
    /// The lines of the launcher file.
    pub open spec fn lines(self) -> Seq<Seq<char>> {
        seq![
            "[Desktop Entry]"@,
            "Type=Application"@,
            "Name="@ + self.name,
            "Comment="@ + self.comment,
            "Exec="@ + self.command,
            "Icon="@ + self.icon,
        ]
    }

    /// The content of the launcher file: its lines, each ended by a newline.
    pub open spec fn text(self) -> Seq<char> {
        terminated(self.lines(), "\n"@)
    }
}

/// A launcher entry: the program's name, a comment, the command that
/// launches the program and the path of its icon.
#[derive(Debug, PartialEq, Eq)]
pub struct DesktopEntry {
    pub name: String,
    pub comment: String,
    pub command: String,
    pub icon: String,
}

impl View for DesktopEntry {
    type V = DesktopEntryView;

    open spec fn view(&self) -> DesktopEntryView {
        DesktopEntryView {
            name: self.name@,
            comment: self.comment@,
            command: self.command@,
            icon: self.icon@,
        }
    }
}

impl DesktopEntry {
    /// The name of the launcher file.
    pub fn file_name(&self) -> (file: String)
        ensures
            file@ == entry_file_name(self@.name),
    {
        file_name_of(self.name.as_str())
    }

    /// The content of the launcher file.
    pub fn render(&self) -> (out: String)
        ensures
            out@ == self@.text(),
    {
        let mut lines: Vec<String> = Vec::new();
        lines.push("[Desktop Entry]".to_owned());
        lines.push("Type=Application".to_owned());
        lines.push(splice("Name=", self.name.as_str()));
        lines.push(splice("Comment=", self.comment.as_str()));
        lines.push(splice("Exec=", self.command.as_str()));
        lines.push(splice("Icon=", self.icon.as_str()));
        assert(views(lines@) =~= self@.lines());
        join_terminated(&lines, "\n")
    }
}

/// The name of the launcher file of the program `name`.
pub fn file_name_of(name: &str) -> (file: String)
    ensures
        file@ == entry_file_name(name@),
{
    splice(name, ".desktop")
}

/// The command that launches the program `name` through the bridge that is
/// installed as `package_name`.
pub fn invocation(package_name: &str, name: &str) -> (command: String)
    ensures
        command@ == launch_invocation(package_name@, name@),
{
    splice3(package_name, " run ", name)
}

/// The path of the launcher file of the program `name` in the desktop
/// directory `dir`.
pub fn entry_path_in(dir: &str, name: &str) -> (path: String)
    ensures
        path@ == joined(dir@, entry_file_name(name@)),
{
    let file = file_name_of(name);
    join_path(dir, file.as_str())
}

/// The path of the launcher file of the program `name` on a desktop of
/// which the host gave `dir` as the directory, where `None` stands for a
/// host that knows none.
pub open spec fn entry_path_for(dir: Option<Seq<char>>, name: Seq<char>) -> Option<Seq<char>> {
    match dir {
        Some(d) => Some(joined(d, entry_file_name(name))),
        None => None,
    }
}

/// The path of the launcher file of the program `name` on a desktop of
/// which the host gave `dir` as the directory: the file below that
/// directory, and none where the host gave none.
pub fn entry_path_from(dir: Option<String>, name: &str) -> (res: Option<String>)
    ensures
        text_of(res) == entry_path_for(text_of(dir), name@),
{
    match dir {
        Some(d) => Some(entry_path_in(d.as_str(), name)),
        None => None,
    }
}

} // verus!
