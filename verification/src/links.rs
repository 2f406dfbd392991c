//! Where links and locations lead.

use vstd::prelude::*;

verus! {

/// What a link mentions, as far as opening it depends on that.
pub enum Mention {
    File { abs_path: String },
    PastedImage,
    Directory { abs_path: String },
    Symbol { abs_path: String, line_start: u32 },
    Selection { path: Option<String>, line_start: u32, column: Option<u32> },
    Thread { id: String, name: String },
    Fetch { url: String },
    Diagnostics,
    TerminalSelection,
    GitDiff,
    MergeConflict,
    Skill { skill_file_path: String },
}

/// What opening a link leads to.
pub enum LinkTarget {
    Nothing,
    Url(String),
    /// The file at this path, where the project has it.
    ProjectFile(String),
    /// The directory at this path in the project panel, where the project has it.
    ProjectDirectory(String),
    /// A place in a file.
    Point { path: String, row: u32, column: u32 },
    Thread { id: String, name: String },
    /// The file at this path, which gets the focus.
    File(String),
}

/// Whether a target is what a mention leads to.
pub open spec fn mention_leads_to(target: LinkTarget, mention: Mention) -> bool {
    match mention {
        Mention::File { abs_path } => target == LinkTarget::ProjectFile(abs_path),
        Mention::Directory { abs_path } => target == LinkTarget::ProjectDirectory(abs_path),
        Mention::Symbol { abs_path, line_start } => target == (LinkTarget::Point {
            path: abs_path,
            row: line_start,
            column: 0,
        }),
        Mention::Selection { path: Some(path), line_start, column } => target == (
        LinkTarget::Point {
            path,
            row: line_start,
            column: match column {
                Some(column) => column,
                None => 0,
            },
        }),
        Mention::Thread { id, name } => target == (LinkTarget::Thread { id, name }),
        Mention::Fetch { url } => target == LinkTarget::Url(url),
        Mention::Skill { skill_file_path } => target == LinkTarget::File(skill_file_path),
        _ => target == LinkTarget::Nothing,
    }
}

/// What opening a link leads to. `mention` is what the link mentions, where it mentions
/// anything; without a workspace, and for any other link, the link itself is opened.
pub fn open_link(url: String, has_workspace: bool, mention: Option<Mention>) -> (r: LinkTarget)
    ensures
        match mention {
            Some(mention) => if has_workspace {
                mention_leads_to(r, mention)
            } else {
                r == LinkTarget::Url(url)
            },
            None => r == LinkTarget::Url(url),
        },
{
    if !has_workspace {
        return LinkTarget::Url(url);
    }
    let mention = match mention {
        Some(mention) => mention,
        None => {
            return LinkTarget::Url(url);
        },
    };
    match mention {
        Mention::File { abs_path } => LinkTarget::ProjectFile(abs_path),
        Mention::PastedImage => LinkTarget::Nothing,
        Mention::Directory { abs_path } => LinkTarget::ProjectDirectory(abs_path),
        Mention::Symbol { abs_path, line_start } => LinkTarget::Point {
            path: abs_path,
            row: line_start,
            column: 0,
        },
        Mention::Selection { path, line_start, column } => match path {
            Some(path) => {
                let column: u32 = match column {
                    Some(column) => column,
                    None => 0,
                };
                LinkTarget::Point { path, row: line_start, column }
            },
            None => LinkTarget::Nothing,
        },
        Mention::Thread { id, name } => LinkTarget::Thread { id, name },
        Mention::Fetch { url } => LinkTarget::Url(url),
        Mention::Diagnostics => LinkTarget::Nothing,
        Mention::TerminalSelection => LinkTarget::Nothing,
        Mention::GitDiff => LinkTarget::Nothing,
        Mention::MergeConflict => LinkTarget::Nothing,
        Mention::Skill { skill_file_path } => LinkTarget::File(skill_file_path),
    }
}

/// How the file of a diff is opened.
pub struct DiffLocation {
    pub project_path: String,
    /// Whether the file is opened beside what is there.
    pub is_split: bool,
    pub row: u32,
    pub column: u32,
}

/// Where the location of a diff leads. Nothing without a project or for a path that the
/// project does not have.
pub fn open_diff_location(
    has_project: bool,
    project_path: Option<String>,
    position: (u32, u32),
    split: bool,
) -> (r: Option<DiffLocation>)
    ensures
        r is Some <==> has_project && project_path is Some,
        match (r, project_path) {
            (Some(location), Some(path)) => location == (DiffLocation {
                project_path: path,
                is_split: split,
                row: position.0,
                column: position.1,
            }),
            _ => true,
        },
{
    if !has_project {
        return None;
    }
    match project_path {
        Some(project_path) => Some(
            DiffLocation { project_path, is_split: split, row: position.0, column: position.1 },
        ),
        None => None,
    }
}

/// Of all mentions only a fetched page is opened as a link, and as the link that was fetched.
pub proof fn only_fetched_pages_open_as_links(target: LinkTarget, url: String, mention: Mention)
    requires
        mention_leads_to(target, mention),
        target == LinkTarget::Url(url),
    ensures
        mention == (Mention::Fetch { url }),
{
}

/// A mention leads to what it mentions: a file or directory to that path, a symbol or selection
/// to its place in its file, a thread to that thread, a skill to its file. What mentions no place
/// leads nowhere.
pub proof fn mentions_lead_to_what_they_mention(target: LinkTarget, mention: Mention)
    requires
        mention_leads_to(target, mention),
    ensures
        match mention {
            Mention::File { abs_path } => target matches LinkTarget::ProjectFile(path) && path@
                == abs_path@,
            Mention::Directory { abs_path } => target matches LinkTarget::ProjectDirectory(path)
                && path@ == abs_path@,
            Mention::Symbol { abs_path, line_start } => target matches LinkTarget::Point {
                path,
                row,
                column,
            } && path@ == abs_path@ && row == line_start && column == 0,
            Mention::Selection { path: Some(abs_path), line_start, column: start } =>
                target matches LinkTarget::Point { path, row, column } && path@ == abs_path@ && row
                == line_start && (start is Some ==> column == start->0) && (start is None ==> column
                == 0),
            Mention::Selection { path: None, .. } => target is Nothing,
            Mention::Thread { id, name } => target matches LinkTarget::Thread {
                id: to,
                name: called,
            } && to@ == id@ && called@ == name@,
            Mention::Fetch { url } => target matches LinkTarget::Url(to) && to@ == url@,
            Mention::Skill { skill_file_path } => target matches LinkTarget::File(path) && path@
                == skill_file_path@,
            Mention::PastedImage => target is Nothing,
            Mention::Diagnostics => target is Nothing,
            Mention::TerminalSelection => target is Nothing,
            Mention::GitDiff => target is Nothing,
            Mention::MergeConflict => target is Nothing,
        },
{
}

} // verus!
