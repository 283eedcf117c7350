use vstd::prelude::*;

verus! {

broadcast use vstd::string::group_string_axioms;

/// Why a path or the Godot binary could not be resolved.
#[derive(Debug, Clone, PartialEq, Eq)]
pub enum ResolveError {
    GodotNotFound,
    /// The project directory holds no `project.godot`.
    NotAProject(String),
    /// The scene's parent directory does not exist.
    ParentMissing(String),
}

impl ResolveError {
    /// The text reported for the error.
    pub fn message(&self) -> (s: String)
        ensures
            match self {
                ResolveError::GodotNotFound => s@
                    == "Godot binary not found. Set GODOT_PATH or add `godot` to PATH"@,
                ResolveError::NotAProject(p) => s@ == "project_path '"@ + p@
                    + "' does not contain a project.godot file"@,
                ResolveError::ParentMissing(p) => s@ == "scene parent directory does not exist: "@
                    + p@,
            },
    {
        match self {
            ResolveError::GodotNotFound => String::from_str(
                "Godot binary not found. Set GODOT_PATH or add `godot` to PATH",
            ),
            ResolveError::NotAProject(p) => {
                let mut s = String::from_str("project_path '");
                s.append(p.as_str());
                s.append("' does not contain a project.godot file");
                s
            },
            ResolveError::ParentMissing(p) => {
                let mut s = String::from_str("scene parent directory does not exist: ");
                s.append(p.as_str());
                s
            },
        }
    }
}

/// The Godot binary: `GODOT_PATH` when it is set (taken as it is, with no
/// check that it exists), else what the search of `PATH` for `godot` found.
pub fn resolve_godot_bin(godot_path_env: Option<String>, found_on_path: Option<String>) -> (r: Result<String, ResolveError>)
    ensures
        match godot_path_env {
            Some(p) => r == Ok::<String, ResolveError>(p),
            None => match found_on_path {
                Some(q) => r == Ok::<String, ResolveError>(q),
                None => r == Err::<String, ResolveError>(ResolveError::GodotNotFound),
            },
        },
{
    match godot_path_env {
        Some(p) => Ok(p),
        None => match found_on_path {
            Some(q) => Ok(q),
            None => Err(ResolveError::GodotNotFound),
        },
    }
}

/// A project directory is valid when it holds a `project.godot` file.
pub fn validate_project_path(project_path: &str, has_project_file: bool) -> (r: Result<(), ResolveError>)
    ensures
        has_project_file ==> r is Ok,
        !has_project_file ==> (r matches Err(ResolveError::NotAProject(p)) && p@ == project_path@),
{
    if has_project_file {
        Ok(())
    } else {
        Err(ResolveError::NotAProject(String::from_str(project_path)))
    }
}

/// The full path of a scene under the project, provided its parent
/// directory exists: `parent` is the parent of `full`, if it has one.
pub fn resolve_scene_path(full: String, parent: Option<String>, parent_exists: bool) -> (r: Result<String, ResolveError>)
    ensures
        match parent {
            None => r == Err::<String, ResolveError>(ResolveError::ParentMissing(full)),
            Some(p) => if parent_exists {
                r == Ok::<String, ResolveError>(full)
            } else {
                r == Err::<String, ResolveError>(ResolveError::ParentMissing(p))
            },
        },
{
    match parent {
        None => Err(ResolveError::ParentMissing(full)),
        Some(p) => if parent_exists {
            Ok(full)
        } else {
            Err(ResolveError::ParentMissing(p))
        },
    }
}

} // verus!
