use vstd::prelude::*;

verus! {

broadcast use vstd::string::group_string_axioms;

/// What `editor_run` asks the editor to do.
#[derive(Debug, Clone, Copy, PartialEq, Eq, Structural)]
pub enum EditorRunAction {
    Start,
    Stop,
    Restart,
    Status,
}

/// Parameters for native selected-scene run control in an existing Godot editor.
#[derive(Debug, Clone)]
pub struct EditorRunParams {
    /// Absolute path to the Godot project directory (must contain project.godot).
    pub project_path: String,
    /// Lifecycle action. Start and restart require scene_path; stop and status reject it.
    pub action: EditorRunAction,
    /// Saved scene path relative to the project. Valid only for start and restart.
    pub scene_path: Option<String>,
}

/// What the editor reports after an `editor_run` action.
#[derive(Debug, Clone)]
pub struct EditorRunResponse {
    pub action: EditorRunAction,
    /// Selected saved scene for a launch, or the scene that was playing for stop/status.
    pub scene_path: String,
    /// True only when this call synchronously asked EditorInterface to launch a scene.
    pub launch_requested: bool,
    /// Native EditorInterface play state immediately after the action.
    pub game_running: bool,
    /// Native EditorInterface playing scene after the action; empty when stopped.
    pub playing_scene: String,
}

/// A request whose parameters do not fit the action; reported to the
/// client as invalid parameters.
#[derive(Debug, Clone, PartialEq, Eq)]
pub struct InvalidParams {
    pub message: String,
}

/// Start and restart need a non-empty scene path; stop and status take none.
pub open spec fn spec_action_fits(action: EditorRunAction, scene_path: Option<Seq<char>>) -> bool {
    match action {
        EditorRunAction::Start | EditorRunAction::Restart => scene_path matches Some(p) && p.len() > 0,
        EditorRunAction::Stop | EditorRunAction::Status => scene_path is None,
    }
}

/// Check that the scene path suits the action.
pub fn validate_action(params: &EditorRunParams) -> (r: Result<(), InvalidParams>)
    ensures
        r is Ok <==> spec_action_fits(
            params.action,
            match params.scene_path { Some(p) => Some(p@), None => None },
        ),
        r matches Err(e) ==> (match params.action {
            EditorRunAction::Start | EditorRunAction::Restart => e.message@
                == "scene_path is required for start and restart"@,
            _ => e.message@ == "scene_path is only valid for start and restart"@,
        }),
{
    match params.action {
        EditorRunAction::Start | EditorRunAction::Restart => {
            let missing = match &params.scene_path {
                None => true,
                Some(p) => p.as_str().unicode_len() == 0,
            };
            if missing {
                Err(
                    InvalidParams {
                        message: String::from_str("scene_path is required for start and restart"),
                    },
                )
            } else {
                Ok(())
            }
        },
        EditorRunAction::Stop | EditorRunAction::Status => match &params.scene_path {
            Some(_) => Err(
                InvalidParams {
                    message: String::from_str("scene_path is only valid for start and restart"),
                },
            ),
            None => Ok(()),
        },
    }
}

} // verus!
