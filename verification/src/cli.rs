use vstd::prelude::*;
use crate::text::{spec_trim, str_eq, trim_str, Strip};

verus! {

broadcast use vstd::string::group_string_axioms;

/// What the command line asks for.
#[derive(Debug, Clone, PartialEq, Eq)]
pub enum CliCommand {
    /// The hidden process supervisor (its arguments follow the first).
    Supervise,
    /// Run the MCP server on stdio.
    Serve,
    /// Print the usage text.
    Usage,
    /// Print the version.
    Version,
    /// Run one tool; `json_arg` is the argument after its name, if any.
    Operation { name: String, json_arg: Option<String> },
}

/// The command that the arguments after the program name select.
pub open spec fn spec_command_kind(first: Option<Seq<char>>) -> int {
    match first {
        None => 2,
        Some(a) => if a == "__process-supervisor"@ {
            0
        } else if a == "serve"@ {
            1
        } else if a == "--help"@ || a == "-h"@ {
            2
        } else if a == "--version"@ || a == "-V"@ {
            3
        } else {
            4
        },
    }
}

/// The words of the command line: with no argument, or `--help` or `-h`,
/// the usage; `--version` or `-V` the version, both of them; `serve` the
/// server; the supervisor word the supervisor. A first argument is taken as
/// an operation name exactly when it is none of these words.
pub proof fn lemma_command_words(a: Seq<char>)
    ensures
        spec_command_kind(None) == 2,
        (a == "--version"@ || a == "-V"@) ==> spec_command_kind(Some(a)) == 3,
        (a == "--help"@ || a == "-h"@) ==> spec_command_kind(Some(a)) == 2,
        a == "serve"@ ==> spec_command_kind(Some(a)) == 1,
        a == "__process-supervisor"@ ==> spec_command_kind(Some(a)) == 0,
        spec_command_kind(Some(a)) == 4 <==> !(a == "--version"@ || a == "-V"@ || a == "--help"@
            || a == "-h"@ || a == "serve"@ || a == "__process-supervisor"@),
{
    reveal_strlit("--version");
    reveal_strlit("-V");
    reveal_strlit("--help");
    reveal_strlit("-h");
    reveal_strlit("serve");
    reveal_strlit("__process-supervisor");
    assert("--version"@ != "__process-supervisor"@ && "--version"@ != "serve"@ && "--version"@
        != "--help"@ && "--version"@ != "-h"@) by {
        assert("--version"@.len() == 9);
        assert("--version"@[2] != "--help"@[2]);
    }
    assert("-V"@ != "__process-supervisor"@ && "-V"@ != "serve"@ && "-V"@ != "--help"@ && "-V"@
        != "-h"@) by {
        assert("-V"@[1] != "-h"@[1]);
    }
    assert("--help"@.len() == 6 && "-h"@.len() == 2 && "serve"@.len() == 5
        && "__process-supervisor"@.len() == 20);
}

pub open spec fn spec_opt_view(o: Option<String>) -> Option<Seq<char>> {
    match o {
        Some(s) => Some(s@),
        None => None,
    }
}

/// Read the command from the arguments that follow the program name.
pub fn parse_command(args: &Vec<String>) -> (c: CliCommand)
    ensures
        ({
            let first = if args@.len() > 0 { Some(args@[0]@) } else { None };
            let k = spec_command_kind(first);
            &&& k == 0 <==> c == CliCommand::Supervise
            &&& k == 1 <==> c == CliCommand::Serve
            &&& k == 2 <==> c == CliCommand::Usage
            &&& k == 3 <==> c == CliCommand::Version
            &&& k == 4 <==> (c matches CliCommand::Operation { name, json_arg } && name@ == args@[0]@
                && spec_opt_view(json_arg) == (if args@.len() > 1 { Some(args@[1]@) } else { None }))
        }),
{
    if args.len() == 0 {
        return CliCommand::Usage;
    }
    let a = args[0].as_str();
    if str_eq(a, "__process-supervisor") {
        CliCommand::Supervise
    } else if str_eq(a, "serve") {
        CliCommand::Serve
    } else if str_eq(a, "--help") || str_eq(a, "-h") {
        CliCommand::Usage
    } else if str_eq(a, "--version") || str_eq(a, "-V") {
        CliCommand::Version
    } else {
        let json_arg = if args.len() > 1 {
            Some(args[1].clone())
        } else {
            None
        };
        CliCommand::Operation { name: args[0].clone(), json_arg }
    }
}

/// Where the parameters of a tool come from.
#[derive(Debug, Clone, PartialEq, Eq)]
pub enum ParamsSource {
    /// The JSON text given on the command line.
    Argument(String),
    /// Piped standard input.
    Stdin,
    /// Neither: standard input is a terminal.
    Missing,
}

/// The argument wins; otherwise piped stdin; a terminal gives nothing.
pub fn params_source(json_arg: Option<&str>, stdin_is_terminal: bool) -> (s: ParamsSource)
    ensures
        match json_arg {
            Some(a) => s matches ParamsSource::Argument(t) && t@ == a@,
            None => if stdin_is_terminal {
                s == ParamsSource::Missing
            } else {
                s == ParamsSource::Stdin
            },
        },
{
    match json_arg {
        Some(a) => ParamsSource::Argument(String::from_str(a)),
        None => if stdin_is_terminal {
            ParamsSource::Missing
        } else {
            ParamsSource::Stdin
        },
    }
}

/// Standard input is taken trimmed; nothing but white space means an empty
/// object, anything else is JSON text to parse.
pub fn stdin_params(text: &str) -> (r: Option<String>)
    ensures
        match r {
            None => spec_trim(text@, Strip::Whitespace).len() == 0,
            Some(t) => t@ == spec_trim(text@, Strip::Whitespace) && t@.len() > 0,
        },
{
    let t = trim_str(text, Strip::Whitespace);
    if t.unicode_len() == 0 {
        None
    } else {
        Some(String::from_str(t))
    }
}

/// An error reply of the command line: printed as a JSON object with
/// `error`, `message` and, when there is one, `hint`; then the process
/// exits with `exit_code`.
#[derive(Debug, Clone, PartialEq, Eq)]
pub struct CliError {
    pub error: String,
    pub message: String,
    pub hint: Option<String>,
    pub exit_code: i32,
}

fn make_error(error: &str, message: String, exit_code: i32) -> (e: CliError)
    ensures
        e.error@ == error@,
        e.message == message,
        e.hint is None,
        e.exit_code == exit_code,
{
    CliError { error: String::from_str(error), message, hint: None, exit_code }
}

fn joined(a: &str, b: &str) -> (r: String)
    ensures
        r@ == a@ + b@,
{
    let mut r = String::from_str(a);
    r.append(b);
    r
}

/// The parameters are not valid JSON; `detail` is the parser's message.
pub fn invalid_json(detail: &str, from_stdin: bool) -> (e: CliError)
    ensures
        e.error@ == "invalid_json"@,
        e.message@ == (if from_stdin { "Invalid JSON from stdin: "@ } else { "Invalid JSON: "@ }) + detail@,
        e.hint is None,
        e.exit_code == 2,
{
    let prefix = if from_stdin {
        "Invalid JSON from stdin: "
    } else {
        "Invalid JSON: "
    };
    make_error("invalid_json", joined(prefix, detail), 2)
}

/// No parameters were given and standard input is a terminal.
pub fn missing_params(operation: &str) -> (e: CliError)
    ensures
        e.error@ == "missing_params"@,
        e.message@ == "No JSON params provided. Usage: director "@ + operation@ + " '<json>'"@,
        e.hint is None,
        e.exit_code == 2,
{
    let mut m = joined("No JSON params provided. Usage: director ", operation);
    m.append(" '<json>'");
    make_error("missing_params", m, 2)
}

/// The parameters lack `project_path`.
pub fn missing_project_path() -> (e: CliError)
    ensures
        e.error@ == "missing_project_path"@,
        e.message@ == "params must include \"project_path\""@,
        e.hint is None,
        e.exit_code == 2,
{
    make_error("missing_project_path", String::from_str("params must include \"project_path\""), 2)
}

/// The parameters do not fit the tool's parameter type.
pub fn invalid_parameters(detail: &str) -> (e: CliError)
    ensures
        e.error@ == "invalid_parameters"@,
        e.message@ == detail@,
        e.hint is None,
        e.exit_code == 2,
{
    make_error("invalid_parameters", String::from_str(detail), 2)
}

/// The Godot binary could not be found.
pub fn godot_not_found(detail: &str) -> (e: CliError)
    ensures
        e.error@ == "godot_not_found"@,
        e.message@ == detail@,
        e.hint matches Some(h) && h@ == "Ensure Godot is installed and in your PATH."@,
        e.exit_code == 1,
{
    CliError {
        error: String::from_str("godot_not_found"),
        message: String::from_str(detail),
        hint: Some(String::from_str("Ensure Godot is installed and in your PATH.")),
        exit_code: 1,
    }
}

/// The project path holds no `project.godot`.
pub fn invalid_project(detail: &str) -> (e: CliError)
    ensures
        e.error@ == "invalid_project"@,
        e.message@ == detail@,
        e.hint is None,
        e.exit_code == 1,
{
    make_error("invalid_project", String::from_str(detail), 1)
}

/// The operation ran and failed.
pub fn operation_failed(detail: &str) -> (e: CliError)
    ensures
        e.error@ == "operation_failed"@,
        e.message@ == detail@,
        e.hint is None,
        e.exit_code == 1,
{
    make_error("operation_failed", String::from_str(detail), 1)
}

/// The feedback queue could not serve the request.
pub fn feedback_error(detail: &str) -> (e: CliError)
    ensures
        e.error@ == "feedback_error"@,
        e.message@ == detail@,
        e.hint is None,
        e.exit_code == 1,
{
    make_error("feedback_error", String::from_str(detail), 1)
}

/// How a tool call with parsed parameters proceeds.
#[derive(Debug, Clone, PartialEq, Eq)]
pub enum Dispatch {
    /// The project-local feedback queue, which needs no project path check.
    Feedback,
    /// Refuse: `project_path` is missing.
    MissingProjectPath,
    /// Control of the running editor, for this project.
    EditorRun { project_path: String },
    /// A Godot operation through the backends, for this project.
    Operation { project_path: String },
}

/// Choose the path of a tool call from its name and the `project_path`
/// string of its parameters, if there is one.
pub fn dispatch(operation: &str, project_path: Option<&str>) -> (d: Dispatch)
    ensures
        operation@ == "feedback"@ ==> d == Dispatch::Feedback,
        operation@ != "feedback"@ && project_path is None ==> d == Dispatch::MissingProjectPath,
        operation@ != "feedback"@ && project_path is Some ==> if operation@ == "editor_run"@ {
            d matches Dispatch::EditorRun { project_path: p } && p@ == project_path->0@
        } else {
            d matches Dispatch::Operation { project_path: p } && p@ == project_path->0@
        },
{
    if str_eq(operation, "feedback") {
        return Dispatch::Feedback;
    }
    match project_path {
        None => Dispatch::MissingProjectPath,
        Some(p) => if str_eq(operation, "editor_run") {
            Dispatch::EditorRun { project_path: String::from_str(p) }
        } else {
            Dispatch::Operation { project_path: String::from_str(p) }
        },
    }
}

/// The exit status after an operation produced a result: 0 when the result
/// reports success, 1 (a runtime error) when it reports failure.
pub fn result_exit_code(success: bool) -> (code: i32)
    ensures
        code == (if success {
            0i32
        } else {
            1i32
        }),
{
    if success {
        0
    } else {
        1
    }
}

} // verus!
