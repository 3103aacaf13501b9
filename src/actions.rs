use vstd::prelude::*;
use vstd::string::*;

verus! {

/// One thing for the shell's host to do: print a line, or perform one
/// operation on the operating system.
#[derive(Debug, PartialEq, Eq)]
pub enum Action {
    /// Print the text and a newline on standard output.
    Print(String),
    /// Print the text and a newline on standard error.
    Warn(String),
    /// End the process with status 0.
    Exit,
    /// Resolve the current working directory.
    ShowCwd,
    /// Read a whole file as text.
    ReadFile(String),
    /// Copy a file to a destination path.
    CopyFile(String, String),
    /// Open a file for writing, creating it when absent, never truncating.
    CreateFile(String),
    /// Create one directory level.
    CreateDir(String),
    /// Enumerate the names in a directory.
    ListDir(String),
    /// Remove a regular file.
    RemoveFile(String),
    /// Change the current working directory.
    ChangeDir(String),
    /// Rename or move a path.
    Rename(String, String),
    /// Clear the terminal.
    ClearScreen,
}

/// What an `Action` means, with its texts as character sequences.
pub enum ActionModel {
    Print(Seq<char>),
    Warn(Seq<char>),
    Exit,
    ShowCwd,
    ReadFile(Seq<char>),
    CopyFile(Seq<char>, Seq<char>),
    CreateFile(Seq<char>),
    CreateDir(Seq<char>),
    ListDir(Seq<char>),
    RemoveFile(Seq<char>),
    ChangeDir(Seq<char>),
    Rename(Seq<char>, Seq<char>),
    ClearScreen,
}

impl View for Action {
    type V = ActionModel;

    open spec fn view(&self) -> ActionModel {
        match self {
            Action::Print(s) => ActionModel::Print(s@),
            Action::Warn(s) => ActionModel::Warn(s@),
            Action::Exit => ActionModel::Exit,
            Action::ShowCwd => ActionModel::ShowCwd,
            Action::ReadFile(p) => ActionModel::ReadFile(p@),
            Action::CopyFile(a, b) => ActionModel::CopyFile(a@, b@),
            Action::CreateFile(p) => ActionModel::CreateFile(p@),
            Action::CreateDir(p) => ActionModel::CreateDir(p@),
            Action::ListDir(p) => ActionModel::ListDir(p@),
            Action::RemoveFile(p) => ActionModel::RemoveFile(p@),
            Action::ChangeDir(p) => ActionModel::ChangeDir(p@),
            Action::Rename(a, b) => ActionModel::Rename(a@, b@),
            Action::ClearScreen => ActionModel::ClearScreen,
        }
    }
}

/// The meanings of a sequence of actions.
pub open spec fn models(s: Seq<Action>) -> Seq<ActionModel> {
    s.map_values(|a: Action| a@)
}

/// True of an action that only prints a line.
pub open spec fn is_message(a: ActionModel) -> bool {
    a is Print || a is Warn
}

/// What came of performing an action on the operating system.
#[derive(Debug, PartialEq, Eq)]
pub enum Outcome {
    /// It succeeded and yields nothing.
    Done,
    /// It succeeded and yields a text (a file's contents, a path).
    Text(String),
    /// It succeeded and yields names (a directory's entries).
    Names(Vec<String>),
    /// It succeeded, but the path it yields is not valid UTF-8.
    NotUtf8,
    /// It failed, with the system's description of the error.
    Failed(String),
}

/// The line that reports a failed outcome: `prefix` and the error; no
/// line for any other outcome.
pub open spec fn report_failure(o: Outcome, prefix: Seq<char>) -> Seq<ActionModel> {
    match o {
        Outcome::Failed(e) => seq![ActionModel::Warn(prefix + e@)],
        _ => seq![],
    }
}

/// The lines that report the outcome `o` of the action `a`.
pub open spec fn report_of(a: ActionModel, o: Outcome) -> Seq<ActionModel> {
    match a {
        ActionModel::ShowCwd => match o {
            Outcome::Text(p) => seq![ActionModel::Print(p@)],
            Outcome::NotUtf8 => seq![ActionModel::Warn("Unable to convert path to string."@)],
            _ => report_failure(o, "Error reading current directory : "@),
        },
        ActionModel::ReadFile(p) => match o {
            Outcome::Text(t) => seq![ActionModel::Print(t@)],
            _ => report_failure(o, "Error reading file '"@ + p + "' : "@),
        },
        ActionModel::CopyFile(_, _) => match o {
            Outcome::Failed(_) => report_failure(o, "Failed to copy file : "@),
            _ => seq![ActionModel::Print("File copied successfully"@)],
        },
        ActionModel::CreateFile(_) => match o {
            Outcome::Failed(_) => report_failure(o, "Failed to create file : "@),
            _ => seq![ActionModel::Print("File created successfully"@)],
        },
        ActionModel::CreateDir(_) => match o {
            Outcome::Failed(_) => report_failure(o, "Failed to create the new folder : "@),
            _ => seq![ActionModel::Print("Folder created successfully"@)],
        },
        ActionModel::ListDir(p) => match o {
            Outcome::Names(ns) => ns.deep_view().map_values(|n: Seq<char>| ActionModel::Print(n)),
            _ => report_failure(o, "Failed to read the content of the directory '"@ + p + "': "@),
        },
        ActionModel::RemoveFile(_) => report_failure(o, "Error when removing the file : "@),
        ActionModel::ChangeDir(_) => report_failure(o, "Failed to change directory : "@),
        ActionModel::Rename(_, _) => report_failure(o, "Failed to rename the file : "@),
        ActionModel::ClearScreen => report_failure(o, "Failed to clear the screen : "@),
        _ => seq![],
    }
}

/// `prefix` followed by `detail`.
fn joined_text(prefix: &str, detail: &str) -> (r: String)
    ensures
        r@ == prefix@ + detail@,
{
    String::from_str(prefix).concat(detail)
}

/// The failure line of `o` under `prefix`, if `o` is a failure.
fn failure_lines(o: &Outcome, prefix: &str) -> (r: Vec<Action>)
    ensures
        models(r@) == report_failure(*o, prefix@),
{
    match o {
        Outcome::Failed(e) => {
            let r = vec![Action::Warn(joined_text(prefix, e.as_str()))];
            assert(models(r@) =~= report_failure(*o, prefix@));
            r
        },
        _ => {
            let r: Vec<Action> = Vec::new();
            assert(models(r@) =~= report_failure(*o, prefix@));
            r
        },
    }
}

/// One line that prints `s` on standard output.
fn print_line(s: &str) -> (r: Vec<Action>)
    ensures
        models(r@) == seq![ActionModel::Print(s@)],
{
    let r = vec![Action::Print(String::from_str(s))];
    assert(models(r@) =~= seq![ActionModel::Print(s@)]);
    r
}

/// The lines that report `outcome`, what came of performing `action`. They
/// only print: no report ends the shell or touches the file system.
pub fn report(action: &Action, outcome: &Outcome) -> (r: Vec<Action>)
    ensures
        models(r@) == report_of(action@, *outcome),
        forall|i: int| 0 <= i < r@.len() ==> is_message(#[trigger] r@[i]@),
{
    let r = match action {
        Action::ShowCwd => match outcome {
            Outcome::Text(p) => print_line(p.as_str()),
            Outcome::NotUtf8 => {
                let r = vec![Action::Warn(String::from_str("Unable to convert path to string."))];
                assert(models(r@) =~= report_of(action@, *outcome));
                r
            },
            _ => failure_lines(outcome, "Error reading current directory : "),
        },
        Action::ReadFile(p) => match outcome {
            Outcome::Text(t) => print_line(t.as_str()),
            _ => {
                let prefix = joined_text("Error reading file '", p.as_str()).concat("' : ");
                failure_lines(outcome, prefix.as_str())
            },
        },
        Action::CopyFile(_, _) => match outcome {
            Outcome::Failed(_) => failure_lines(outcome, "Failed to copy file : "),
            _ => print_line("File copied successfully"),
        },
        Action::CreateFile(_) => match outcome {
            Outcome::Failed(_) => failure_lines(outcome, "Failed to create file : "),
            _ => print_line("File created successfully"),
        },
        Action::CreateDir(_) => match outcome {
            Outcome::Failed(_) => failure_lines(outcome, "Failed to create the new folder : "),
            _ => print_line("Folder created successfully"),
        },
        Action::ListDir(p) => match outcome {
            Outcome::Names(ns) => {
                let mut r: Vec<Action> = Vec::new();
                let mut i: usize = 0;
                while i < ns.len()
                    invariant
                        0 <= i <= ns@.len(),
                        models(r@) == ns.deep_view().take(i as int).map_values(
                            |n: Seq<char>| ActionModel::Print(n),
                        ),
                    decreases ns@.len() - i,
                {
                    let ghost before = models(r@);
                    r.push(Action::Print(ns[i].clone()));
                    assert(ns.deep_view()[i as int] == ns@[i as int]@);
                    assert(models(r@) =~= before.push(ActionModel::Print(ns@[i as int]@)));
                    assert(models(r@) =~= ns.deep_view().take(i + 1).map_values(
                        |n: Seq<char>| ActionModel::Print(n),
                    ));
                    i = i + 1;
                }
                assert(ns.deep_view().take(ns@.len() as int) =~= ns.deep_view());
                r
            },
            _ => {
                let prefix = joined_text("Failed to read the content of the directory '", p.as_str()).concat("': ");
                failure_lines(outcome, prefix.as_str())
            },
        },
        Action::RemoveFile(_) => failure_lines(outcome, "Error when removing the file : "),
        Action::ChangeDir(_) => failure_lines(outcome, "Failed to change directory : "),
        Action::Rename(_, _) => failure_lines(outcome, "Failed to rename the file : "),
        Action::ClearScreen => failure_lines(outcome, "Failed to clear the screen : "),
        _ => {
            let r: Vec<Action> = Vec::new();
            assert(models(r@) =~= report_of(action@, *outcome));
            r
        },
    };
    proof {
        lemma_reports_only_print(action@, *outcome);
        assert forall|i: int| 0 <= i < r@.len() implies is_message(#[trigger] r@[i]@) by {
            assert(models(r@)[i] == r@[i]@);
        }
    }
    r
}

/// Every line of a report only prints.
pub proof fn lemma_reports_only_print(a: ActionModel, o: Outcome)
    ensures
        forall|i: int| 0 <= i < report_of(a, o).len() ==> is_message(#[trigger] report_of(a, o)[i]),
{
}

} // verus!
