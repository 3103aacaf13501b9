use vstd::prelude::*;
use vstd::string::*;

use crate::actions::{models, Action, ActionModel};
use crate::text::{split_words, white_space, words};

verus! {

/// The commands that the shell knows.
#[derive(Clone, Copy, Debug, PartialEq, Eq, Structural)]
pub enum Commands {
    Echo,
    Cd,
    Ls,
    Pwd,
    Cat,
    Cp,
    Rm,
    Mv,
    Mkdir,
    Exit,
    Touch,
    Clear,
}

/// The command whose name is exactly `w`, if any.
pub open spec fn command_named(w: Seq<char>) -> Option<Commands> {
    if w == "echo"@ {
        Some(Commands::Echo)
    } else if w == "exit"@ {
        Some(Commands::Exit)
    } else if w == "pwd"@ {
        Some(Commands::Pwd)
    } else if w == "cat"@ {
        Some(Commands::Cat)
    } else if w == "cp"@ {
        Some(Commands::Cp)
    } else if w == "touch"@ {
        Some(Commands::Touch)
    } else if w == "mkdir"@ {
        Some(Commands::Mkdir)
    } else if w == "ls"@ {
        Some(Commands::Ls)
    } else if w == "rm"@ {
        Some(Commands::Rm)
    } else if w == "cd"@ {
        Some(Commands::Cd)
    } else if w == "mv"@ {
        Some(Commands::Mv)
    } else if w == "clear"@ {
        Some(Commands::Clear)
    } else {
        None
    }
}

/// The command that the first word of `line` names; none for a line
/// without words.
pub open spec fn first_command(line: Seq<char>) -> Option<Commands> {
    if words(line).len() == 0 {
        None
    } else {
        command_named(words(line)[0])
    }
}

/// True when `w` and the literal `name` hold the same characters.
fn is_named(w: &String, name: &str) -> (r: bool)
    ensures
        r == (w@ == name@),
{
    let n = String::from_str(name);
    *w == n
}

fn lookup(w: &String) -> (r: Option<Commands>)
    ensures
        r == command_named(w@),
{
    if is_named(w, "echo") {
        Some(Commands::Echo)
    } else if is_named(w, "exit") {
        Some(Commands::Exit)
    } else if is_named(w, "pwd") {
        Some(Commands::Pwd)
    } else if is_named(w, "cat") {
        Some(Commands::Cat)
    } else if is_named(w, "cp") {
        Some(Commands::Cp)
    } else if is_named(w, "touch") {
        Some(Commands::Touch)
    } else if is_named(w, "mkdir") {
        Some(Commands::Mkdir)
    } else if is_named(w, "ls") {
        Some(Commands::Ls)
    } else if is_named(w, "rm") {
        Some(Commands::Rm)
    } else if is_named(w, "cd") {
        Some(Commands::Cd)
    } else if is_named(w, "mv") {
        Some(Commands::Mv)
    } else if is_named(w, "clear") {
        Some(Commands::Clear)
    } else {
        None
    }
}

impl Commands {
    /// Selects the command by the first word of `input`, compared exactly.
    pub fn parse(input: &str) -> (r: Result<Self, String>)
        ensures
            r is Ok <==> first_command(input@) is Some,
            r is Ok ==> r->Ok_0 == first_command(input@)->Some_0,
            r is Err ==> r->Err_0@ == "Command not supported yet"@,
    {
        let parts = split_words(input);
        if parts.len() == 0 {
            return Err(String::from_str("Command not supported yet"));
        }
        assert(parts@[0]@ == parts.deep_view()[0]);
        match lookup(&parts[0]) {
            Some(c) => Ok(c),
            None => Err(String::from_str("Command not supported yet")),
        }
    }
}


/// A quote character, which `echo` drops.
pub open spec fn is_quote(c: char) -> bool {
    c == '"' || c == '\''
}

/// `s` without its quote characters.
pub open spec fn unquoted(s: Seq<char>) -> Seq<char>
    decreases s.len(),
{
    if s.len() == 0 {
        seq![]
    } else if is_quote(s.last()) {
        unquoted(s.drop_last())
    } else {
        unquoted(s.drop_last()).push(s.last())
    }
}

/// The texts of `ws` joined by single spaces.
pub open spec fn spaced(ws: Seq<Seq<char>>) -> Seq<char>
    decreases ws.len(),
{
    if ws.len() == 0 {
        seq![]
    } else if ws.len() == 1 {
        ws[0]
    } else {
        spaced(ws.drop_last()) + seq![' '] + ws.last()
    }
}

/// A single line on standard error.
pub open spec fn complaint(text: Seq<char>) -> Seq<ActionModel> {
    seq![ActionModel::Warn(text)]
}

/// `echo`: the arguments without quotes, joined by spaces, as one line.
pub open spec fn echo_plan(args: Seq<Seq<char>>) -> Seq<ActionModel> {
    if args.len() == 0 {
        complaint("Usage : echo [something_to_echo]"@)
    } else {
        seq![ActionModel::Print(spaced(args.map_values(|a: Seq<char>| unquoted(a))))]
    }
}

/// `cat`: read each named file, in order.
pub open spec fn cat_plan(args: Seq<Seq<char>>) -> Seq<ActionModel> {
    if args.len() == 0 {
        complaint("Usage: cat [file_to_cat]"@)
    } else {
        args.map_values(|a: Seq<char>| ActionModel::ReadFile(a))
    }
}

/// `cp`: copy the first of exactly two paths to the second.
pub open spec fn cp_plan(args: Seq<Seq<char>>) -> Seq<ActionModel> {
    if args.len() != 2 {
        complaint("Usage: cp [file_src] [file_dest]"@)
    } else {
        seq![ActionModel::CopyFile(args[0], args[1])]
    }
}

/// `touch`: create the first named file if absent; later arguments are ignored.
pub open spec fn touch_plan(args: Seq<Seq<char>>) -> Seq<ActionModel> {
    if args.len() == 0 {
        complaint("Usage: touch [file_name]"@)
    } else {
        seq![ActionModel::CreateFile(args[0])]
    }
}

/// `mkdir`: create each named directory, one level each.
pub open spec fn mkdir_plan(args: Seq<Seq<char>>) -> Seq<ActionModel> {
    if args.len() == 0 {
        complaint("Usage : mkdir [folder_name]"@)
    } else {
        args.map_values(|a: Seq<char>| ActionModel::CreateDir(a))
    }
}

/// `ls`: list the current directory, or each named one.
pub open spec fn ls_plan(args: Seq<Seq<char>>) -> Seq<ActionModel> {
    if args.len() == 0 {
        seq![ActionModel::ListDir("."@)]
    } else {
        args.map_values(|a: Seq<char>| ActionModel::ListDir(a))
    }
}

/// `rm`: remove each named regular file; nothing without arguments.
pub open spec fn rm_plan(args: Seq<Seq<char>>) -> Seq<ActionModel> {
    args.map_values(|a: Seq<char>| ActionModel::RemoveFile(a))
}

/// `cd`: change to the one named directory.
pub open spec fn cd_plan(args: Seq<Seq<char>>) -> Seq<ActionModel> {
    if args.len() != 1 {
        complaint("Usage : cd [directory_to_move]"@)
    } else {
        seq![ActionModel::ChangeDir(args[0])]
    }
}

/// `mv`: rename the first of exactly two paths to the second.
pub open spec fn mv_plan(args: Seq<Seq<char>>) -> Seq<ActionModel> {
    if args.len() != 2 {
        complaint("Usage: mv [file_src] [file_dest]"@)
    } else {
        seq![ActionModel::Rename(args[0], args[1])]
    }
}

/// What the command `c` does with the arguments `args`.
pub open spec fn plan(c: Commands, args: Seq<Seq<char>>) -> Seq<ActionModel> {
    match c {
        Commands::Echo => echo_plan(args),
        Commands::Exit => seq![ActionModel::Exit],
        Commands::Pwd => seq![ActionModel::ShowCwd],
        Commands::Cat => cat_plan(args),
        Commands::Cp => cp_plan(args),
        Commands::Touch => touch_plan(args),
        Commands::Mkdir => mkdir_plan(args),
        Commands::Ls => ls_plan(args),
        Commands::Rm => rm_plan(args),
        Commands::Cd => cd_plan(args),
        Commands::Mv => mv_plan(args),
        Commands::Clear => seq![ActionModel::ClearScreen],
    }
}

/// What the shell does with one input line: the command that its first
/// word names, applied to the other words; one complaint otherwise.
pub open spec fn respond(line: Seq<char>) -> Seq<ActionModel> {
    match first_command(line) {
        Some(c) => plan(c, words(line).drop_first()),
        None => complaint("Error: Command not implemented yet."@),
    }
}

/// A single complaint on standard error.
fn complain(text: &str) -> (r: Vec<Action>)
    ensures
        models(r@) == complaint(text@),
{
    let r = vec![Action::Warn(String::from_str(text))];
    assert(models(r@) =~= complaint(text@));
    r
}

/// `s` without its quote characters.
pub fn unquote(s: &str) -> (r: String)
    ensures
        r@ == unquoted(s@),
{
    let n = s.unicode_len();
    let mut out = String::new();
    let mut i: usize = 0;
    while i < n
        invariant
            n == s@.len(),
            0 <= i <= n,
            out@ == unquoted(s@.take(i as int)),
        decreases n - i,
    {
        let c = s.get_char(i);
        assert(s@.take(i + 1).drop_last() == s@.take(i as int));
        if c != '"' && c != '\'' {
            out.append(s.substring_char(i, i + 1));
            assert(s@.subrange(i as int, i + 1) =~= seq![c]);
        }
        i = i + 1;
    }
    assert(s@.take(n as int) == s@);
    out
}

/// The `echo` command: the arguments without quote characters, joined by
/// single spaces, as one line.
pub fn execute_echo(args: &[String]) -> (r: Vec<Action>)
    ensures
        models(r@) == echo_plan(args.deep_view()),
{
    if args.len() == 0 {
        return complain("Usage : echo [something_to_echo]");
    }
    let ghost parts = args.deep_view().map_values(|a: Seq<char>| unquoted(a));
    let mut line = unquote(args[0].as_str());
    let mut i: usize = 1;
    assert(parts.take(1) =~= seq![parts[0]]);
    while i < args.len()
        invariant
            1 <= i <= args@.len(),
            parts == args.deep_view().map_values(|a: Seq<char>| unquoted(a)),
            line@ == spaced(parts.take(i as int)),
        decreases args@.len() - i,
    {
        line.append(" ");
        let word = unquote(args[i].as_str());
        line.append(word.as_str());
        proof {
            reveal_strlit(" ");
            assert(parts.take(i + 1).drop_last() =~= parts.take(i as int));
        }
        i = i + 1;
    }
    assert(parts.take(args@.len() as int) =~= parts);
    let r = vec![Action::Print(line)];
    assert(models(r@) =~= echo_plan(args.deep_view()));
    r
}


/// The operations that a command applies to each of its paths in turn.
#[derive(Clone, Copy, Debug)]
enum PathOp {
    Read,
    MakeDir,
    List,
    Remove,
}

spec fn path_action(k: PathOp, p: Seq<char>) -> ActionModel {
    match k {
        PathOp::Read => ActionModel::ReadFile(p),
        PathOp::MakeDir => ActionModel::CreateDir(p),
        PathOp::List => ActionModel::ListDir(p),
        PathOp::Remove => ActionModel::RemoveFile(p),
    }
}

fn make_path_action(k: PathOp, p: String) -> (r: Action)
    ensures
        r@ == path_action(k, p@),
{
    match k {
        PathOp::Read => Action::ReadFile(p),
        PathOp::MakeDir => Action::CreateDir(p),
        PathOp::List => Action::ListDir(p),
        PathOp::Remove => Action::RemoveFile(p),
    }
}

/// The operation `k` on each of `args`, in order.
fn each_path(k: PathOp, args: &[String]) -> (r: Vec<Action>)
    ensures
        models(r@) == args.deep_view().map_values(|a: Seq<char>| path_action(k, a)),
{
    let mut r: Vec<Action> = Vec::new();
    let mut i: usize = 0;
    while i < args.len()
        invariant
            0 <= i <= args@.len(),
            models(r@) == args.deep_view().take(i as int).map_values(|a: Seq<char>| path_action(k, a)),
        decreases args@.len() - i,
    {
        let ghost before = models(r@);
        r.push(make_path_action(k, args[i].clone()));
        assert(args.deep_view()[i as int] == args@[i as int]@);
        assert(models(r@) =~= before.push(path_action(k, args@[i as int]@)));
        assert(models(r@) =~= args.deep_view().take(i + 1).map_values(|a: Seq<char>| path_action(k, a)));
        i = i + 1;
    }
    assert(args.deep_view().take(args@.len() as int) =~= args.deep_view());
    r
}

/// The `exit` command: end the shell.
pub fn execute_exit() -> (r: Vec<Action>)
    ensures
        models(r@) == seq![ActionModel::Exit],
{
    let r = vec![Action::Exit];
    assert(models(r@) =~= seq![ActionModel::Exit]);
    r
}

/// The `pwd` command: print the current working directory.
pub fn execute_pwd() -> (r: Vec<Action>)
    ensures
        models(r@) == seq![ActionModel::ShowCwd],
{
    let r = vec![Action::ShowCwd];
    assert(models(r@) =~= seq![ActionModel::ShowCwd]);
    r
}

/// The `clear` command: clear the terminal.
pub fn execute_clear() -> (r: Vec<Action>)
    ensures
        models(r@) == seq![ActionModel::ClearScreen],
{
    let r = vec![Action::ClearScreen];
    assert(models(r@) =~= seq![ActionModel::ClearScreen]);
    r
}

/// The `cat` command: print each named file, in order.
pub fn execute_cat(args: &[String]) -> (r: Vec<Action>)
    ensures
        models(r@) == cat_plan(args.deep_view()),
{
    if args.len() == 0 {
        return complain("Usage: cat [file_to_cat]");
    }
    let r = each_path(PathOp::Read, args);
    assert(models(r@) =~= cat_plan(args.deep_view()));
    r
}

/// The `mkdir` command: create each named directory, one level each.
pub fn execute_mkdir(args: &[String]) -> (r: Vec<Action>)
    ensures
        models(r@) == mkdir_plan(args.deep_view()),
{
    if args.len() == 0 {
        return complain("Usage : mkdir [folder_name]");
    }
    let r = each_path(PathOp::MakeDir, args);
    assert(models(r@) =~= mkdir_plan(args.deep_view()));
    r
}

/// Lists the entries of the directory at `path`.
fn list_directory(path: &str) -> (r: Action)
    ensures
        r@ == ActionModel::ListDir(path@),
{
    Action::ListDir(String::from_str(path))
}

/// The `ls` command: list the current directory, or each named one.
pub fn execute_ls(args: &[String]) -> (r: Vec<Action>)
    ensures
        models(r@) == ls_plan(args.deep_view()),
{
    if args.len() == 0 {
        let r = vec![list_directory(".")];
        assert(models(r@) =~= ls_plan(args.deep_view()));
        return r;
    }
    let r = each_path(PathOp::List, args);
    assert(models(r@) =~= ls_plan(args.deep_view()));
    r
}

/// The `rm` command: remove each named regular file.
pub fn execute_rm(args: &[String]) -> (r: Vec<Action>)
    ensures
        models(r@) == rm_plan(args.deep_view()),
{
    let r = each_path(PathOp::Remove, args);
    assert(models(r@) =~= rm_plan(args.deep_view()));
    r
}

/// The `cp` command: copy the first path to the second.
pub fn execute_cp(args: &[String]) -> (r: Vec<Action>)
    ensures
        models(r@) == cp_plan(args.deep_view()),
{
    if args.len() != 2 {
        return complain("Usage: cp [file_src] [file_dest]");
    }
    let r = vec![Action::CopyFile(args[0].clone(), args[1].clone())];
    assert(models(r@) =~= cp_plan(args.deep_view()));
    r
}

/// The `touch` command: create the first named file if it is absent.
pub fn execute_touch(args: &[String]) -> (r: Vec<Action>)
    ensures
        models(r@) == touch_plan(args.deep_view()),
{
    if args.len() == 0 {
        return complain("Usage: touch [file_name]");
    }
    let r = vec![Action::CreateFile(args[0].clone())];
    assert(models(r@) =~= touch_plan(args.deep_view()));
    r
}

/// The `cd` command: change the current directory.
pub fn execute_cd(args: &[String]) -> (r: Vec<Action>)
    ensures
        models(r@) == cd_plan(args.deep_view()),
{
    if args.len() != 1 {
        return complain("Usage : cd [directory_to_move]");
    }
    let r = vec![Action::ChangeDir(args[0].clone())];
    assert(models(r@) =~= cd_plan(args.deep_view()));
    r
}

/// The `mv` command: rename the first path to the second.
pub fn execute_mv(args: &[String]) -> (r: Vec<Action>)
    ensures
        models(r@) == mv_plan(args.deep_view()),
{
    if args.len() != 2 {
        return complain("Usage: mv [file_src] [file_dest]");
    }
    let r = vec![Action::Rename(args[0].clone(), args[1].clone())];
    assert(models(r@) =~= mv_plan(args.deep_view()));
    r
}

impl Commands {
    /// What this command does with the arguments `args`.
    pub fn execute(&self, args: &[String]) -> (r: Vec<Action>)
        ensures
            models(r@) == plan(*self, args.deep_view()),
    {
        match self {
            Commands::Echo => execute_echo(args),
            Commands::Exit => execute_exit(),
            Commands::Pwd => execute_pwd(),
            Commands::Cat => execute_cat(args),
            Commands::Cp => execute_cp(args),
            Commands::Touch => execute_touch(args),
            Commands::Mkdir => execute_mkdir(args),
            Commands::Ls => execute_ls(args),
            Commands::Rm => execute_rm(args),
            Commands::Cd => execute_cd(args),
            Commands::Mv => execute_mv(args),
            Commands::Clear => execute_clear(),
        }
    }
}

/// What the shell does with one input line.
pub fn interpret(line: &str) -> (r: Vec<Action>)
    ensures
        models(r@) == respond(line@),
{
    match Commands::parse(line) {
        Ok(c) => {
            let mut args = split_words(line);
            let ghost all = args.deep_view();
            args.remove(0);
            assert(args.deep_view() =~= all.drop_first());
            c.execute(args.as_slice())
        },
        Err(_) => complain("Error: Command not implemented yet."),
    }
}


/// True when some action of `s` ends the shell.
pub open spec fn stops(s: Seq<ActionModel>) -> bool {
    exists|i: int| 0 <= i < s.len() && s[i] is Exit
}

/// A line ends the shell exactly when its first word is `exit`: every
/// other command, with any arguments, leaves the loop running.
pub proof fn lemma_only_exit_stops(line: Seq<char>)
    ensures
        stops(respond(line)) <==> first_command(line) == Some(Commands::Exit),
{
    let r = respond(line);
    if first_command(line) == Some(Commands::Exit) {
        assert(r[0] is Exit);
    } else {
        assert forall|i: int| 0 <= i < r.len() implies !(r[i] is Exit) by {}
    }
}

/// A line of white space alone, the empty line included, has no words.
pub proof fn lemma_blank_line_has_no_words(line: Seq<char>)
    requires
        forall|i: int| 0 <= i < line.len() ==> white_space(#[trigger] line[i]),
    ensures
        words(line).len() == 0,
    decreases line.len(),
{
    if line.len() > 0 {
        lemma_blank_line_has_no_words(line.drop_last());
    }
}

/// A line whose first word names no command, or that has no words, gets
/// exactly one line on standard error and nothing else; the shell goes on.
pub proof fn lemma_unknown_line_one_complaint(line: Seq<char>)
    requires
        first_command(line) is None,
    ensures
        respond(line).len() == 1,
        respond(line)[0] is Warn,
        !stops(respond(line)),
{
    lemma_only_exit_stops(line);
}

} // verus!
