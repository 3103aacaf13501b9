use minishell::actions::{report, Action, Outcome};
use minishell::commands::{
    execute_cat, execute_cd, execute_clear, execute_cp, execute_echo, execute_exit, execute_ls,
    execute_mkdir, execute_mv, execute_pwd, execute_rm, execute_touch, interpret, unquote,
    Commands,
};
use minishell::text::split_words;

fn strings(items: &[&str]) -> Vec<String> {
    items.iter().map(|s| s.to_string()).collect()
}

fn print(s: &str) -> Action {
    Action::Print(s.to_string())
}

fn warn(s: &str) -> Action {
    Action::Warn(s.to_string())
}

fn failed(s: &str) -> Outcome {
    Outcome::Failed(s.to_string())
}

#[test]
fn split_words_collapses_white_space() {
    assert_eq!(split_words("  ls \t -a\u{3000}b \n"), strings(&["ls", "-a", "b"]));
    assert_eq!(split_words(""), Vec::<String>::new());
    assert_eq!(split_words(" \t\n"), Vec::<String>::new());
    assert_eq!(split_words("x"), strings(&["x"]));
}

#[test]
fn parse_knows_every_command() {
    let table = [
        ("echo", Commands::Echo),
        ("exit", Commands::Exit),
        ("pwd", Commands::Pwd),
        ("cat", Commands::Cat),
        ("cp", Commands::Cp),
        ("touch", Commands::Touch),
        ("mkdir", Commands::Mkdir),
        ("ls", Commands::Ls),
        ("rm", Commands::Rm),
        ("cd", Commands::Cd),
        ("mv", Commands::Mv),
        ("clear", Commands::Clear),
    ];
    for (name, command) in table {
        assert_eq!(Commands::parse(name), Ok(command));
        assert_eq!(Commands::parse(&format!("  {}  a b ", name)), Ok(command));
    }
}

#[test]
fn parse_rejects_unknown_and_empty() {
    let err = Err("Command not supported yet".to_string());
    assert_eq!(Commands::parse(""), err);
    assert_eq!(Commands::parse("   "), err);
    assert_eq!(Commands::parse("ECHO hi"), err);
    assert_eq!(Commands::parse("ech"), err);
    assert_eq!(Commands::parse("lsx"), err);
}

#[test]
fn only_exit_stops_the_loop() {
    for name in ["echo", "pwd", "cat", "cp", "touch", "mkdir", "ls", "rm", "cd", "mv", "clear"] {
        for line in [name.to_string(), format!("{} a", name), format!("{} a b", name)] {
            assert!(!interpret(&line).contains(&Action::Exit), "{}", line);
        }
    }
    assert_eq!(interpret("exit"), vec![Action::Exit]);
    assert_eq!(interpret("exit 3 4"), vec![Action::Exit]);
    assert_eq!(execute_exit(), vec![Action::Exit]);
}

#[test]
fn unknown_or_empty_line_gives_one_error() {
    let expected = vec![warn("Error: Command not implemented yet.")];
    assert_eq!(interpret(""), expected);
    assert_eq!(interpret("  "), expected);
    assert_eq!(interpret("frobnicate now"), expected);
}

#[test]
fn echo_strips_quotes_and_joins() {
    assert_eq!(interpret("echo \"a\" 'b' c"), vec![print("a b c")]);
    assert_eq!(execute_echo(&strings(&["\"a\"", "'b'", "c"])), vec![print("a b c")]);
    assert_eq!(interpret("echo   \"hello world\""), vec![print("hello world")]);
    assert_eq!(execute_echo(&strings(&["it's"])), vec![print("its")]);
}

#[test]
fn echo_without_arguments_prints_usage() {
    assert_eq!(execute_echo(&[]), vec![warn("Usage : echo [something_to_echo]")]);
    assert_eq!(interpret("echo"), vec![warn("Usage : echo [something_to_echo]")]);
}

#[test]
fn unquote_drops_both_quote_kinds() {
    assert_eq!(unquote("\"x'y\"z"), "xyz");
    assert_eq!(unquote("\"'"), "");
    assert_eq!(unquote("plain"), "plain");
}

#[test]
fn touch_twice_creates_without_truncating() {
    let first = interpret("touch f");
    let second = interpret("touch f");
    assert_eq!(first, vec![Action::CreateFile("f".to_string())]);
    assert_eq!(second, first);
    for action in [&first[0], &second[0]] {
        assert_eq!(report(action, &Outcome::Done), vec![print("File created successfully")]);
    }
    assert_eq!(execute_touch(&strings(&["f", "g"])), vec![Action::CreateFile("f".to_string())]);
    assert_eq!(execute_touch(&[]), vec![warn("Usage: touch [file_name]")]);
}

#[test]
fn mkdir_twice_reports_existing_directory() {
    let plan = interpret("mkdir d");
    assert_eq!(plan, vec![Action::CreateDir("d".to_string())]);
    assert_eq!(report(&plan[0], &Outcome::Done), vec![print("Folder created successfully")]);
    assert_eq!(
        report(&plan[0], &failed("File exists (os error 17)")),
        vec![warn("Failed to create the new folder : File exists (os error 17)")]
    );
    assert_eq!(
        execute_mkdir(&strings(&["a", "b"])),
        vec![Action::CreateDir("a".to_string()), Action::CreateDir("b".to_string())]
    );
    assert_eq!(execute_mkdir(&[]), vec![warn("Usage : mkdir [folder_name]")]);
}

#[test]
fn cp_of_missing_source_reports_failure() {
    let plan = interpret("cp a b");
    assert_eq!(plan, vec![Action::CopyFile("a".to_string(), "b".to_string())]);
    assert_eq!(
        report(&plan[0], &failed("No such file or directory (os error 2)")),
        vec![warn("Failed to copy file : No such file or directory (os error 2)")]
    );
    assert_eq!(report(&plan[0], &Outcome::Done), vec![print("File copied successfully")]);
    assert_eq!(execute_cp(&strings(&["a"])), vec![warn("Usage: cp [file_src] [file_dest]")]);
}

#[test]
fn cd_to_missing_directory_reports_and_pwd_still_asks() {
    let plan = interpret("cd nonexistent");
    assert_eq!(plan, vec![Action::ChangeDir("nonexistent".to_string())]);
    assert_eq!(
        report(&plan[0], &failed("No such file or directory (os error 2)")),
        vec![warn("Failed to change directory : No such file or directory (os error 2)")]
    );
    assert_eq!(report(&plan[0], &Outcome::Done), vec![]);
    assert_eq!(execute_cd(&strings(&["a", "b"])), vec![warn("Usage : cd [directory_to_move]")]);
    assert_eq!(execute_cd(&[]), vec![warn("Usage : cd [directory_to_move]")]);
    assert_eq!(interpret("pwd"), vec![Action::ShowCwd]);
    assert_eq!(execute_pwd(), vec![Action::ShowCwd]);
    let cwd = Outcome::Text("/home/user".to_string());
    assert_eq!(report(&Action::ShowCwd, &cwd), vec![print("/home/user")]);
    assert_eq!(
        report(&Action::ShowCwd, &Outcome::NotUtf8),
        vec![warn("Unable to convert path to string.")]
    );
    assert_eq!(
        report(&Action::ShowCwd, &failed("gone")),
        vec![warn("Error reading current directory : gone")]
    );
}

#[test]
fn cat_goes_on_after_a_missing_file() {
    let plan = interpret("cat missing1 real2");
    assert_eq!(
        plan,
        vec![Action::ReadFile("missing1".to_string()), Action::ReadFile("real2".to_string())]
    );
    assert_eq!(
        report(&plan[0], &failed("No such file or directory (os error 2)")),
        vec![warn("Error reading file 'missing1' : No such file or directory (os error 2)")]
    );
    assert_eq!(report(&plan[1], &Outcome::Text("hello".to_string())), vec![print("hello")]);
    assert_eq!(execute_cat(&[]), vec![warn("Usage: cat [file_to_cat]")]);
}

#[test]
fn rm_of_directory_reports_failure() {
    let plan = interpret("rm somedir");
    assert_eq!(plan, vec![Action::RemoveFile("somedir".to_string())]);
    assert_eq!(
        report(&plan[0], &failed("Is a directory (os error 21)")),
        vec![warn("Error when removing the file : Is a directory (os error 21)")]
    );
    assert_eq!(report(&plan[0], &Outcome::Done), vec![]);
    assert_eq!(execute_rm(&[]), vec![]);
}

#[test]
fn touch_mv_ls_round_trip() {
    assert_eq!(interpret("touch x"), vec![Action::CreateFile("x".to_string())]);
    let mv = interpret("mv x y");
    assert_eq!(mv, vec![Action::Rename("x".to_string(), "y".to_string())]);
    assert_eq!(report(&mv[0], &Outcome::Done), vec![]);
    let ls = interpret("ls");
    assert_eq!(ls, vec![Action::ListDir(".".to_string())]);
    let names = Outcome::Names(strings(&["y", "other"]));
    assert_eq!(report(&ls[0], &names), vec![print("y"), print("other")]);
    assert_eq!(execute_mv(&strings(&["x"])), vec![warn("Usage: mv [file_src] [file_dest]")]);
}

#[test]
fn ls_lists_each_path_and_reports_failures() {
    assert_eq!(execute_ls(&[]), vec![Action::ListDir(".".to_string())]);
    assert_eq!(
        execute_ls(&strings(&["a", "b"])),
        vec![Action::ListDir("a".to_string()), Action::ListDir("b".to_string())]
    );
    assert_eq!(
        report(&Action::ListDir("a".to_string()), &failed("denied")),
        vec![warn("Failed to read the content of the directory 'a': denied")]
    );
}

#[test]
fn clear_failure_is_not_fatal() {
    assert_eq!(execute_clear(), vec![Action::ClearScreen]);
    assert_eq!(interpret("clear"), vec![Action::ClearScreen]);
    assert_eq!(
        report(&Action::ClearScreen, &failed("no terminal")),
        vec![warn("Failed to clear the screen : no terminal")]
    );
    assert_eq!(report(&Action::ClearScreen, &Outcome::Done), vec![]);
}

#[test]
fn printing_needs_no_report() {
    assert_eq!(report(&print("x"), &Outcome::Done), vec![]);
    assert_eq!(report(&Action::Exit, &Outcome::Done), vec![]);
}
