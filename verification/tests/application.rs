use arsenal::application::{ends_with, parse_args, AppAction, AppState, ArgsError};

fn args(list: &[&str]) -> Result<AppState, ArgsError> {
    parse_args(list.iter().map(|s| s.to_string()).collect())
}

fn told(list: &[&str]) -> (String, String, AppAction) {
    let state = args(list).unwrap();
    assert_eq!(state.base, "");
    (state.input_file, state.output_file, state.action)
}

fn says(input: &str, output: &str, action: AppAction) -> (String, String, AppAction) {
    (input.to_string(), output.to_string(), action)
}

#[test]
fn defaults() {
    assert_eq!(told(&["arsenal"]), says("in.ars", "out.arc", AppAction::Null));
}

#[test]
fn input_file_decides_the_action_without_options() {
    assert_eq!(told(&["arsenal", "a.ars"]), says("a.ars", "out.arc", AppAction::CompileRun));
    assert_eq!(told(&["arsenal", "a.arc"]), says("a.arc", "out.arc", AppAction::Run));
    assert_eq!(told(&["arsenal", "a.txt"]), says("a.txt", "out.arc", AppAction::Null));
    assert_eq!(told(&["arsenal", "ars"]), says("ars", "out.arc", AppAction::Null));
    assert_eq!(told(&["arsenal", ".arc"]), says(".arc", "out.arc", AppAction::Run));
    assert_eq!(told(&["arsenal", "-x", "a.arc"]), says("a.arc", "out.arc", AppAction::Run));
}

#[test]
fn the_last_input_file_is_the_input() {
    assert_eq!(told(&["arsenal", "a.ars", "b.arc"]), says("b.arc", "out.arc", AppAction::Run));
    assert_eq!(told(&["arsenal", "a.txt", "b.arc"]), says("b.arc", "out.arc", AppAction::Run));
    assert_eq!(told(&["arsenal", "b.arc", "a.txt"]), says("a.txt", "out.arc", AppAction::Null));
}

#[test]
fn output_option() {
    assert_eq!(told(&["arsenal", "-o", "x.arc"]), says("in.ars", "x.arc", AppAction::CompileRun));
    assert_eq!(told(&["arsenal", "-o", "-c"]), says("in.ars", "-c", AppAction::CompileRun));
    assert_eq!(
        told(&["arsenal", "-o", "-o", "a.arc"]),
        says("a.arc", "-o", AppAction::CompileRun)
    );
    assert_eq!(
        told(&["arsenal", "-o", "x", "-o", "y"]),
        says("in.ars", "y", AppAction::CompileRun)
    );
    assert_eq!(args(&["arsenal", "-o"]).err(), Some(ArgsError::MissingOutputFile));
    assert_eq!(args(&["arsenal", "a.ars", "-o"]).err(), Some(ArgsError::MissingOutputFile));
    assert_eq!(args(&["arsenal", "-c", "-o"]).err(), Some(ArgsError::MissingOutputFile));
}

#[test]
fn output_option_decides_in_either_order() {
    let expected = says("a.arc", "x.arc", AppAction::CompileRun);
    assert_eq!(told(&["arsenal", "a.arc", "-o", "x.arc"]), expected);
    assert_eq!(told(&["arsenal", "-o", "x.arc", "a.arc"]), expected);
    let expected = says("a.txt", "x", AppAction::CompileRun);
    assert_eq!(told(&["arsenal", "a.txt", "-o", "x"]), expected);
    assert_eq!(told(&["arsenal", "-o", "x", "a.txt"]), expected);
}

#[test]
fn compile_option_decides_in_any_order() {
    assert_eq!(told(&["arsenal", "-c"]), says("in.ars", "out.arc", AppAction::CompileExecutable));
    let expected = says("a.arc", "b", AppAction::CompileExecutable);
    assert_eq!(told(&["arsenal", "-c", "a.arc", "-o", "b"]), expected);
    assert_eq!(told(&["arsenal", "a.arc", "-o", "b", "-c"]), expected);
    assert_eq!(told(&["arsenal", "-o", "b", "-c", "a.arc"]), expected);
    assert_eq!(told(&["arsenal", "a.arc", "-c", "-o", "b"]), expected);
    assert_eq!(
        told(&["arsenal", "a.arc", "-c"]),
        says("a.arc", "out.arc", AppAction::CompileExecutable)
    );
    assert_eq!(
        told(&["arsenal", "-c", "a.arc"]),
        says("a.arc", "out.arc", AppAction::CompileExecutable)
    );
}

#[test]
fn other_options_say_nothing() {
    assert_eq!(
        told(&["arsenal", "-x", "--verbose", "-"]),
        says("in.ars", "out.arc", AppAction::Null)
    );
    assert_eq!(told(&["arsenal", "-x"]), says("in.ars", "out.arc", AppAction::Null));
    assert_eq!(told(&["arsenal", "-x", "a.arc"]), says("a.arc", "out.arc", AppAction::Run));
    assert_eq!(told(&["arsenal", "-oo", "a.ars"]), says("a.ars", "out.arc", AppAction::CompileRun));
    assert_eq!(told(&["arsenal", ""]), says("", "out.arc", AppAction::Null));
}

#[test]
fn program_name_is_passed_over() {
    assert_eq!(told(&["-c"]), says("in.ars", "out.arc", AppAction::Null));
    assert_eq!(told(&["b.arc"]), says("in.ars", "out.arc", AppAction::Null));
    assert_eq!(told(&["-o", "b.arc"]), says("b.arc", "out.arc", AppAction::Run));
    assert_eq!(args(&[]).err(), Some(ArgsError::NoArguments));
}

#[test]
fn suffixes() {
    assert!(ends_with("a.ars", ".ars"));
    assert!(ends_with(".ars", ".ars"));
    assert!(ends_with("anything", ""));
    assert!(!ends_with("ars", ".ars"));
    assert!(!ends_with("a.arsx", ".ars"));
    assert!(!ends_with("a.Ars", ".ars"));
    assert!(ends_with("caf\u{e9}.ars", ".ars"));
    assert!(ends_with("x\u{e9}", "\u{e9}"));
}
