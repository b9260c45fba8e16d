//! The command line: which file to read, which to write, and what to do.

use vstd::prelude::*;
use vstd::string::*;

verus! {

/// What the program is asked to do.
#[derive(Clone, Copy, Debug, PartialEq, Eq, Structural)]
pub enum AppAction {
    /// Run a compiled object.
    Run,
    /// Assemble a source and run the image.
    CompileRun,
    /// Assemble a source and write the object.
    CompileExecutable,
    /// Nothing was asked: no option decides and no input file was given,
    /// or its name tells neither a source nor an object.
    Null,
}

#[derive(Debug)]
pub struct AppState {
    pub input_file: String,
    pub output_file: String,
    pub action: AppAction,
    /// The folder of the input file. `parse_args` leaves it empty: the host
    /// fills it in once it has looked at the file system.
    pub base: String,
}

#[derive(Clone, Copy, Debug, PartialEq, Eq, Structural)]
pub enum ArgsError {
    /// The arguments do not even hold the program's name.
    NoArguments,
    /// `-o` is the last argument: no file follows it.
    MissingOutputFile,
}

/// What a command line says, as plain values.
pub struct Options {
    pub input: Seq<char>,
    pub output: Seq<char>,
    pub action: AppAction,
    pub base: Seq<char>,
}

impl View for AppState {
    type V = Options;

    open spec fn view(&self) -> Options {
        Options {
            input: self.input_file@,
            output: self.output_file@,
            action: self.action,
            base: self.base@,
        }
    }
}

/// What the arguments read so far hold: the input and output files, and
/// whether `-c`, `-o` and an input file were among them.
pub struct Seen {
    pub input: Seq<char>,
    pub output: Seq<char>,
    pub compile: bool,
    pub output_given: bool,
    pub input_given: bool,
}

/// Whether `text` ends with `suffix`.
pub open spec fn spec_ends_with(text: Seq<char>, suffix: Seq<char>) -> bool {
    text.len() >= suffix.len() && text.skip(text.len() - suffix.len()) == suffix
}

pub open spec fn is_option(arg: Seq<char>) -> bool {
    arg.len() > 0 && arg[0] == '-'
}

/// The action that an input file's name asks for.
pub open spec fn action_of_file(file: Seq<char>) -> AppAction {
    if spec_ends_with(file, ".ars"@) {
        AppAction::CompileRun
    } else if spec_ends_with(file, ".arc"@) {
        AppAction::Run
    } else {
        AppAction::Null
    }
}

/// The action that the arguments ask for, in whatever order they stand:
/// with `-c` to assemble and write; else with `-o` to assemble and run;
/// else what the name of the input file asks for, where one was given.
/// Without `-c`, `-o` and an input file nothing is asked: the default
/// input's name does not decide.
pub open spec fn action_of(seen: Seen) -> AppAction {
    if seen.compile {
        AppAction::CompileExecutable
    } else if seen.output_given {
        AppAction::CompileRun
    } else if seen.input_given {
        action_of_file(seen.input)
    } else {
        AppAction::Null
    }
}

/// What the arguments from `at` on add to `seen`. `-o` takes the argument
/// behind it, whatever it is, as the output file; `-c` is noted; any other
/// argument that starts with `-` says nothing; every other argument is the
/// input file, the last of them in the end.
pub open spec fn spec_scan(args: Seq<Seq<char>>, at: int, seen: Seen) -> Result<Seen, ArgsError>
    decreases args.len() - at,
{
    if at < 0 || at >= args.len() {
        Ok(seen)
    } else if args[at] == "-o"@ {
        if at + 1 >= args.len() {
            Err(ArgsError::MissingOutputFile)
        } else {
            spec_scan(args, at + 2, Seen { output: args[at + 1], output_given: true, ..seen })
        }
    } else if args[at] == "-c"@ {
        spec_scan(args, at + 1, Seen { compile: true, ..seen })
    } else if is_option(args[at]) {
        spec_scan(args, at + 1, seen)
    } else {
        spec_scan(args, at + 1, Seen { input: args[at], input_given: true, ..seen })
    }
}

/// Before any argument is read: the input is `in.ars`, the output
/// `out.arc`.
pub open spec fn nothing_seen() -> Seen {
    Seen {
        input: "in.ars"@,
        output: "out.arc"@,
        compile: false,
        output_given: false,
        input_given: false,
    }
}

/// What the command line says: the first argument is the program's name,
/// the others give the files and the action. The folder of the input file
/// is left empty.
pub open spec fn spec_parse_args(args: Seq<Seq<char>>) -> Result<Options, ArgsError> {
    if args.len() == 0 {
        Err(ArgsError::NoArguments)
    } else {
        match spec_scan(args, 1, nothing_seen()) {
            Ok(seen) => Ok(
                Options {
                    input: seen.input,
                    output: seen.output,
                    action: action_of(seen),
                    base: Seq::empty(),
                },
            ),
            Err(e) => Err(e),
        }
    }
}

/// `-c` that is read as an argument of its own stays noted to the end.
pub proof fn compile_stays(args: Seq<Seq<char>>, at: int, seen: Seen)
    requires
        seen.compile,
    ensures
        spec_scan(args, at, seen) matches Ok(end) ==> end.compile && action_of(end)
            == AppAction::CompileExecutable,
    decreases args.len() - at,
{
    if 0 <= at < args.len() {
        if args[at] == "-o"@ {
            if at + 1 < args.len() {
                compile_stays(
                    args,
                    at + 2,
                    Seen { output: args[at + 1], output_given: true, ..seen },
                );
            }
        } else if args[at] == "-c"@ {
            compile_stays(args, at + 1, Seen { compile: true, ..seen });
        } else if is_option(args[at]) {
            compile_stays(args, at + 1, seen);
        } else {
            compile_stays(args, at + 1, Seen { input: args[at], input_given: true, ..seen });
        }
    }
}

/// `-o` that is read as an argument of its own stays noted to the end:
/// without `-c` the action is to assemble and run, wherever the input file
/// stands and whatever its name.
pub proof fn output_stays(args: Seq<Seq<char>>, at: int, seen: Seen)
    requires
        seen.output_given,
    ensures
        spec_scan(args, at, seen) matches Ok(end) ==> end.output_given && (end.compile
            || action_of(end) == AppAction::CompileRun),
    decreases args.len() - at,
{
    if 0 <= at < args.len() {
        if args[at] == "-o"@ {
            if at + 1 < args.len() {
                output_stays(
                    args,
                    at + 2,
                    Seen { output: args[at + 1], output_given: true, ..seen },
                );
            }
        } else if args[at] == "-c"@ {
            output_stays(args, at + 1, Seen { compile: true, ..seen });
        } else if is_option(args[at]) {
            output_stays(args, at + 1, seen);
        } else {
            output_stays(args, at + 1, Seen { input: args[at], input_given: true, ..seen });
        }
    }
}

/// A command line without `-c`, `-o` and an input file asks for nothing:
/// the program's name alone, or with arguments that all start with `-`.
pub proof fn nothing_given_asks_nothing(args: Seq<Seq<char>>, at: int, seen: Seen)
    requires
        !seen.compile && !seen.output_given && !seen.input_given,
        forall|i: int|
            at <= i < args.len() ==> is_option(#[trigger] args[i]) && args[i] != "-o"@ && args[i]
                != "-c"@,
    ensures
        spec_scan(args, at, seen) == Ok::<Seen, ArgsError>(seen),
        action_of(seen) == AppAction::Null,
    decreases args.len() - at,
{
    if 0 <= at < args.len() {
        assert(is_option(args[at]));
        nothing_given_asks_nothing(args, at + 1, seen);
    }
}

/// The program's name alone asks for nothing: the files are the defaults
/// and the action is `Null`.
pub proof fn program_name_alone_asks_nothing(program: Seq<char>)
    ensures
        spec_parse_args(seq![program]) == Ok::<Options, ArgsError>(
            Options {
                input: "in.ars"@,
                output: "out.arc"@,
                action: AppAction::Null,
                base: Seq::empty(),
            },
        ),
{
}

/// `-o` with its file asks to assemble and run whether it stands before the
/// input file or behind it, and whatever the input file's name is.
pub proof fn output_asks_to_compile_and_run(
    program: Seq<char>,
    file: Seq<char>,
    output: Seq<char>,
)
    requires
        !is_option(file),
    ensures
        spec_parse_args(seq![program, file, "-o"@, output]) == Ok::<Options, ArgsError>(
            Options { input: file, output, action: AppAction::CompileRun, base: Seq::empty() },
        ),
        spec_parse_args(seq![program, "-o"@, output, file]) == spec_parse_args(
            seq![program, file, "-o"@, output],
        ),
{
    reveal_strlit("-o");
    reveal_strlit("-c");
    reveal_with_fuel(spec_scan, 4);
    assert("-o"@[0] == '-' && "-c"@[0] == '-');
    assert(file != "-o"@ && file != "-c"@);
}

/// The texts of the arguments.
pub open spec fn texts(args: Seq<String>) -> Seq<Seq<char>> {
    Seq::new(args.len(), |i: int| args[i]@)
}

/// Whether `text` ends with `suffix`.
pub fn ends_with(text: &str, suffix: &str) -> (r: bool)
    ensures
        r == spec_ends_with(text@, suffix@),
{
    let n = text.unicode_len();
    let m = suffix.unicode_len();
    if n < m {
        return false;
    }
    let ghost tail = text@.skip(n - m);
    let mut i: usize = 0;
    while i < m
        invariant
            i <= m <= n,
            n == text@.len(),
            m == suffix@.len(),
            tail == text@.skip(n - m),
            forall|j: int| 0 <= j < i ==> tail[j] == suffix@[j],
        decreases m - i,
    {
        if text.get_char(n - m + i) != suffix.get_char(i) {
            return false;
        }
        i += 1;
    }
    assert(tail =~= suffix@);
    true
}

fn starts_option(arg: &str) -> (r: bool)
    ensures
        r == is_option(arg@),
{
    arg.unicode_len() > 0 && arg.get_char(0) == '-'
}

fn same(a: &str, b: &str) -> (r: bool)
    ensures
        r == (a@ == b@),
{
    String::from_str(a) == String::from_str(b)
}

/// The action that an input file's name asks for.
fn file_action(file: &str) -> (action: AppAction)
    ensures
        action == action_of_file(file@),
{
    if ends_with(file, ".ars") {
        AppAction::CompileRun
    } else if ends_with(file, ".arc") {
        AppAction::Run
    } else {
        AppAction::Null
    }
}

/// Reads the command line. The action does not depend on the order of the
/// arguments: `-c` asks to assemble and write, `-o` without `-c` to
/// assemble and run, and only without both does the name of the input file
/// decide, where one is given; else nothing is asked.
pub fn parse_args(args: Vec<String>) -> (r: Result<AppState, ArgsError>)
    ensures
        r matches Ok(state) ==> spec_parse_args(texts(args@)) == Ok::<Options, ArgsError>(state@),
        r matches Err(e) ==> spec_parse_args(texts(args@)) == Err::<Options, ArgsError>(e),
{
    if args.len() == 0 {
        return Err(ArgsError::NoArguments);
    }
    let ghost all = texts(args@);
    let mut input = String::from_str("in.ars");
    let mut output = String::from_str("out.arc");
    let mut compile = false;
    let mut output_given = false;
    let mut input_given = false;
    let mut at: usize = 1;
    while at < args.len()
        invariant
            1 <= at <= args.len(),
            all == texts(args@),
            spec_scan(
                all,
                at as int,
                Seen { input: input@, output: output@, compile, output_given, input_given },
            ) == spec_scan(all, 1, nothing_seen()),
        decreases args.len() - at,
    {
        let arg = args[at].as_str();
        if same(arg, "-o") {
            if at + 1 >= args.len() {
                return Err(ArgsError::MissingOutputFile);
            }
            output = args[at + 1].clone();
            output_given = true;
            at += 2;
        } else if same(arg, "-c") {
            compile = true;
            at += 1;
        } else if starts_option(arg) {
            at += 1;
        } else {
            input = args[at].clone();
            input_given = true;
            at += 1;
        }
    }
    let action = if compile {
        AppAction::CompileExecutable
    } else if output_given {
        AppAction::CompileRun
    } else if input_given {
        file_action(input.as_str())
    } else {
        AppAction::Null
    };
    Ok(AppState { input_file: input, output_file: output, action, base: String::new() })
}

} // verus!
