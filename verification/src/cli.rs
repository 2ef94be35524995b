//! Decoding of the command line.

use vstd::prelude::*;
use getopts::{Fail, Matches, Options};
use crate::args::{Args, ArgsView};
use crate::options::{
    add_flag, add_option, defined_in, fail_message, fail_text, new_options, option_present,
    option_rows, option_value, parse_options, parse_result, plainly_built, present_in,
    rows_accepted, usage_of, usage_text, value_in, OptionRow,
};

verus! {

/// What a command line asks for.
#[derive(Debug, PartialEq, Eq)]
pub enum Invocation {
    /// List the instances, with these arguments.
    Run(Args),
    /// Show this usage text and do nothing else.
    Help(String),
    /// The command line was not understood, for this reason.
    Rejected(String),
}

/// The mathematical value of an [`Invocation`].
pub enum InvocationView {
    Run(ArgsView),
    Help(Seq<char>),
    Rejected(Seq<char>),
}

impl DeepView for Invocation {
    type V = InvocationView;

    open spec fn deep_view(&self) -> InvocationView {
        match self {
            Invocation::Run(args) => InvocationView::Run(args@),
            Invocation::Help(text) => InvocationView::Help(text@),
            Invocation::Rejected(reason) => InvocationView::Rejected(reason@),
        }
    }
}

impl View for Invocation {
    type V = InvocationView;

    open spec fn view(&self) -> InvocationView {
        self.deep_view()
    }
}

/// The options that the command line may hold: `--profile`, `--region`, and
/// `--name-pattern` or `-n`, each with a value, and `--help` or `-h`.
pub open spec fn cli_rows() -> Seq<OptionRow> {
    seq![
        OptionRow {
            short_name: ""@,
            long_name: "profile"@,
            description: "use a specific profile from your credential file"@,
            hint: "PROFILE"@,
            takes_value: true,
        },
        OptionRow {
            short_name: ""@,
            long_name: "region"@,
            description: "specify a region"@,
            hint: "REGION"@,
            takes_value: true,
        },
        OptionRow {
            short_name: "n"@,
            long_name: "name-pattern"@,
            description: "specify pattern of instance name"@,
            hint: "PATTERN"@,
            takes_value: true,
        },
        OptionRow {
            short_name: "h"@,
            long_name: "help"@,
            description: "print usage"@,
            hint: Seq::<char>::empty(),
            takes_value: false,
        },
    ]
}

/// The name under which the program is shown where the command line does not
/// tell it.
pub open spec fn fallback_program() -> Seq<char> {
    "list-ec2-instances"@
}

/// The name under which the program was called: the first word of the
/// command line.
pub open spec fn program_of(argv: Seq<Seq<char>>) -> Seq<char> {
    if argv.len() > 0 {
        argv[0]
    } else {
        fallback_program()
    }
}

/// The words of the command line after the program's name.
pub open spec fn arguments_of(argv: Seq<Seq<char>>) -> Seq<Seq<char>> {
    if argv.len() > 0 {
        argv.skip(1)
    } else {
        argv
    }
}

/// The first line of the usage text.
pub open spec fn brief_for(program: Seq<char>) -> Seq<char> {
    "Usage: "@ + program + " [options]"@
}

/// The usage text for a program name.
pub open spec fn usage_for(program: Seq<char>) -> Seq<char> {
    usage_text(cli_rows(), brief_for(program))
}

/// Whether parsed options know the names that the decoding asks them for.
pub open spec fn knows_cli_names(matches: Matches) -> bool {
    &&& defined_in(matches, "h"@)
    &&& defined_in(matches, "n"@)
    &&& defined_in(matches, "profile"@)
    &&& defined_in(matches, "region"@)
}

/// What parsed options ask for: a failure to parse rejects the command line
/// with the parser's message; `-h` asks for the usage text, whatever else was
/// given; otherwise the values given for the three options are the arguments
/// of a run.
pub open spec fn interpretation(parsed: Result<Matches, Fail>, program: Seq<char>) -> InvocationView {
    match parsed {
        Err(fail) => InvocationView::Rejected(fail_text(fail)),
        Ok(matches) => if present_in(matches, "h"@) {
            InvocationView::Help(usage_for(program))
        } else {
            InvocationView::Run(
                ArgsView {
                    flag_profile: value_in(matches, "profile"@),
                    flag_region: value_in(matches, "region"@),
                    name_pattern: value_in(matches, "n"@),
                },
            )
        },
    }
}

/// What a command line asks for.
pub open spec fn invocation_of(argv: Seq<Seq<char>>) -> InvocationView {
    interpretation(parse_result(cli_rows(), arguments_of(argv)), program_of(argv))
}

/// The names of the command line options are names that getopts takes, and
/// parsed options know the four names that the decoding asks them for.
pub proof fn lemma_cli_rows_accepted()
    ensures
        rows_accepted(cli_rows()),
        cli_rows()[0].long_name == "profile"@ && "profile"@.len() > 1,
        cli_rows()[1].long_name == "region"@ && "region"@.len() > 1,
        cli_rows()[2].short_name == "n"@ && "n"@.len() == 1,
        cli_rows()[3].short_name == "h"@ && "h"@.len() == 1,
{
    reveal_strlit("");
    reveal_strlit("n");
    reveal_strlit("h");
    reveal_strlit("profile");
    reveal_strlit("region");
    reveal_strlit("name-pattern");
    reveal_strlit("help");
}

/// Declares the options of the command line.
pub fn cli_options() -> (options: Options)
    ensures
        option_rows(options) == cli_rows(),
        plainly_built(options),
{
    proof {
        lemma_cli_rows_accepted();
    }
    let mut options = new_options();
    add_option(
        &mut options,
        "",
        "profile",
        "use a specific profile from your credential file",
        "PROFILE",
    );
    add_option(&mut options, "", "region", "specify a region", "REGION");
    add_option(&mut options, "n", "name-pattern", "specify pattern of instance name", "PATTERN");
    add_flag(&mut options, "h", "help", "print usage");
    options
}

/// The usage text: a first line that names the program, then the options,
/// one after the other.
pub fn usage(program: &str) -> (text: String)
    ensures
        text@ == usage_for(program@),
{
    let options = cli_options();
    let mut brief = String::from_str("Usage: ");
    brief.append(program);
    brief.append(" [options]");
    proof {
        lemma_cli_rows_accepted();
    }
    usage_of(&options, brief.as_str())
}

/// Decides what parsed options ask for.
pub fn interpret(parsed: Result<Matches, Fail>, program: &str) -> (invocation: Invocation)
    requires
        parsed matches Ok(matches) ==> knows_cli_names(matches),
    ensures
        invocation@ == interpretation(parsed, program@),
{
    match parsed {
        Err(fail) => Invocation::Rejected(fail_message(&fail)),
        Ok(matches) => {
            if option_present(&matches, "h") {
                Invocation::Help(usage(program))
            } else {
                Invocation::Run(
                    Args {
                        flag_profile: option_value(&matches, "profile"),
                        flag_region: option_value(&matches, "region"),
                        name_pattern: option_value(&matches, "n"),
                    },
                )
            }
        },
    }
}

/// Copies the words of a command line that follow the program's name.
fn arguments_after_program(argv: &Vec<String>) -> (arguments: Vec<String>)
    ensures
        arguments.deep_view() == arguments_of(argv.deep_view()),
{
    let mut arguments: Vec<String> = Vec::new();
    let mut i: usize = 0;
    while i < argv.len()
        invariant
            i <= argv.len(),
            arguments.deep_view() == if i == 0 {
                Seq::<Seq<char>>::empty()
            } else {
                argv.deep_view().subrange(1, i as int)
            },
        decreases argv.len() - i,
    {
        if i > 0 {
            let ghost so_far = arguments.deep_view();
            arguments.push(argv[i].clone());
            assert(arguments.deep_view() == so_far.push(argv[i as int]@));
        }
        i += 1;
    }
    arguments
}

/// Decodes a command line, whose first word is the program's name. Where the
/// command line is empty, the program goes by its usual name.
pub fn parse_args(argv: &Vec<String>) -> (invocation: Invocation)
    ensures
        invocation@ == invocation_of(argv.deep_view()),
{
    let options = cli_options();
    let arguments = arguments_after_program(argv);
    proof {
        lemma_cli_rows_accepted();
    }
    let parsed = parse_options(&options, &arguments);
    if argv.len() > 0 {
        interpret(parsed, argv[0].as_str())
    } else {
        interpret(parsed, "list-ec2-instances")
    }
}

} // verus!
