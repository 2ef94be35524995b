use list_ec2_instances::args::Args;
use list_ec2_instances::cli::{cli_options, interpret, parse_args, usage, Invocation};

fn words(line: &[&str]) -> Vec<String> {
    line.iter().map(|word| (*word).to_owned()).collect()
}

fn run(profile: Option<&str>, region: Option<&str>, pattern: Option<&str>) -> Invocation {
    Invocation::Run(Args {
        flag_profile: profile.map(str::to_owned),
        flag_region: region.map(str::to_owned),
        name_pattern: pattern.map(str::to_owned),
    })
}

#[test]
fn no_option_gives_a_run_without_arguments() {
    assert_eq!(parse_args(&words(&["list"])), run(None, None, None));
}

#[test]
fn empty_command_line_gives_a_run_without_arguments() {
    assert_eq!(parse_args(&words(&[])), run(None, None, None));
}

#[test]
fn program_name_is_not_an_option() {
    assert_eq!(parse_args(&words(&["-h-is-my-name"])), run(None, None, None));
}

#[test]
fn short_name_pattern_is_read() {
    assert_eq!(parse_args(&words(&["list", "-n", "web"])), run(None, None, Some("web")));
    assert_eq!(parse_args(&words(&["list", "-nweb"])), run(None, None, Some("web")));
}

#[test]
fn long_name_pattern_is_read() {
    assert_eq!(
        parse_args(&words(&["list", "--name-pattern=web"])),
        run(None, None, Some("web"))
    );
    assert_eq!(
        parse_args(&words(&["list", "--name-pattern", "web"])),
        run(None, None, Some("web"))
    );
}

#[test]
fn profile_and_region_are_read() {
    assert_eq!(
        parse_args(&words(&["list", "--profile=dev", "--region", "us-west-2"])),
        run(Some("dev"), Some("us-west-2"), None)
    );
}

#[test]
fn all_three_options_are_read_in_any_order() {
    assert_eq!(
        parse_args(&words(&["list", "-n", "db", "--region=eu-west-1", "--profile", "ops"])),
        run(Some("ops"), Some("eu-west-1"), Some("db"))
    );
}

#[test]
fn help_asks_for_the_usage_text() {
    let expected = Invocation::Help(usage("list"));
    assert_eq!(parse_args(&words(&["list", "-h"])), expected);
    assert_eq!(parse_args(&words(&["list", "--help"])), expected);
}

#[test]
fn help_wins_over_other_options() {
    assert_eq!(
        parse_args(&words(&["list", "-n", "web", "--help", "--region=nowhere"])),
        Invocation::Help(usage("list"))
    );
}

#[test]
fn unknown_option_is_rejected() {
    assert_eq!(
        parse_args(&words(&["list", "--bogus"])),
        Invocation::Rejected("Unrecognized option: 'bogus'".to_owned())
    );
}

#[test]
fn missing_value_is_rejected() {
    assert_eq!(
        parse_args(&words(&["list", "--region"])),
        Invocation::Rejected("Argument to option 'region' missing".to_owned())
    );
}

#[test]
fn repeated_option_is_rejected() {
    assert_eq!(
        parse_args(&words(&["list", "-n", "a", "-n", "b"])),
        Invocation::Rejected("Option 'name-pattern' given more than once".to_owned())
    );
}

#[test]
fn value_for_help_is_rejected() {
    assert_eq!(
        parse_args(&words(&["list", "--help=now"])),
        Invocation::Rejected("Option 'help' does not take an argument".to_owned())
    );
}

#[test]
fn usage_names_the_program_and_every_option() {
    let text = usage("list-ec2-instances");
    let expected = [
        "Usage: list-ec2-instances [options]",
        "",
        "Options:",
        "        --profile PROFILE",
        "                        use a specific profile from your credential file",
        "        --region REGION specify a region",
        "    -n, --name-pattern PATTERN",
        "                        specify pattern of instance name",
        "    -h, --help          print usage",
        "",
    ]
    .join("\n");
    assert_eq!(text, expected);
}

#[test]
fn usage_of_empty_command_line_names_the_program() {
    let parsed = cli_options().parse(["-h"]);
    assert_eq!(
        interpret(parsed, "list-ec2-instances"),
        Invocation::Help(usage("list-ec2-instances"))
    );
}

#[test]
fn interpretation_of_parsed_options() {
    let options = cli_options();
    assert_eq!(
        interpret(options.parse(["--profile", "dev"]), "list"),
        run(Some("dev"), None, None)
    );
    assert_eq!(
        interpret(options.parse(["-x"]), "list"),
        Invocation::Rejected("Unrecognized option: 'x'".to_owned())
    );
    assert_eq!(interpret(options.parse(["free", "words"]), "list"), run(None, None, None));
}
