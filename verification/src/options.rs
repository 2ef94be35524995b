//! The command line options, as the getopts crate keeps and parses them.

use vstd::prelude::*;
use vstd::utf8::is_ascii_chars;
use getopts::{Fail, Matches, Options};

verus! {

/// `Options` of getopts, of which nothing is seen but through the names below.
#[verifier::external_type_specification]
#[verifier::external_body]
pub struct ExOptions(getopts::Options);

/// `Matches` of getopts, of which nothing is seen but through the names below.
#[verifier::external_type_specification]
#[verifier::external_body]
pub struct ExMatches(getopts::Matches);

/// `Fail` of getopts, of which nothing is seen but its message.
#[verifier::external_type_specification]
#[verifier::external_body]
pub struct ExFail(getopts::Fail);

/// One declared option: its two names, either of which may be empty, the
/// texts shown for it in the usage, and whether it takes a value.
pub struct OptionRow {
    pub short_name: Seq<char>,
    pub long_name: Seq<char>,
    pub description: Seq<char>,
    pub hint: Seq<char>,
    pub takes_value: bool,
}

/// The options that an `Options` of getopts holds, in the order in which
/// they were declared.
pub uninterp spec fn option_rows(options: Options) -> Seq<OptionRow>;

/// Whether an `Options` of getopts is as `Options::new` made it but for
/// options added by `optopt` and `optflag`: each option may be given once or
/// not at all, options and free arguments may be mixed, and long names are
/// written with two dashes.
pub uninterp spec fn plainly_built(options: Options) -> bool;

/// What `Options::parse` of getopts returns for plainly built options with
/// the given rows and the given arguments.
pub uninterp spec fn parse_result(rows: Seq<OptionRow>, args: Seq<Seq<char>>) -> Result<
    Matches,
    Fail,
>;

/// Whether a `Matches` of getopts knows an option of the given name, as its
/// `opt_defined` method tells.
pub uninterp spec fn defined_in(matches: Matches, name: Seq<char>) -> bool;

/// Whether the option of the given name was given, as `Matches::opt_present`
/// of getopts tells.
pub uninterp spec fn present_in(matches: Matches, name: Seq<char>) -> bool;

/// The value given for the option of the given name, as `Matches::opt_str` of
/// getopts returns it.
pub uninterp spec fn value_in(matches: Matches, name: Seq<char>) -> Option<Seq<char>>;

/// The message that a `Fail` of getopts displays.
pub uninterp spec fn fail_text(fail: Fail) -> Seq<char>;

/// The text that `Options::usage` of getopts derives from plainly built
/// options with the given rows and from the given first line.
pub uninterp spec fn usage_text(rows: Seq<OptionRow>, brief: Seq<char>) -> Seq<char>;

/// The names under which getopts takes an option: a short name of at most
/// one character, which is an ASCII one, a long name that is empty or longer
/// than one character, and not both of them empty.
pub open spec fn names_accepted(short_name: Seq<char>, long_name: Seq<char>) -> bool {
    &&& short_name.len() <= 1
    &&& is_ascii_chars(short_name)
    &&& long_name.len() != 1
    &&& short_name.len() + long_name.len() > 0
}

/// Whether every row has names under which getopts takes an option.
pub open spec fn rows_accepted(rows: Seq<OptionRow>) -> bool {
    forall|i: int|
        0 <= i < rows.len() ==> names_accepted(
            (#[trigger] rows[i]).short_name,
            rows[i].long_name,
        )
}

/// Calls `Options::new` of getopts. Not proved: that the result holds no
/// option and is plainly built.
#[verifier::external_body]
pub(crate) fn new_options() -> (options: Options)
    ensures
        option_rows(options) == Seq::<OptionRow>::empty(),
        plainly_built(options),
{
    Options::new()
}

/// Calls `Options::optopt` of getopts, which panics on names that it does
/// not take. Not proved: that it appends one row, which takes a value, and
/// keeps the options plainly built.
#[verifier::external_body]
pub(crate) fn add_option(
    options: &mut Options,
    short_name: &str,
    long_name: &str,
    description: &str,
    hint: &str,
)
    requires
        names_accepted(short_name@, long_name@),
    ensures
        option_rows(*final(options)) == option_rows(*old(options)).push(
            (OptionRow {
                short_name: short_name@,
                long_name: long_name@,
                description: description@,
                hint: hint@,
                takes_value: true,
            }),
        ),
        plainly_built(*final(options)) == plainly_built(*old(options)),
{
    options.optopt(short_name, long_name, description, hint);
}

/// Calls `Options::optflag` of getopts, which panics on names that it does
/// not take. Not proved: that it appends one row, which takes no value and
/// has an empty hint, and keeps the options plainly built.
#[verifier::external_body]
pub(crate) fn add_flag(options: &mut Options, short_name: &str, long_name: &str, description: &str)
    requires
        names_accepted(short_name@, long_name@),
    ensures
        option_rows(*final(options)) == option_rows(*old(options)).push(
            (OptionRow {
                short_name: short_name@,
                long_name: long_name@,
                description: description@,
                hint: Seq::<char>::empty(),
                takes_value: false,
            }),
        ),
        plainly_built(*final(options)) == plainly_built(*old(options)),
{
    options.optflag(short_name, long_name, description);
}

/// Calls `Options::parse` of getopts, which panics on an option without a
/// name. Not proved: that the result is `parse_result` of the rows and the
/// arguments, and that the matches it returns know every name of every row.
#[verifier::external_body]
pub(crate) fn parse_options(options: &Options, args: &Vec<String>) -> (parsed: Result<Matches, Fail>)
    requires
        plainly_built(*options),
        rows_accepted(option_rows(*options)),
    ensures
        parsed == parse_result(option_rows(*options), args.deep_view()),
        parsed matches Ok(matches) ==> forall|i: int|
            0 <= i < option_rows(*options).len() ==> {
                &&& (#[trigger] option_rows(*options)[i]).short_name.len() == 1 ==> defined_in(
                    matches,
                    option_rows(*options)[i].short_name,
                )
                &&& option_rows(*options)[i].long_name.len() > 1 ==> defined_in(
                    matches,
                    option_rows(*options)[i].long_name,
                )
            },
{
    options.parse(args)
}

/// Calls `Matches::opt_present` of getopts, which panics on a name that the
/// matches do not know. Not proved: that the result is `present_in`.
#[verifier::external_body]
pub(crate) fn option_present(matches: &Matches, name: &str) -> (present: bool)
    requires
        defined_in(*matches, name@),
    ensures
        present == present_in(*matches, name@),
{
    matches.opt_present(name)
}

/// Calls `Matches::opt_str` of getopts, which panics on a name that the
/// matches do not know. Not proved: that the result is `value_in`.
#[verifier::external_body]
pub(crate) fn option_value(matches: &Matches, name: &str) -> (value: Option<String>)
    requires
        defined_in(*matches, name@),
    ensures
        value.deep_view() == value_in(*matches, name@),
{
    matches.opt_str(name)
}

/// Calls `Options::usage` of getopts. Not proved: that the result is
/// `usage_text` of the rows and the first line.
#[verifier::external_body]
pub(crate) fn usage_of(options: &Options, brief: &str) -> (text: String)
    requires
        plainly_built(*options),
        rows_accepted(option_rows(*options)),
    ensures
        text@ == usage_text(option_rows(*options), brief@),
{
    options.usage(brief)
}

/// Calls `to_string` on a `Fail` of getopts. Not proved: that the text is
/// the failure's message.
#[verifier::external_body]
pub(crate) fn fail_message(fail: &Fail) -> (text: String)
    ensures
        text@ == fail_text(*fail),
{
    fail.to_string()
}

} // verus!
