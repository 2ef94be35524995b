//! Which region a run addresses.

use vstd::prelude::*;
use rusoto_core::region::ParseRegionError;
use rusoto_core::Region;
use crate::args::Args;
use crate::error::{ListError, ListErrorView};

verus! {

/// `Region` of rusoto_core, of which nothing is seen but its name.
#[verifier::external_type_specification]
#[verifier::external_body]
pub struct ExRegion(rusoto_core::Region);

/// `ParseRegionError` of rusoto_core, of which nothing is seen but its message.
#[verifier::external_type_specification]
#[verifier::external_body]
pub struct ExParseRegionError(rusoto_core::region::ParseRegionError);

/// What `Region::from_str` of rusoto_core makes of a text: the region that
/// the text denotes, or the refusal.
pub uninterp spec fn region_parse(text: Seq<char>) -> Result<Region, ParseRegionError>;

/// The name of a region, as `Region::name` of rusoto_core gives it.
pub uninterp spec fn region_name(region: Region) -> Seq<char>;

/// The message that a `ParseRegionError` of rusoto_core displays.
pub uninterp spec fn parse_error_text(error: ParseRegionError) -> Seq<char>;

/// The name of the region that is addressed where none is asked for.
pub open spec fn default_region() -> Seq<char> {
    "ap-northeast-1"@
}

/// Calls `Region::from_str` of rusoto_core. Not proved: that the outcome is
/// `region_parse` of the text, and that `ap-northeast-1` is parsed to a
/// region of that name.
#[verifier::external_body]
fn parse_region(value: &str) -> (parsed: Result<Region, ParseRegionError>)
    ensures
        parsed == region_parse(value@),
        parsed is Err ==> value@ != default_region(),
        parsed matches Ok(region) ==> (value@ == default_region() ==> region_name(region)
            == value@),
{
    <Region as std::str::FromStr>::from_str(value)
}

/// Calls `Region::name` of rusoto_core. Not proved: that the text is
/// `region_name` of the region.
#[verifier::external_body]
pub(crate) fn name_of_region(region: &Region) -> (name: String)
    ensures
        name@ == region_name(*region),
{
    region.name().to_owned()
}

/// Calls `to_string` on a `ParseRegionError` of rusoto_core. Not proved: that
/// the text is the error's message.
#[verifier::external_body]
fn parse_error_message(error: &ParseRegionError) -> (text: String)
    ensures
        text@ == parse_error_text(*error),
{
    error.to_string()
}

/// The region that a parser's answer stands for, or the failure that names
/// the text as it was given together with the parser's refusal.
pub open spec fn region_outcome(parsed: Result<Region, ParseRegionError>, input: Seq<char>) -> Result<
    Region,
    ListErrorView,
> {
    match parsed {
        Ok(region) => Ok(region),
        Err(error) => Err(
            ListErrorView::InvalidRegion { input: input, reason: parse_error_text(error) },
        ),
    }
}

/// The region to address: the one asked for where the provider's library
/// knows it, the default where none is asked for, and a failure where the
/// text is not a region.
pub open spec fn region_choice(requested: Option<Seq<char>>) -> Result<Region, ListErrorView> {
    match requested {
        Some(text) => region_outcome(region_parse(text), text),
        None => region_outcome(region_parse(default_region()), default_region()),
    }
}

/// The view of a region result.
pub open spec fn region_view(result: Result<Region, ListError>) -> Result<Region, ListErrorView> {
    match result {
        Ok(region) => Ok(region),
        Err(error) => Err(error@),
    }
}

/// Turns the parser's answer for `input` into the region or into an
/// `InvalidRegion` failure.
pub fn region_from(parsed: Result<Region, ParseRegionError>, input: &str) -> (region: Result<
    Region,
    ListError,
>)
    ensures
        region_view(region) == region_outcome(parsed, input@),
{
    match parsed {
        Ok(region) => Ok(region),
        Err(error) => Err(
            ListError::InvalidRegion {
                input: String::from_str(input),
                reason: parse_error_message(&error),
            },
        ),
    }
}

/// Finds the region to address. A region that is asked for must be one that
/// the provider's library knows; where none is asked for, the default is
/// returned.
pub fn find_region(args: &Args) -> (region: Result<Region, ListError>)
    ensures
        region_view(region) == region_choice(args@.flag_region),
        args.flag_region is None ==> (region matches Ok(found) && region_name(found)
            == default_region()),
{
    match &args.flag_region {
        Some(value) => region_from(parse_region(value.as_str()), value.as_str()),
        None => region_from(parse_region("ap-northeast-1"), "ap-northeast-1"),
    }
}

} // verus!
