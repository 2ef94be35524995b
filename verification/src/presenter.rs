//! What a run writes, and the status it ends with.

use vstd::prelude::*;
use crate::error::{description_of, ListError, ListErrorView};
use crate::instance::{RawInstanceView, Response, ResponseView};
use crate::summary::{line_of, summary_of, InstanceSummary, InstanceSummaryView};
use crate::walker::{walk, walked};

verus! {

/// All that a run writes to its two streams, and its exit status.
#[derive(Debug, PartialEq, Eq)]
pub struct Presentation {
    pub stdout: String,
    pub stderr: String,
    pub status: i32,
}

/// The mathematical value of a [`Presentation`].
pub struct PresentationView {
    pub stdout: Seq<char>,
    pub stderr: Seq<char>,
    pub status: int,
}

impl DeepView for Presentation {
    type V = PresentationView;

    open spec fn deep_view(&self) -> PresentationView {
        PresentationView { stdout: self.stdout@, stderr: self.stderr@, status: self.status as int }
    }
}

impl View for Presentation {
    type V = PresentationView;

    open spec fn view(&self) -> PresentationView {
        self.deep_view()
    }
}

/// The summaries of a sequence of instances, in the same order.
pub open spec fn summaries_of(instances: Seq<RawInstanceView>) -> Seq<InstanceSummaryView> {
    instances.map_values(|instance: RawInstanceView| summary_of(instance))
}

/// The lines shown for a sequence of summaries, in the same order.
pub open spec fn lines_from(summaries: Seq<InstanceSummaryView>) -> Seq<Seq<char>> {
    summaries.map_values(|summary: InstanceSummaryView| line_of(summary))
}

/// The lines shown for a sequence of instances, in the same order.
pub open spec fn lines_of(instances: Seq<RawInstanceView>) -> Seq<Seq<char>> {
    lines_from(summaries_of(instances))
}

/// The text made of the given lines, each ended by a line feed.
pub open spec fn text_of(lines: Seq<Seq<char>>) -> Seq<char>
    decreases lines.len(),
{
    if lines.len() == 0 {
        Seq::empty()
    } else {
        text_of(lines.drop_last()) + lines.last() + seq!['\n']
    }
}

/// The line written where a listing holds no instance.
pub open spec fn no_match_line() -> Seq<char> {
    "No matching instances."@
}

/// The status of a run that failed.
pub open spec fn failure_status() -> int {
    1
}

/// What is written for a response: one line for each instance, in the order
/// of the response, or the line that says that none matched. The status is 0
/// in both cases, and nothing goes to the error stream.
pub open spec fn listing_of(response: ResponseView) -> PresentationView {
    let lines = lines_of(walked(response));
    PresentationView {
        stdout: if lines.len() == 0 {
            no_match_line() + seq!['\n']
        } else {
            text_of(lines)
        },
        stderr: Seq::empty(),
        status: 0,
    }
}

/// What is written for a failure: one line on the error stream that holds
/// the failure's description, nothing on the output stream, and a status
/// other than 0.
pub open spec fn failure_of(error: ListErrorView) -> PresentationView {
    PresentationView {
        stdout: Seq::empty(),
        stderr: "Error: "@ + description_of(error) + seq!['\n'],
        status: failure_status(),
    }
}

/// What is written for a text asked for by the user: the text as it is, and
/// status 0.
pub open spec fn notice_of(text: Seq<char>) -> PresentationView {
    PresentationView { stdout: text, stderr: Seq::empty(), status: 0 }
}

/// What is written for the outcome of a list call.
pub open spec fn presentation_of(outcome: Result<ResponseView, ListErrorView>) -> PresentationView {
    match outcome {
        Ok(response) => listing_of(response),
        Err(error) => failure_of(error),
    }
}

/// The view of the outcome of a list call.
pub open spec fn outcome_view(outcome: Result<Response, ListError>) -> Result<
    ResponseView,
    ListErrorView,
> {
    match outcome {
        Ok(response) => Ok(response@),
        Err(error) => Err(error@),
    }
}

/// Summarizes the instances of a response, in the order of the response.
pub fn summarize(response: &Response) -> (summaries: Vec<InstanceSummary>)
    ensures
        summaries.deep_view() == summaries_of(walked(response@)),
{
    let instances = walk(response);
    let mut summaries: Vec<InstanceSummary> = Vec::new();
    let mut i: usize = 0;
    while i < instances.len()
        invariant
            i <= instances.len(),
            instances.deep_view() == walked(response@),
            summaries.deep_view() == summaries_of(instances.deep_view().take(i as int)),
        decreases instances.len() - i,
    {
        let ghost so_far = summaries.deep_view();
        summaries.push(InstanceSummary::from_instance(instances[i]));
        assert(summaries.deep_view() == so_far.push(summary_of(instances[i as int]@)));
        i += 1;
    }
    summaries
}

/// The lines shown for the given summaries, in the same order.
pub fn lines_for(summaries: &Vec<InstanceSummary>) -> (lines: Vec<String>)
    ensures
        lines.deep_view() == lines_from(summaries.deep_view()),
{
    let mut lines: Vec<String> = Vec::new();
    let mut i: usize = 0;
    while i < summaries.len()
        invariant
            i <= summaries.len(),
            lines.deep_view() == lines_from(summaries.deep_view().take(i as int)),
        decreases summaries.len() - i,
    {
        let ghost so_far = lines.deep_view();
        lines.push(summaries[i].to_line());
        assert(lines.deep_view() == so_far.push(line_of(summaries[i as int]@)));
        i += 1;
    }
    lines
}

/// The lines shown for a response, one for each instance, in the order of the
/// response.
pub fn summary_lines(response: &Response) -> (lines: Vec<String>)
    ensures
        lines.deep_view() == lines_of(walked(response@)),
{
    let summaries = summarize(response);
    lines_for(&summaries)
}

/// Joins lines into one text, each line ended by a line feed.
pub fn join_lines(lines: &Vec<String>) -> (text: String)
    ensures
        text@ == text_of(lines.deep_view()),
{
    let mut text = String::new();
    let mut i: usize = 0;
    proof {
        reveal_strlit("\n");
    }
    while i < lines.len()
        invariant
            i <= lines.len(),
            "\n"@ == seq!['\n'],
            text@ == text_of(lines.deep_view().take(i as int)),
        decreases lines.len() - i,
    {
        text.append(lines[i].as_str());
        text.append("\n");
        proof {
            let next = lines.deep_view().take(i + 1);
            assert(next.drop_last() == lines.deep_view().take(i as int));
        }
        i += 1;
    }
    assert(lines.deep_view().take(i as int) == lines.deep_view());
    text
}

/// Presents a response: its instances line by line, or the line that says
/// that none matched.
pub fn present_listing(response: &Response) -> (shown: Presentation)
    ensures
        shown@ == listing_of(response@),
{
    let lines = summary_lines(response);
    let stdout = if lines.len() == 0 {
        proof {
            reveal_strlit("\n");
            assert("\n"@ == seq!['\n']);
        }
        let mut text = String::from_str("No matching instances.");
        text.append("\n");
        text
    } else {
        join_lines(&lines)
    };
    Presentation { stdout, stderr: String::new(), status: 0 }
}

/// Presents a failure: its description on the error stream, and a status
/// other than 0.
pub fn present_failure(error: &ListError) -> (shown: Presentation)
    ensures
        shown@ == failure_of(error@),
        shown.status != 0,
        shown.stdout@.len() == 0,
{
    proof {
        reveal_strlit("\n");
        assert("\n"@ == seq!['\n']);
    }
    let mut text = String::from_str("Error: ");
    text.append(error.describe().as_str());
    text.append("\n");
    Presentation { stdout: String::new(), stderr: text, status: 1 }
}

/// Presents a text that the user asked for.
pub fn present_notice(text: String) -> (shown: Presentation)
    ensures
        shown@ == notice_of(text@),
{
    Presentation { stdout: text, stderr: String::new(), status: 0 }
}

/// Presents the outcome of a list call.
pub fn present(outcome: &Result<Response, ListError>) -> (shown: Presentation)
    ensures
        shown@ == presentation_of(outcome_view(*outcome)),
        outcome is Ok <==> shown.status == 0,
        outcome is Err ==> shown.stdout@.len() == 0,
{
    match outcome {
        Ok(response) => present_listing(response),
        Err(error) => present_failure(error),
    }
}

/// A text made of at least one line is not empty.
pub proof fn lemma_text_of_lines_is_not_empty(lines: Seq<Seq<char>>)
    requires
        lines.len() > 0,
    ensures
        text_of(lines).len() > 0,
{
}

/// A run that succeeded can be told from one that failed, also where it
/// found nothing: a listing always writes to the output stream and ends with
/// status 0, a failure writes nothing there and ends with another status.
pub proof fn law_success_is_told_from_failure(response: ResponseView, error: ListErrorView)
    ensures
        listing_of(response).stdout.len() > 0,
        listing_of(response).stderr.len() == 0,
        listing_of(response).status == 0,
        failure_of(error).stdout.len() == 0,
        failure_of(error).stderr.len() > 0,
        failure_of(error).status != 0,
{
    let lines = lines_of(walked(response));
    if lines.len() > 0 {
        lemma_text_of_lines_is_not_empty(lines);
    }
}

/// A listing has one line for each instance of the response, in the order of
/// the response: the line at a place is the line of the instance at that place.
pub proof fn law_one_line_for_each_instance(response: ResponseView, i: int)
    requires
        0 <= i < walked(response).len(),
    ensures
        lines_of(walked(response)).len() == walked(response).len(),
        lines_of(walked(response))[i] == line_of(summary_of(walked(response)[i])),
{
}

} // verus!
