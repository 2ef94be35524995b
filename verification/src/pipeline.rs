//! The steps of a run around its one list call.
//!
//! The call itself is not made here. [`plan`] decides from the command line
//! whether there is a call to make and with what; the caller makes it and
//! hands its outcome to [`crate::presenter::present`].

use vstd::prelude::*;
use rusoto_credential::{CredentialsError, ProfileProvider};
use crate::args::{Args, ArgsView};
use crate::cli::{invocation_of, parse_args, Invocation, InvocationView};
use crate::connection::{
    connect_with, connection_view, resolution, resolve_connection, Connection, ConnectionView,
};
use crate::error::{ListError, ListErrorView};
use crate::filter::{create_request, filters_for, ListRequest, ListRequestView};
use crate::presenter::{
    failure_of, notice_of, present_failure, present_notice, Presentation, PresentationView,
};
use crate::region::region_choice;

verus! {

/// What to do next.
#[derive(Debug)]
pub enum Step {
    /// Make the list call with this connection and this request.
    Call { connection: Connection, request: ListRequest },
    /// Make no call: write this and end.
    Finish(Presentation),
}

/// The mathematical value of a [`Step`].
pub enum StepView {
    Call { connection: ConnectionView, request: ListRequestView },
    Finish(PresentationView),
}

impl View for Step {
    type V = StepView;

    open spec fn view(&self) -> StepView {
        match self {
            Step::Call { connection, request } => StepView::Call {
                connection: connection@,
                request: request@,
            },
            Step::Finish(shown) => StepView::Finish(shown@),
        }
    }
}

/// The step that a resolved connection, or the failure to resolve one, leads
/// to: the call with the request for the arguments, or the end of the run
/// with the failure.
pub open spec fn step_of(args: ArgsView, connection: Result<ConnectionView, ListErrorView>) -> StepView {
    match connection {
        Ok(made) => StepView::Call {
            connection: made,
            request: ListRequestView { filters: filters_for(args.name_pattern) },
        },
        Err(error) => StepView::Finish(failure_of(error)),
    }
}

/// The step for the arguments of a run, given what setting up a source of
/// credentials returned.
pub open spec fn step_for(args: ArgsView, found: Result<ProfileProvider, CredentialsError>) -> StepView {
    step_of(args, resolution(args, found))
}

/// Turns a resolved connection, or the failure to resolve one, into a step.
fn step_from(args: &Args, connection: Result<Connection, ListError>) -> (step: Step)
    requires
        connection matches Ok(made) ==> made.well_formed(),
    ensures
        step@ == step_of(args@, connection_view(connection)),
        step matches Step::Call { connection: made, .. } ==> made.well_formed(),
{
    match connection {
        Ok(made) => Step::Call { connection: made, request: create_request(args) },
        Err(error) => Step::Finish(present_failure(&error)),
    }
}

/// Decides the step for the arguments of a run from what setting up a source
/// of credentials returned.
pub fn begin(args: &Args, found: Result<ProfileProvider, CredentialsError>) -> (step: Step)
    ensures
        step@ == step_for(args@, found),
        step matches Step::Call { connection, .. } ==> connection.well_formed(),
{
    step_from(args, connect_with(args, found))
}

/// Decides the first step of a run from its command line. A run that was
/// asked for the usage text, whose command line was not understood or whose
/// region was refused ends here, whatever the credentials: no call is made.
pub fn plan(argv: &Vec<String>) -> (step: Step)
    ensures
        match invocation_of(argv.deep_view()) {
            InvocationView::Help(text) => step@ == StepView::Finish(notice_of(text)),
            InvocationView::Rejected(reason) => step@ == StepView::Finish(
                failure_of(ListErrorView::InvalidArguments { message: reason }),
            ),
            InvocationView::Run(args) => {
                &&& exists|found: Result<ProfileProvider, CredentialsError>|
                    step@ == #[trigger] step_for(args, found)
                &&& region_choice(args.flag_region) matches Err(refusal) ==> step@
                    == StepView::Finish(failure_of(refusal))
            },
        },
        step matches Step::Call { connection, .. } ==> connection.well_formed(),
{
    match parse_args(argv) {
        Invocation::Help(text) => Step::Finish(present_notice(text)),
        Invocation::Rejected(reason) => Step::Finish(
            present_failure(&ListError::InvalidArguments { message: reason }),
        ),
        Invocation::Run(args) => {
            let connection = resolve_connection(&args);
            let ghost resolved = connection_view(connection);
            let step = step_from(&args, connection);
            proof {
                let found = choose|found: Result<ProfileProvider, CredentialsError>|
                    resolved == #[trigger] resolution(args@, found);
                assert(step@ == step_for(args@, found));
            }
            step
        },
    }
}

} // verus!
