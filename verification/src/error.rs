//! What can go wrong between the command line and the listing.

use vstd::prelude::*;

verus! {

/// A failure that ends the run. None comes from walking a response or from
/// summarizing an instance: those steps cannot fail.
#[derive(Debug, PartialEq, Eq)]
pub enum ListError {
    /// The command line was not understood.
    InvalidArguments { message: String },
    /// No source of credentials could be set up.
    CredentialsUnavailable { message: String },
    /// The region that was asked for is not one the provider knows.
    InvalidRegion { input: String, reason: String },
    /// The list call itself failed.
    Transport { description: String },
}

/// The mathematical value of a [`ListError`].
pub enum ListErrorView {
    InvalidArguments { message: Seq<char> },
    CredentialsUnavailable { message: Seq<char> },
    InvalidRegion { input: Seq<char>, reason: Seq<char> },
    Transport { description: Seq<char> },
}

impl DeepView for ListError {
    type V = ListErrorView;

    open spec fn deep_view(&self) -> ListErrorView {
        match self {
            ListError::InvalidArguments { message } => ListErrorView::InvalidArguments {
                message: message@,
            },
            ListError::CredentialsUnavailable { message } => ListErrorView::CredentialsUnavailable {
                message: message@,
            },
            ListError::InvalidRegion { input, reason } => ListErrorView::InvalidRegion {
                input: input@,
                reason: reason@,
            },
            ListError::Transport { description } => ListErrorView::Transport {
                description: description@,
            },
        }
    }
}

impl View for ListError {
    type V = ListErrorView;

    open spec fn view(&self) -> ListErrorView {
        self.deep_view()
    }
}

/// The text that describes a failure. A transport failure is described by
/// the collaborator's own words, unchanged.
pub open spec fn description_of(error: ListErrorView) -> Seq<char> {
    match error {
        ListErrorView::InvalidArguments { message } => message,
        ListErrorView::CredentialsUnavailable { message } => "credentials unavailable: "@
            + message,
        ListErrorView::InvalidRegion { input, reason } => "invalid region '"@ + input + "': "@
            + reason,
        ListErrorView::Transport { description } => description,
    }
}

impl ListError {
    /// Describes the failure in one line of text.
    pub fn describe(&self) -> (text: String)
        ensures
            text@ == description_of(self@),
    {
        match self {
            ListError::InvalidArguments { message } => message.clone(),
            ListError::CredentialsUnavailable { message } => {
                let mut text = String::from_str("credentials unavailable: ");
                text.append(message.as_str());
                text
            },
            ListError::InvalidRegion { input, reason } => {
                let mut text = String::from_str("invalid region '");
                text.append(input.as_str());
                text.append("': ");
                text.append(reason.as_str());
                text
            },
            ListError::Transport { description } => description.clone(),
        }
    }
}

} // verus!
