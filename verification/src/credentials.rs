//! Where a run takes its credentials from.

use vstd::prelude::*;
use rusoto_credential::{CredentialsError, ProfileProvider};
use crate::args::Args;
use crate::error::{ListError, ListErrorView};

verus! {

/// `ProfileProvider` of rusoto_credential, of which nothing is seen but the
/// profile that it reads.
#[verifier::external_type_specification]
#[verifier::external_body]
pub struct ExProfileProvider(rusoto_credential::ProfileProvider);

/// `CredentialsError` of rusoto_credential, of which nothing is seen but its
/// message.
#[verifier::external_type_specification]
#[verifier::external_body]
pub struct ExCredentialsError(rusoto_credential::CredentialsError);

/// The name of the profile that a `ProfileProvider` of rusoto_credential
/// reads, as its `profile` method gives it.
pub uninterp spec fn provider_profile(provider: ProfileProvider) -> Seq<char>;

/// The message that a `CredentialsError` of rusoto_credential displays.
pub uninterp spec fn credentials_error_text(error: CredentialsError) -> Seq<char>;

/// Calls `ProfileProvider::new` of rusoto_credential, which looks for the
/// credentials file and the profile name in the process environment. Nothing
/// is claimed of what it returns.
#[verifier::external_body]
fn default_provider() -> Result<ProfileProvider, CredentialsError> {
    ProfileProvider::new()
}

/// Calls `ProfileProvider::set_profile` of rusoto_credential. Not proved:
/// that the provider reads the given profile afterwards.
#[verifier::external_body]
fn set_profile(provider: &mut ProfileProvider, profile: String)
    ensures
        provider_profile(*final(provider)) == profile@,
{
    provider.set_profile(profile);
}

/// Calls `to_string` on a `CredentialsError` of rusoto_credential. Not
/// proved: that the text is the error's message.
#[verifier::external_body]
fn credentials_error_message(error: &CredentialsError) -> (text: String)
    ensures
        text@ == credentials_error_text(*error),
{
    error.to_string()
}

/// What is known of a provider result: the profile that the provider reads,
/// or the failure.
pub open spec fn provider_view(result: Result<ProfileProvider, ListError>) -> Result<
    Seq<char>,
    ListErrorView,
> {
    match result {
        Ok(provider) => Ok(provider_profile(provider)),
        Err(error) => Err(error@),
    }
}

/// The provider to use, given what setting one up returned: scoped to the
/// profile that was asked for, left as it came where none was asked for, and a
/// `CredentialsUnavailable` failure where none could be set up, whether or
/// not a profile was asked for.
pub open spec fn provider_choice(
    found: Result<ProfileProvider, CredentialsError>,
    profile: Option<Seq<char>>,
) -> Result<Seq<char>, ListErrorView> {
    match found {
        Ok(provider) => Ok(
            match profile {
                Some(name) => name,
                None => provider_profile(provider),
            },
        ),
        Err(error) => Err(
            ListErrorView::CredentialsUnavailable { message: credentials_error_text(error) },
        ),
    }
}

/// Scopes a provider that was set up to the profile that was asked for, and
/// turns a failure to set one up into `CredentialsUnavailable`.
pub fn scoped_provider(
    found: Result<ProfileProvider, CredentialsError>,
    profile: &Option<String>,
) -> (provider: Result<ProfileProvider, ListError>)
    ensures
        provider_view(provider) == provider_choice(found, profile.deep_view()),
{
    match found {
        Ok(mut provider) => {
            if let Some(name) = profile {
                set_profile(&mut provider, name.clone());
            }
            Ok(provider)
        },
        Err(error) => Err(
            ListError::CredentialsUnavailable { message: credentials_error_message(&error) },
        ),
    }
}

/// Sets up the source of credentials for a run. Whether one can be set up is
/// for the process environment to decide; where it can, it reads the profile
/// that was asked for, and where it cannot, the failure is
/// `CredentialsUnavailable`.
pub fn find_provider(args: &Args) -> (provider: Result<ProfileProvider, ListError>)
    ensures
        exists|found: Result<ProfileProvider, CredentialsError>|
            provider_view(provider) == #[trigger] provider_choice(found, args@.flag_profile),
        provider matches Ok(source) ==> (args@.flag_profile matches Some(name)
            ==> provider_profile(source) == name),
        provider matches Err(error) ==> error is CredentialsUnavailable,
{
    let found = default_provider();
    scoped_provider(found, &args.flag_profile)
}

} // verus!
