//! The credentials and the region that a run connects with.

use vstd::prelude::*;
use rusoto_core::Region;
use rusoto_credential::{CredentialsError, ProfileProvider};
use crate::args::{Args, ArgsView};
use crate::credentials::{
    find_provider, provider_choice, provider_profile, provider_view, scoped_provider,
};
use crate::error::{ListError, ListErrorView};
use crate::region::{find_region, name_of_region, region_choice, region_name};
use crate::text::clone_text;

verus! {

/// The settings of a connection, made once for a run and not changed after.
#[derive(Debug, PartialEq, Eq)]
pub struct ConnectionConfig {
    /// The credentials profile that was asked for, if any.
    pub credentials_profile: Option<String>,
    /// The name of the region to address.
    pub region: String,
}

/// The mathematical value of a [`ConnectionConfig`].
pub struct ConnectionConfigView {
    pub credentials_profile: Option<Seq<char>>,
    pub region: Seq<char>,
}

impl DeepView for ConnectionConfig {
    type V = ConnectionConfigView;

    open spec fn deep_view(&self) -> ConnectionConfigView {
        ConnectionConfigView {
            credentials_profile: self.credentials_profile.deep_view(),
            region: self.region@,
        }
    }
}

impl View for ConnectionConfig {
    type V = ConnectionConfigView;

    open spec fn view(&self) -> ConnectionConfigView {
        self.deep_view()
    }
}

/// What the client of a run is made from: a source of credentials and a
/// region, together with the settings they were resolved from.
#[derive(Debug)]
pub struct Connection {
    pub credentials: ProfileProvider,
    pub region: Region,
    pub config: ConnectionConfig,
}

/// The mathematical value of a [`Connection`]: the profile that its source of
/// credentials reads, its region, and its settings.
pub struct ConnectionView {
    pub profile: Seq<char>,
    pub region: Region,
    pub config: ConnectionConfigView,
}

impl View for Connection {
    type V = ConnectionView;

    open spec fn view(&self) -> ConnectionView {
        ConnectionView {
            profile: provider_profile(self.credentials),
            region: self.region,
            config: self.config@,
        }
    }
}

impl Connection {
    /// The settings name the region, and the source of credentials reads the
    /// profile that the settings ask for.
    pub open spec fn well_formed(&self) -> bool {
        &&& self.config.region@ == region_name(self.region)
        &&& self.config.credentials_profile matches Some(name) ==> provider_profile(
            self.credentials,
        ) == name@
    }
}

/// The connection made of a region that was accepted and of what is known of
/// the source of credentials.
pub open spec fn assembled(
    args: ArgsView,
    region: Region,
    provider: Result<Seq<char>, ListErrorView>,
) -> Result<ConnectionView, ListErrorView> {
    match provider {
        Err(error) => Err(error),
        Ok(profile) => Ok(
            ConnectionView {
                profile: profile,
                region: region,
                config: ConnectionConfigView {
                    credentials_profile: args.flag_profile,
                    region: region_name(region),
                },
            },
        ),
    }
}

/// The connection for the given arguments, given what setting up a source of
/// credentials returned. The region is settled first: where it is refused,
/// the failure is `InvalidRegion` whatever the credentials.
pub open spec fn resolution(
    args: ArgsView,
    found: Result<ProfileProvider, CredentialsError>,
) -> Result<ConnectionView, ListErrorView> {
    match region_choice(args.flag_region) {
        Err(error) => Err(error),
        Ok(region) => assembled(args, region, provider_choice(found, args.flag_profile)),
    }
}

/// The view of a connection result.
pub open spec fn connection_view(result: Result<Connection, ListError>) -> Result<
    ConnectionView,
    ListErrorView,
> {
    match result {
        Ok(connection) => Ok(connection@),
        Err(error) => Err(error@),
    }
}

/// Puts a connection together for a region that was accepted.
fn assemble(args: &Args, region: Region, credentials: Result<ProfileProvider, ListError>) -> (connection:
    Result<Connection, ListError>)
    requires
        credentials matches Ok(source) ==> (args@.flag_profile matches Some(name)
            ==> provider_profile(source) == name),
    ensures
        connection_view(connection) == assembled(args@, region, provider_view(credentials)),
        connection matches Ok(made) ==> made.well_formed(),
{
    let credentials = credentials?;
    let config = ConnectionConfig {
        credentials_profile: clone_text(&args.flag_profile),
        region: name_of_region(&region),
    };
    Ok(Connection { credentials, region, config })
}

/// Resolves the connection from the arguments and from what setting up a
/// source of credentials returned.
pub fn connect_with(args: &Args, found: Result<ProfileProvider, CredentialsError>) -> (connection:
    Result<Connection, ListError>)
    ensures
        connection_view(connection) == resolution(args@, found),
        connection matches Ok(made) ==> made.well_formed(),
{
    let region = find_region(args)?;
    assemble(args, region, scoped_provider(found, &args.flag_profile))
}

/// Resolves the connection for a run: the region first, then the source of
/// credentials, which is set up only where the region was accepted.
pub fn resolve_connection(args: &Args) -> (connection: Result<Connection, ListError>)
    ensures
        exists|found: Result<ProfileProvider, CredentialsError>|
            connection_view(connection) == #[trigger] resolution(args@, found),
        connection matches Ok(made) ==> made.well_formed(),
        region_choice(args@.flag_region) matches Err(refusal) ==> connection_view(connection)
            == Err::<ConnectionView, ListErrorView>(refusal),
{
    match find_region(args) {
        Err(error) => {
            proof {
                let spared: Result<ProfileProvider, CredentialsError> = arbitrary();
                assert(Err::<ConnectionView, ListErrorView>(error@) == resolution(args@, spared));
            }
            Err(error)
        },
        Ok(region) => {
            let credentials = find_provider(args);
            proof {
                let found = choose|found: Result<ProfileProvider, CredentialsError>|
                    provider_view(credentials) == #[trigger] provider_choice(
                        found,
                        args@.flag_profile,
                    );
                assert(assembled(args@, region, provider_view(credentials)) == resolution(
                    args@,
                    found,
                ));
            }
            assemble(args, region, credentials)
        },
    }
}

} // verus!
