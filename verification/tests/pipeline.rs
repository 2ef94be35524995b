use list_ec2_instances::args::Args;
use list_ec2_instances::cli::usage;
use list_ec2_instances::error::ListError;
use list_ec2_instances::filter::ListRequest;
use list_ec2_instances::instance::{Grouping, RawInstance, Response, Tag};
use list_ec2_instances::pipeline::{begin, plan, Step};
use list_ec2_instances::presenter::{present, Presentation};
use rusoto_core::Region;
use rusoto_credential::{CredentialsError, ProfileProvider};

fn words(line: &[&str]) -> Vec<String> {
    line.iter().map(|word| (*word).to_owned()).collect()
}

fn provider() -> Result<ProfileProvider, CredentialsError> {
    Ok(ProfileProvider::with_configuration("/nonexistent/credentials", "default"))
}

fn args(profile: Option<&str>, region: Option<&str>, pattern: Option<&str>) -> Args {
    Args {
        flag_profile: profile.map(str::to_owned),
        flag_region: region.map(str::to_owned),
        name_pattern: pattern.map(str::to_owned),
    }
}

/// Carries a step out with a stand-in for the list call, and counts the calls.
fn carry_out<F>(step: Step, calls: &mut u32, answer: F) -> Presentation
where
    F: FnOnce(&ListRequest) -> Result<Response, ListError>,
{
    match step {
        Step::Finish(shown) => shown,
        Step::Call { request, .. } => {
            *calls += 1;
            present(&answer(&request))
        }
    }
}

#[test]
fn run_with_defaults_makes_the_call() {
    match begin(&args(None, None, None), provider()) {
        Step::Call { connection, request } => {
            assert_eq!(connection.region, Region::ApNortheast1);
            assert_eq!(connection.config.region, "ap-northeast-1");
            assert_eq!(connection.config.credentials_profile, None);
            assert_eq!(connection.credentials.profile(), "default");
            assert_eq!(request.filters.len(), 1);
            assert_eq!(request.filters[0].field_name, "instance-state-name");
        }
        Step::Finish(shown) => panic!("no call was planned: {:?}", shown),
    }
}

#[test]
fn run_with_all_options_makes_the_call_with_them() {
    match begin(&args(Some("ops"), Some("USWEST2"), Some("web")), provider()) {
        Step::Call { connection, request } => {
            assert_eq!(connection.region, Region::UsWest2);
            assert_eq!(connection.config.region, "us-west-2");
            assert_eq!(connection.config.credentials_profile, Some("ops".to_owned()));
            assert_eq!(connection.credentials.profile(), "ops");
            assert_eq!(request.filters.len(), 2);
            assert_eq!(request.filters[1].accepted_values, vec!["*web*".to_owned()]);
        }
        Step::Finish(shown) => panic!("no call was planned: {:?}", shown),
    }
}

#[test]
fn invalid_region_ends_the_run_without_a_call() {
    let step = begin(&args(None, Some("invalid-region-xyz"), None), provider());
    let mut calls = 0;
    let shown = carry_out(step, &mut calls, |_| panic!("the list call was made"));
    assert_eq!(calls, 0);
    assert_eq!(shown.stdout, "");
    assert_eq!(
        shown.stderr,
        "Error: invalid region 'invalid-region-xyz': Not a valid AWS region: invalid-region-xyz\n"
    );
    assert_ne!(shown.status, 0);
}

#[test]
fn invalid_region_is_reported_whatever_the_credentials() {
    let step = begin(
        &args(None, Some("invalid-region-xyz"), None),
        Err(CredentialsError::new("no home directory")),
    );
    match step {
        Step::Finish(shown) => assert!(shown.stderr.starts_with("Error: invalid region")),
        Step::Call { .. } => panic!("a call was planned"),
    }
}

#[test]
fn missing_credentials_end_the_run_without_a_call() {
    let step = begin(&args(None, None, None), Err(CredentialsError::new("no home directory")));
    let mut calls = 0;
    let shown = carry_out(step, &mut calls, |_| panic!("the list call was made"));
    assert_eq!(calls, 0);
    assert_eq!(
        shown,
        Presentation {
            stdout: String::new(),
            stderr: "Error: credentials unavailable: no home directory\n".to_owned(),
            status: 1,
        }
    );
}

#[test]
fn planned_invalid_region_makes_no_call() {
    let step = plan(&words(&["list", "--region", "invalid-region-xyz"]));
    let mut calls = 0;
    let shown = carry_out(step, &mut calls, |_| panic!("the list call was made"));
    assert_eq!(calls, 0);
    assert_eq!(shown.status, 1);
    assert!(shown.stderr.contains("invalid-region-xyz"));
}

#[test]
fn planned_help_makes_no_call_and_succeeds() {
    let step = plan(&words(&["list", "--help"]));
    let mut calls = 0;
    let shown = carry_out(step, &mut calls, |_| panic!("the list call was made"));
    assert_eq!(calls, 0);
    assert_eq!(shown, Presentation { stdout: usage("list"), stderr: String::new(), status: 0 });
}

#[test]
fn planned_unknown_option_makes_no_call_and_fails() {
    let step = plan(&words(&["list", "--bogus"]));
    let mut calls = 0;
    let shown = carry_out(step, &mut calls, |_| panic!("the list call was made"));
    assert_eq!(calls, 0);
    assert_eq!(shown.stderr, "Error: Unrecognized option: 'bogus'\n");
    assert_eq!(shown.status, 1);
}

#[test]
fn end_to_end_with_two_instances() {
    let step = begin(&args(None, None, Some("web")), provider());
    let mut calls = 0;
    let shown = carry_out(step, &mut calls, |request| {
        assert_eq!(request.filters.len(), 2);
        Ok(Response {
            reservations: Some(vec![Grouping {
                instances: Some(vec![
                    RawInstance {
                        instance_id: Some("i-1".to_owned()),
                        public_ip_address: Some("10.0.0.1".to_owned()),
                        tags: Some(vec![Tag {
                            key: Some("Name".to_owned()),
                            value: Some("web-1".to_owned()),
                        }]),
                        state: None,
                    },
                    RawInstance {
                        instance_id: None,
                        public_ip_address: None,
                        tags: None,
                        state: None,
                    },
                ]),
            }]),
        })
    });
    assert_eq!(calls, 1);
    assert_eq!(shown.stdout.lines().collect::<Vec<_>>(), vec!["i-1\tweb-1\t10.0.0.1", "(unknown)\t-\t-"]);
    assert_eq!(shown.stderr, "");
    assert_eq!(shown.status, 0);
}

#[test]
fn end_to_end_with_no_groupings() {
    let step = begin(&args(None, None, None), provider());
    let mut calls = 0;
    let shown = carry_out(step, &mut calls, |_| Ok(Response { reservations: Some(vec![]) }));
    assert_eq!(calls, 1);
    assert_eq!(shown.stdout, "No matching instances.\n");
    assert_eq!(shown.status, 0);
}

#[test]
fn end_to_end_with_a_transport_error() {
    let step = begin(&args(None, None, None), provider());
    let mut calls = 0;
    let shown = carry_out(step, &mut calls, |_| {
        Err(ListError::Transport { description: "request timed out".to_owned() })
    });
    assert_eq!(calls, 1);
    assert_eq!(shown.stdout, "");
    assert_eq!(shown.stderr, "Error: request timed out\n");
    assert_ne!(shown.status, 0);
}

#[test]
fn planned_run_calls_or_reports_missing_credentials() {
    match plan(&words(&["list", "-n", "web", "--profile", "ops", "--region", "eu-west-1"])) {
        Step::Call { connection, request } => {
            assert_eq!(connection.region, Region::EuWest1);
            assert_eq!(connection.config.region, "eu-west-1");
            assert_eq!(connection.config.credentials_profile, Some("ops".to_owned()));
            assert_eq!(connection.credentials.profile(), "ops");
            assert_eq!(request.filters.len(), 2);
        }
        Step::Finish(shown) => {
            assert!(shown.stderr.starts_with("Error: credentials unavailable: "));
            assert_eq!(shown.stdout, "");
            assert_eq!(shown.status, 1);
        }
    }
}
