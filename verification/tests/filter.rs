use list_ec2_instances::args::Args;
use list_ec2_instances::filter::{
    create_filters, create_request, create_running_instance_filter, create_tag_name_filter,
    FilterPredicate,
};

fn args(name_pattern: Option<&str>) -> Args {
    Args { flag_profile: None, flag_region: None, name_pattern: name_pattern.map(str::to_owned) }
}

fn running() -> FilterPredicate {
    FilterPredicate {
        field_name: "instance-state-name".to_owned(),
        accepted_values: vec!["running".to_owned()],
    }
}

#[test]
fn running_filter_is_fixed() {
    assert_eq!(create_running_instance_filter(), running());
}

#[test]
fn name_filter_wraps_the_pattern_in_wildcards() {
    let filter = create_tag_name_filter(&"web".to_owned());
    assert_eq!(filter.field_name, "tag:Name");
    assert_eq!(filter.accepted_values, vec!["*web*".to_owned()]);
}

#[test]
fn wildcards_in_the_pattern_are_not_escaped() {
    let filter = create_tag_name_filter(&"a*b?".to_owned());
    assert_eq!(filter.accepted_values, vec!["*a*b?*".to_owned()]);
}

#[test]
fn empty_pattern_gives_two_wildcards() {
    let filter = create_tag_name_filter(&String::new());
    assert_eq!(filter.accepted_values, vec!["**".to_owned()]);
}

#[test]
fn no_pattern_gives_the_running_filter_alone() {
    let filters = create_filters(&args(None));
    assert_eq!(filters, vec![running()]);
}

#[test]
fn pattern_gives_two_filters_in_order() {
    let filters = create_filters(&args(Some("web")));
    assert_eq!(filters.len(), 2);
    assert_eq!(filters[0], running());
    assert_eq!(filters[1].field_name, "tag:Name");
    assert_eq!(filters[1].accepted_values, vec!["*web*".to_owned()]);
}

#[test]
fn request_holds_the_filters() {
    assert_eq!(create_request(&args(None)).filters, create_filters(&args(None)));
    assert_eq!(create_request(&args(Some("db"))).filters, create_filters(&args(Some("db"))));
}

#[test]
fn profile_and_region_do_not_change_the_filters() {
    let with = Args {
        flag_profile: Some("dev".to_owned()),
        flag_region: Some("us-east-1".to_owned()),
        name_pattern: Some("web".to_owned()),
    };
    assert_eq!(create_filters(&with), create_filters(&args(Some("web"))));
}
