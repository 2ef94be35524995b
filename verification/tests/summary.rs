use list_ec2_instances::instance::{InstanceState, RawInstance, Tag};
use list_ec2_instances::summary::InstanceSummary;

fn tag(key: Option<&str>, value: Option<&str>) -> Tag {
    Tag { key: key.map(str::to_owned), value: value.map(str::to_owned) }
}

fn instance(id: Option<&str>, ip: Option<&str>, tags: Option<Vec<Tag>>) -> RawInstance {
    RawInstance {
        instance_id: id.map(str::to_owned),
        public_ip_address: ip.map(str::to_owned),
        tags,
        state: Some(InstanceState::Running),
    }
}

fn name_for(tags: Option<Vec<Tag>>) -> String {
    InstanceSummary::from_instance(&instance(Some("i-1"), None, tags)).name
}

#[test]
fn absent_id_is_shown_as_unknown() {
    let summary = InstanceSummary::from_instance(&instance(None, Some("10.0.0.1"), None));
    assert_eq!(summary.id, "(unknown)");
    assert_eq!(summary.ip_address, "10.0.0.1");
}

#[test]
fn present_id_is_taken_over() {
    let summary = InstanceSummary::from_instance(&instance(Some("i-0abc"), None, None));
    assert_eq!(summary.id, "i-0abc");
}

#[test]
fn id_with_tab_and_newline_is_not_changed() {
    let summary = InstanceSummary::from_instance(&instance(Some("i\t1\nx"), None, None));
    assert_eq!(summary.id, "i\t1\nx");
}

#[test]
fn absent_address_is_shown_as_dash() {
    let summary = InstanceSummary::from_instance(&instance(Some("i-1"), None, None));
    assert_eq!(summary.ip_address, "-");
}

#[test]
fn everything_absent_gives_all_placeholders() {
    let raw = RawInstance { instance_id: None, public_ip_address: None, tags: None, state: None };
    let summary = InstanceSummary::from_instance(&raw);
    assert_eq!(
        summary,
        InstanceSummary {
            id: "(unknown)".to_owned(),
            ip_address: "-".to_owned(),
            name: "-".to_owned(),
        }
    );
}

#[test]
fn absent_tags_give_dash() {
    assert_eq!(name_for(None), "-");
}

#[test]
fn empty_tags_give_dash() {
    assert_eq!(name_for(Some(vec![])), "-");
}

#[test]
fn single_name_tag_gives_its_value() {
    assert_eq!(name_for(Some(vec![tag(Some("Name"), Some("web-1"))])), "web-1");
}

#[test]
fn first_of_several_name_tags_wins() {
    let tags = vec![
        tag(Some("Name"), Some("first")),
        tag(Some("Name"), Some("second")),
        tag(Some("Name"), Some("third")),
    ];
    assert_eq!(name_for(Some(tags)), "first");
}

#[test]
fn other_keys_before_and_after_do_not_matter() {
    let tags = vec![
        tag(Some("Env"), Some("prod")),
        tag(None, Some("orphan")),
        tag(Some("Name"), Some("db-7")),
        tag(Some("Owner"), Some("ops")),
        tag(Some("Name"), Some("later")),
    ];
    assert_eq!(name_for(Some(tags)), "db-7");
}

#[test]
fn tags_without_name_key_give_dash() {
    let tags = vec![tag(Some("Env"), Some("prod")), tag(Some("Owner"), Some("ops"))];
    assert_eq!(name_for(Some(tags)), "-");
}

#[test]
fn name_key_is_matched_by_case_and_exactly() {
    let tags = vec![
        tag(Some("name"), Some("lower")),
        tag(Some("NAME"), Some("upper")),
        tag(Some("Name "), Some("padded")),
        tag(Some("Names"), Some("longer")),
    ];
    assert_eq!(name_for(Some(tags)), "-");
}

#[test]
fn tag_without_key_is_passed_over() {
    let tags = vec![tag(None, Some("nobody")), tag(Some("Name"), Some("somebody"))];
    assert_eq!(name_for(Some(tags)), "somebody");
}

#[test]
fn first_name_tag_without_value_gives_dash() {
    let tags = vec![tag(Some("Name"), None), tag(Some("Name"), Some("second"))];
    assert_eq!(name_for(Some(tags)), "-");
}

#[test]
fn empty_name_value_is_kept() {
    assert_eq!(name_for(Some(vec![tag(Some("Name"), Some(""))])), "");
}

#[test]
fn finders_return_what_the_instance_holds() {
    let raw = instance(
        Some("i-9"),
        Some("192.0.2.9"),
        Some(vec![tag(Some("Name"), Some("cache"))]),
    );
    assert_eq!(InstanceSummary::find_instance_id(&raw), Some("i-9".to_owned()));
    assert_eq!(InstanceSummary::find_public_ip_address(&raw), Some("192.0.2.9".to_owned()));
    assert_eq!(InstanceSummary::find_name_in_tags(&raw), Some("cache".to_owned()));
    let bare = instance(None, None, None);
    assert_eq!(InstanceSummary::find_instance_id(&bare), None);
    assert_eq!(InstanceSummary::find_public_ip_address(&bare), None);
    assert_eq!(InstanceSummary::find_name_in_tags(&bare), None);
}

#[test]
fn line_is_id_name_address_separated_by_tabs() {
    let summary = InstanceSummary {
        id: "i-1".to_owned(),
        ip_address: "10.0.0.1".to_owned(),
        name: "web-1".to_owned(),
    };
    assert_eq!(summary.to_line(), "i-1\tweb-1\t10.0.0.1");
}

#[test]
fn line_of_placeholders() {
    let raw = instance(None, None, None);
    assert_eq!(InstanceSummary::from_instance(&raw).to_line(), "(unknown)\t-\t-");
}

#[test]
fn state_is_read_from_its_name() {
    assert_eq!(InstanceState::from_name("pending"), Some(InstanceState::Pending));
    assert_eq!(InstanceState::from_name("running"), Some(InstanceState::Running));
    assert_eq!(InstanceState::from_name("shutting-down"), Some(InstanceState::ShuttingDown));
    assert_eq!(InstanceState::from_name("terminated"), Some(InstanceState::Terminated));
    assert_eq!(InstanceState::from_name("stopping"), Some(InstanceState::Stopping));
    assert_eq!(InstanceState::from_name("stopped"), Some(InstanceState::Stopped));
    assert_eq!(InstanceState::from_name("Running"), None);
    assert_eq!(InstanceState::from_name(""), None);
}
