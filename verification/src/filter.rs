//! The server-side filters of a list request.

use vstd::prelude::*;
use crate::args::Args;

verus! {

/// One filter clause: a field and the values accepted for it.
#[derive(Debug, PartialEq, Eq)]
pub struct FilterPredicate {
    pub field_name: String,
    pub accepted_values: Vec<String>,
}

/// The mathematical value of a [`FilterPredicate`].
pub struct FilterPredicateView {
    pub field_name: Seq<char>,
    pub accepted_values: Seq<Seq<char>>,
}

impl DeepView for FilterPredicate {
    type V = FilterPredicateView;

    open spec fn deep_view(&self) -> FilterPredicateView {
        FilterPredicateView {
            field_name: self.field_name@,
            accepted_values: self.accepted_values.deep_view(),
        }
    }
}

impl View for FilterPredicate {
    type V = FilterPredicateView;

    open spec fn view(&self) -> FilterPredicateView {
        self.deep_view()
    }
}

/// A list request. It carries filters and nothing else: no pagination token
/// and no restriction to given identifiers.
#[derive(Debug, PartialEq, Eq)]
pub struct ListRequest {
    pub filters: Vec<FilterPredicate>,
}

/// The mathematical value of a [`ListRequest`].
pub struct ListRequestView {
    pub filters: Seq<FilterPredicateView>,
}

impl DeepView for ListRequest {
    type V = ListRequestView;

    open spec fn deep_view(&self) -> ListRequestView {
        ListRequestView { filters: self.filters.deep_view() }
    }
}

impl View for ListRequest {
    type V = ListRequestView;

    open spec fn view(&self) -> ListRequestView {
        self.deep_view()
    }
}

/// The filter that every request carries: only running instances.
pub open spec fn running_instance_filter() -> FilterPredicateView {
    FilterPredicateView {
        field_name: "instance-state-name"@,
        accepted_values: seq!["running"@],
    }
}

/// The accepted value of a name filter: the pattern between two wildcards, so
/// that it matches anywhere in a name. Wildcards inside the pattern are left
/// as they are.
pub open spec fn wildcard_pattern(pattern: Seq<char>) -> Seq<char> {
    seq!['*'] + pattern + seq!['*']
}

/// The filter on the `Name` tag for a pattern.
pub open spec fn tag_name_filter(pattern: Seq<char>) -> FilterPredicateView {
    FilterPredicateView {
        field_name: "tag:Name"@,
        accepted_values: seq![wildcard_pattern(pattern)],
    }
}

/// The filters of a request: the running filter, then the name filter where a
/// pattern was given.
pub open spec fn filters_for(name_pattern: Option<Seq<char>>) -> Seq<FilterPredicateView> {
    match name_pattern {
        None => seq![running_instance_filter()],
        Some(pattern) => seq![running_instance_filter(), tag_name_filter(pattern)],
    }
}

/// Builds the filter that restricts a listing to running instances.
pub fn create_running_instance_filter() -> (filter: FilterPredicate)
    ensures
        filter@ == running_instance_filter(),
{
    let mut values: Vec<String> = Vec::new();
    values.push(String::from_str("running"));
    let filter = FilterPredicate {
        field_name: String::from_str("instance-state-name"),
        accepted_values: values,
    };
    assert(filter@.accepted_values == seq!["running"@]);
    filter
}

/// Builds the filter that keeps the instances whose `Name` tag contains
/// `pattern`.
pub fn create_tag_name_filter(pattern: &String) -> (filter: FilterPredicate)
    ensures
        filter@ == tag_name_filter(pattern@),
{
    let mut name_pattern = String::from_str("*");
    name_pattern.append(pattern.as_str());
    name_pattern.append("*");
    proof {
        reveal_strlit("*");
        assert("*"@ == seq!['*']);
    }
    let mut values: Vec<String> = Vec::new();
    values.push(name_pattern);
    let filter = FilterPredicate { field_name: String::from_str("tag:Name"), accepted_values: values };
    assert(filter@.accepted_values == seq![wildcard_pattern(pattern@)]);
    filter
}

/// Builds the filters for the given arguments: always the running filter,
/// and after it the name filter where a name pattern was given.
pub fn create_filters(args: &Args) -> (filters: Vec<FilterPredicate>)
    ensures
        filters.deep_view() == filters_for(args@.name_pattern),
        args.name_pattern is None ==> filters.len() == 1,
        args.name_pattern is Some ==> filters.len() == 2,
{
    let mut filters: Vec<FilterPredicate> = Vec::new();
    filters.push(create_running_instance_filter());
    if let Some(pattern) = &args.name_pattern {
        filters.push(create_tag_name_filter(pattern));
    }
    filters
}

/// Builds the list request for the given arguments.
pub fn create_request(args: &Args) -> (request: ListRequest)
    ensures
        request@.filters == filters_for(args@.name_pattern),
{
    ListRequest { filters: create_filters(args) }
}

} // verus!
