//! From one instance record to the three fields shown for it.

use vstd::prelude::*;
use crate::instance::{RawInstance, RawInstanceView, Tag, TagView};
use crate::text::{clone_text, same_text, text_or, text_or_else};

verus! {

/// The text shown in place of an absent identifier.
pub open spec fn unknown_id() -> Seq<char> {
    "(unknown)"@
}

/// The text shown in place of an absent name or address.
pub open spec fn missing_value() -> Seq<char> {
    "-"@
}

/// The tag key that holds an instance's display name.
pub open spec fn name_key() -> Seq<char> {
    "Name"@
}

/// The value of the first tag keyed `Name`: `None` where no tag has that key,
/// and where the first one that has it carries no value.
pub open spec fn name_in_tags(tags: Seq<TagView>) -> Option<Seq<char>>
    decreases tags.len(),
{
    if tags.len() == 0 {
        None
    } else if tags.first().key == Some(name_key()) {
        tags.first().value
    } else {
        name_in_tags(tags.drop_first())
    }
}

/// Whether a tag is keyed `Name`, compared exactly and by case.
pub fn is_name_tag(tag: &Tag) -> (yes: bool)
    ensures
        yes == (tag@.key == Some(name_key())),
{
    match &tag.key {
        Some(key) => same_text(key.as_str(), "Name"),
        None => false,
    }
}

/// The three fields shown for one instance, each always filled in.
#[derive(Debug, PartialEq, Eq)]
pub struct InstanceSummary {
    pub id: String,
    pub ip_address: String,
    pub name: String,
}

/// The mathematical value of an [`InstanceSummary`].
pub struct InstanceSummaryView {
    pub id: Seq<char>,
    pub ip_address: Seq<char>,
    pub name: Seq<char>,
}

impl DeepView for InstanceSummary {
    type V = InstanceSummaryView;

    open spec fn deep_view(&self) -> InstanceSummaryView {
        InstanceSummaryView { id: self.id@, ip_address: self.ip_address@, name: self.name@ }
    }
}

impl View for InstanceSummary {
    type V = InstanceSummaryView;

    open spec fn view(&self) -> InstanceSummaryView {
        self.deep_view()
    }
}

/// The display name of an instance: the value of its first tag keyed `Name`.
pub open spec fn name_of(instance: RawInstanceView) -> Option<Seq<char>> {
    match instance.tags {
        Some(tags) => name_in_tags(tags),
        None => None,
    }
}

/// The summary of an instance: each field taken over where present, and
/// replaced by its placeholder where absent.
pub open spec fn summary_of(instance: RawInstanceView) -> InstanceSummaryView {
    InstanceSummaryView {
        id: text_or(instance.instance_id, unknown_id()),
        ip_address: text_or(instance.public_ip_address, missing_value()),
        name: text_or(name_of(instance), missing_value()),
    }
}

/// The line shown for a summary: identifier, name and address, separated by tabs.
pub open spec fn line_of(summary: InstanceSummaryView) -> Seq<char> {
    summary.id + seq!['\t'] + summary.name + seq!['\t'] + summary.ip_address
}

impl InstanceSummary {
    /// The instance's identifier, where it has one.
    pub fn find_instance_id(instance: &RawInstance) -> (id: Option<String>)
        ensures
            id.deep_view() == instance@.instance_id,
    {
        clone_text(&instance.instance_id)
    }

    /// The instance's public address, where it has one.
    pub fn find_public_ip_address(instance: &RawInstance) -> (address: Option<String>)
        ensures
            address.deep_view() == instance@.public_ip_address,
    {
        clone_text(&instance.public_ip_address)
    }

    /// The value of the first tag keyed `Name`. Later tags with that key are
    /// not looked at, even where the first one has no value.
    pub fn find_name_in_tags(instance: &RawInstance) -> (name: Option<String>)
        ensures
            name.deep_view() == name_of(instance@),
    {
        match &instance.tags {
            None => None,
            Some(tags) => {
                let mut i: usize = 0;
                assert(tags.deep_view().skip(0) == tags.deep_view());
                while i < tags.len()
                    invariant
                        i <= tags.len(),
                        name_of(instance@) == name_in_tags(tags.deep_view()),
                        name_in_tags(tags.deep_view()) == name_in_tags(
                            tags.deep_view().skip(i as int),
                        ),
                    decreases tags.len() - i,
                {
                    let ghost rest = tags.deep_view().skip(i as int);
                    assert(rest.drop_first() == tags.deep_view().skip(i + 1));
                    if is_name_tag(&tags[i]) {
                        return clone_text(&tags[i].value);
                    }
                    i += 1;
                }
                None
            },
        }
    }

    /// Summarizes one instance. Never fails: what is absent is shown by its
    /// placeholder.
    pub fn from_instance(instance: &RawInstance) -> (summary: InstanceSummary)
        ensures
            summary@ == summary_of(instance@),
            instance@.instance_id matches Some(id) ==> summary.id@ == id,
            instance@.instance_id is None ==> summary.id@ == unknown_id(),
            instance@.public_ip_address matches Some(address) ==> summary.ip_address@ == address,
            instance@.public_ip_address is None ==> summary.ip_address@ == missing_value(),
            summary.name@ == text_or(name_of(instance@), missing_value()),
    {
        InstanceSummary {
            id: text_or_else(Self::find_instance_id(instance), "(unknown)"),
            ip_address: text_or_else(Self::find_public_ip_address(instance), "-"),
            name: text_or_else(Self::find_name_in_tags(instance), "-"),
        }
    }

    /// The line shown for this summary.
    pub fn to_line(&self) -> (line: String)
        ensures
            line@ == line_of(self@),
    {
        let mut line = self.id.clone();
        line.append("\t");
        line.append(self.name.as_str());
        line.append("\t");
        line.append(self.ip_address.as_str());
        proof {
            reveal_strlit("\t");
        }
        line
    }
}

/// Tags before a position that are not keyed `Name` do not count: the name
/// found in the whole sequence is the one found from that position on.
pub proof fn lemma_name_search_skips(tags: Seq<TagView>, i: int)
    requires
        0 <= i <= tags.len(),
        forall|j: int| 0 <= j < i ==> tags[j].key != Some(name_key()),
    ensures
        name_in_tags(tags) == name_in_tags(tags.skip(i)),
    decreases i,
{
    if i == 0 {
        assert(tags.skip(0) == tags);
    } else {
        lemma_name_search_skips(tags.drop_first(), i - 1);
        assert(tags.drop_first().skip(i - 1) == tags.skip(i));
    }
}

/// The first tag keyed `Name` decides the name that is shown, whatever tags
/// with other keys stand before it and whatever tags, keyed `Name` or not,
/// stand after it: the name is that tag's value, or the placeholder where
/// that tag has no value.
pub proof fn law_first_name_tag_wins(instance: RawInstanceView, i: int)
    requires
        instance.tags is Some,
        0 <= i < instance.tags->0.len(),
        instance.tags->0[i].key == Some(name_key()),
        forall|j: int| 0 <= j < i ==> instance.tags->0[j].key != Some(name_key()),
    ensures
        name_of(instance) == instance.tags->0[i].value,
        summary_of(instance).name == text_or(instance.tags->0[i].value, missing_value()),
{
    let tags = instance.tags->0;
    lemma_name_search_skips(tags, i);
}

/// Where no tag is keyed `Name`, and where the tags are absent or empty, the
/// name that is shown is the placeholder.
pub proof fn law_no_name_tag(instance: RawInstanceView)
    requires
        instance.tags matches Some(tags) ==> forall|j: int|
            0 <= j < tags.len() ==> tags[j].key != Some(name_key()),
    ensures
        name_of(instance) is None,
        summary_of(instance).name == missing_value(),
{
    if instance.tags is Some {
        let tags = instance.tags->0;
        lemma_name_search_skips(tags, tags.len() as int);
    }
}

/// The identifier that is shown is the instance's own, unchanged whatever
/// characters it holds, and the placeholder where the instance has none. The
/// same holds of the address with its placeholder.
pub proof fn law_absent_fields_show_placeholders(instance: RawInstanceView)
    ensures
        instance.instance_id matches Some(id) ==> summary_of(instance).id == id,
        instance.instance_id is None ==> summary_of(instance).id == unknown_id(),
        instance.public_ip_address matches Some(address) ==> summary_of(instance).ip_address
            == address,
        instance.public_ip_address is None ==> summary_of(instance).ip_address
            == missing_value(),
{
}

} // verus!
