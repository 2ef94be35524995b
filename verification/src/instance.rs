//! The shape of a list response: groupings of instances, every field optional.

use vstd::prelude::*;
use crate::text::same_text;

verus! {

/// A key/value metadata pair attached to an instance. Either part may be absent.
#[derive(Debug, PartialEq, Eq)]
pub struct Tag {
    pub key: Option<String>,
    pub value: Option<String>,
}

/// The mathematical value of a [`Tag`].
pub struct TagView {
    pub key: Option<Seq<char>>,
    pub value: Option<Seq<char>>,
}

impl DeepView for Tag {
    type V = TagView;

    open spec fn deep_view(&self) -> TagView {
        TagView { key: self.key.deep_view(), value: self.value.deep_view() }
    }
}

impl View for Tag {
    type V = TagView;

    open spec fn view(&self) -> TagView {
        self.deep_view()
    }
}

/// The lifecycle status that the provider reports for an instance.
#[derive(Clone, Copy, Debug, PartialEq, Eq, Structural)]
pub enum InstanceState {
    Pending,
    Running,
    ShuttingDown,
    Terminated,
    Stopping,
    Stopped,
}

/// The lifecycle status that a name stands for, where it is one of the six
/// that the provider uses.
pub open spec fn state_named(name: Seq<char>) -> Option<InstanceState> {
    if name == "pending"@ {
        Some(InstanceState::Pending)
    } else if name == "running"@ {
        Some(InstanceState::Running)
    } else if name == "shutting-down"@ {
        Some(InstanceState::ShuttingDown)
    } else if name == "terminated"@ {
        Some(InstanceState::Terminated)
    } else if name == "stopping"@ {
        Some(InstanceState::Stopping)
    } else if name == "stopped"@ {
        Some(InstanceState::Stopped)
    } else {
        None
    }
}

impl InstanceState {
    /// Reads a lifecycle status from the name that the provider gives it.
    pub fn from_name(name: &str) -> (state: Option<InstanceState>)
        ensures
            state == state_named(name@),
    {
        if same_text(name, "pending") {
            Some(InstanceState::Pending)
        } else if same_text(name, "running") {
            Some(InstanceState::Running)
        } else if same_text(name, "shutting-down") {
            Some(InstanceState::ShuttingDown)
        } else if same_text(name, "terminated") {
            Some(InstanceState::Terminated)
        } else if same_text(name, "stopping") {
            Some(InstanceState::Stopping)
        } else if same_text(name, "stopped") {
            Some(InstanceState::Stopped)
        } else {
            None
        }
    }
}

/// One instance record as the provider returns it.
#[derive(Debug, PartialEq, Eq)]
pub struct RawInstance {
    pub instance_id: Option<String>,
    pub public_ip_address: Option<String>,
    pub tags: Option<Vec<Tag>>,
    pub state: Option<InstanceState>,
}

/// The mathematical value of a [`RawInstance`].
pub struct RawInstanceView {
    pub instance_id: Option<Seq<char>>,
    pub public_ip_address: Option<Seq<char>>,
    pub tags: Option<Seq<TagView>>,
    pub state: Option<InstanceState>,
}

impl DeepView for RawInstance {
    type V = RawInstanceView;

    open spec fn deep_view(&self) -> RawInstanceView {
        RawInstanceView {
            instance_id: self.instance_id.deep_view(),
            public_ip_address: self.public_ip_address.deep_view(),
            tags: self.tags.deep_view(),
            state: self.state,
        }
    }
}

impl View for RawInstance {
    type V = RawInstanceView;

    open spec fn view(&self) -> RawInstanceView {
        self.deep_view()
    }
}

/// A reservation: the instances that one launch request produced.
#[derive(Debug, PartialEq, Eq)]
pub struct Grouping {
    pub instances: Option<Vec<RawInstance>>,
}

/// The mathematical value of a [`Grouping`].
pub struct GroupingView {
    pub instances: Option<Seq<RawInstanceView>>,
}

impl DeepView for Grouping {
    type V = GroupingView;

    open spec fn deep_view(&self) -> GroupingView {
        GroupingView { instances: self.instances.deep_view() }
    }
}

impl View for Grouping {
    type V = GroupingView;

    open spec fn view(&self) -> GroupingView {
        self.deep_view()
    }
}

/// What a successful list call returns.
#[derive(Debug, PartialEq, Eq)]
pub struct Response {
    pub reservations: Option<Vec<Grouping>>,
}

/// The mathematical value of a [`Response`].
pub struct ResponseView {
    pub reservations: Option<Seq<GroupingView>>,
}

impl DeepView for Response {
    type V = ResponseView;

    open spec fn deep_view(&self) -> ResponseView {
        ResponseView { reservations: self.reservations.deep_view() }
    }
}

impl View for Response {
    type V = ResponseView;

    open spec fn view(&self) -> ResponseView {
        self.deep_view()
    }
}

} // verus!
