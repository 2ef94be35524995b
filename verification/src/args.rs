//! The decoded command line.

use vstd::prelude::*;

verus! {

/// What the user asked for on the command line. Each field is absent where
/// its option was not given.
#[derive(Debug, PartialEq, Eq)]
pub struct Args {
    /// The credentials profile to use, from `--profile`.
    pub flag_profile: Option<String>,
    /// The region to query, from `--region`.
    pub flag_region: Option<String>,
    /// The text that an instance's name must contain, from `--name-pattern`.
    pub name_pattern: Option<String>,
}

/// The mathematical value of an [`Args`].
pub struct ArgsView {
    pub flag_profile: Option<Seq<char>>,
    pub flag_region: Option<Seq<char>>,
    pub name_pattern: Option<Seq<char>>,
}

impl DeepView for Args {
    type V = ArgsView;

    open spec fn deep_view(&self) -> ArgsView {
        ArgsView {
            flag_profile: self.flag_profile.deep_view(),
            flag_region: self.flag_region.deep_view(),
            name_pattern: self.name_pattern.deep_view(),
        }
    }
}

impl View for Args {
    type V = ArgsView;

    open spec fn view(&self) -> ArgsView {
        self.deep_view()
    }
}

} // verus!
