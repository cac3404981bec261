//! Command representation: raw shell-like text, or pre-split argument lists.

use vstd::prelude::*;

verus! {

/// A command, before normalization into an argv.
///
/// - `Raw`: free-form text, to be tokenized (e.g. `"cargo +nightly fmt"`).
/// - `Slice`: a pre-split list of borrowed tokens.
/// - `OwnedSlice`: a pre-split list of owned tokens.
///
/// Pre-split lists pass through normalization token for token; only raw
/// text is trimmed, comment-stripped and tokenized.
#[derive(Debug, Clone)]
pub enum CommandRepr<'a> {
    Raw(&'a str),
    Slice(Vec<&'a str>),
    OwnedSlice(Vec<String>),
}

impl<'a> CommandRepr<'a> {
    /// Whether this is raw text still to be tokenized.
    pub open spec fn is_raw(&self) -> bool {
        self matches CommandRepr::Raw(_)
    }

    /// The tokens of a pre-split representation.
    pub open spec fn presplit_view(&self) -> Seq<Seq<char>> {
        match self {
            CommandRepr::Raw(_) => Seq::empty(),
            CommandRepr::Slice(v) => v.deep_view(),
            CommandRepr::OwnedSlice(v) => v.deep_view(),
        }
    }
}

impl<'a> Default for CommandRepr<'a> {
    /// Default: `Raw("cargo")`.
    fn default() -> (r: Self)
        ensures
            r matches CommandRepr::Raw(s) && s@ == "cargo"@,
    {
        CommandRepr::Raw("cargo")
    }
}

impl<'a> From<&'a str> for CommandRepr<'a> {
    /// Raw command text.
    fn from(value: &'a str) -> (r: Self) {
        CommandRepr::Raw(value)
    }
}

impl<'a> vstd::std_specs::convert::FromSpecImpl<&'a str> for CommandRepr<'a> {
    open spec fn obeys_from_spec() -> bool {
        true
    }

    open spec fn from_spec(value: &'a str) -> Self {
        CommandRepr::Raw(value)
    }
}

impl<'a> From<Vec<&'a str>> for CommandRepr<'a> {
    /// A pre-split command of borrowed tokens.
    fn from(value: Vec<&'a str>) -> (r: Self) {
        CommandRepr::Slice(value)
    }
}

impl<'a> vstd::std_specs::convert::FromSpecImpl<Vec<&'a str>> for CommandRepr<'a> {
    open spec fn obeys_from_spec() -> bool {
        true
    }

    open spec fn from_spec(value: Vec<&'a str>) -> Self {
        CommandRepr::Slice(value)
    }
}

impl<'a> From<Vec<String>> for CommandRepr<'a> {
    /// A pre-split command of owned tokens.
    fn from(value: Vec<String>) -> (r: Self) {
        CommandRepr::OwnedSlice(value)
    }
}

impl<'a> vstd::std_specs::convert::FromSpecImpl<Vec<String>> for CommandRepr<'a> {
    open spec fn obeys_from_spec() -> bool {
        true
    }

    open spec fn from_spec(value: Vec<String>) -> Self {
        CommandRepr::OwnedSlice(value)
    }
}

} // verus!
