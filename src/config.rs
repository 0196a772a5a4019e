use vstd::prelude::*;

verus! {

/// One policy layer document: an optional base layer (a directory relative
/// to this layer's own), the managed includes mirrored from the layer's
/// template directory, and the paths that must merely exist. All paths in
/// `includes` and `required` are relative to the project root.
#[derive(Clone, Debug, PartialEq, Eq)]
pub struct PolicyToml {
    pub base: Option<String>,
    pub includes: Vec<String>,
    pub required: Vec<String>,
}

/// The project's own configuration: where its policy lives.
#[derive(Clone, Debug, PartialEq, Eq)]
pub struct Config {
    pub policy: Policy,
}

/// The policy repository identifier (such as `org/repo`) and the path of the
/// top policy layer inside its checkout.
#[derive(Clone, Debug, PartialEq, Eq)]
pub struct Policy {
    pub repository: String,
    pub path: String,
}

} // verus!
