use vstd::prelude::*;
use crate::bytes::bytes_eq;
use crate::model::{copy_bytes, Artifact, ArtifactView, EntryObservation, EntryView, LayerObservation, Node, PathState};

verus! {

/// One change that converging a path calls for.
#[derive(Clone, Debug, PartialEq, Eq)]
pub enum Action {
    /// The path already agrees with the policy, or the include is skipped.
    Nothing,
    /// Create the missing parent directory (recursively), and nothing else.
    CreateDir,
    /// Write these bytes to the file, creating or overwriting it.
    WriteFile(Vec<u8>),
    /// Create a symbolic link with this raw target.
    CreateLink(Vec<u8>),
    /// Remove the existing symbolic link, then create one with this target.
    ReplaceLink(Vec<u8>),
    /// The path exists and is not a symbolic link: leave it untouched and fail.
    Conflict,
    /// Create an empty file, leaving any existing content alone.
    CreateEmpty,
}

/// Mathematical view of an [`Action`].
pub enum Step {
    Nothing,
    CreateDir,
    Write(Seq<u8>),
    CreateLink(Seq<u8>),
    ReplaceLink(Seq<u8>),
    Conflict,
    CreateEmpty,
}

impl View for Action {
    type V = Step;

    open spec fn view(&self) -> Step {
        match self {
            Action::Nothing => Step::Nothing,
            Action::CreateDir => Step::CreateDir,
            Action::WriteFile(c) => Step::Write(c@),
            Action::CreateLink(t) => Step::CreateLink(t@),
            Action::ReplaceLink(t) => Step::ReplaceLink(t@),
            Action::Conflict => Step::Conflict,
            Action::CreateEmpty => Step::CreateEmpty,
        }
    }
}

/// A step that changes the project tree.
pub open spec fn is_write(s: Step) -> bool {
    !(s is Nothing) && !(s is Conflict)
}

/// Converging an ordinary-file include with policy bytes `c`: first the
/// parent directory, then, on a later pass, the file.
pub open spec fn file_step(c: Seq<u8>, project: Node, parent_present: bool) -> Step {
    if !parent_present {
        Step::CreateDir
    } else if project == Node::File(c) {
        Step::Nothing
    } else {
        Step::Write(c)
    }
}

/// Converging a symbolic-link include with raw policy target `t`.
pub open spec fn link_step(t: Seq<u8>, project: Node) -> Step {
    match project {
        Node::Link(u) => if u == t { Step::Nothing } else { Step::ReplaceLink(t) },
        Node::Absent => Step::CreateLink(t),
        _ => Step::Conflict,
    }
}

/// Converging one managed include; an invalid include is skipped.
pub open spec fn entry_step(e: EntryView) -> Step {
    match e.policy {
        ArtifactView::File(c) => file_step(c, e.project, e.parent_present),
        ArtifactView::Link(t) => link_step(t, e.project),
        ArtifactView::Invalid => Step::Nothing,
    }
}

/// Converging one required path.
pub open spec fn required_step(n: Node) -> Step {
    match n {
        Node::File(_) => Step::Nothing,
        _ => Step::CreateEmpty,
    }
}

/// The project path once step `s` has been carried out on it.
pub open spec fn node_after(n: Node, s: Step) -> Node {
    match s {
        Step::Write(c) => Node::File(c),
        Step::CreateLink(t) => Node::Link(t),
        Step::ReplaceLink(t) => Node::Link(t),
        Step::CreateEmpty => match n {
            Node::File(_) => n,
            _ => Node::File(Seq::empty()),
        },
        _ => n,
    }
}

/// An include once step `s` has been carried out on its project side.
pub open spec fn entry_after(e: EntryView, s: Step) -> EntryView {
    EntryView {
        policy: e.policy,
        project: node_after(e.project, s),
        parent_present: e.parent_present || s is CreateDir,
    }
}

/// Decides how to converge an ordinary-file include.
pub fn apply_regular_file(policy: &Vec<u8>, project: &PathState, parent_present: bool) -> (r: Action)
    ensures
        r@ == file_step(policy@, project@, parent_present),
{
    if !parent_present {
        return Action::CreateDir;
    }
    match project {
        PathState::File(p) => {
            if bytes_eq(p, policy) {
                return Action::Nothing;
            }
        },
        _ => {},
    }
    Action::WriteFile(copy_bytes(policy))
}

/// Decides how to converge a symbolic-link include. A project path that exists
/// and is not a link is never replaced.
pub fn apply_symlink(target: &Vec<u8>, project: &PathState) -> (r: Action)
    ensures
        r@ == link_step(target@, project@),
{
    match project {
        PathState::Symlink(u) => {
            if bytes_eq(u, target) {
                Action::Nothing
            } else {
                Action::ReplaceLink(copy_bytes(target))
            }
        },
        PathState::Absent => Action::CreateLink(copy_bytes(target)),
        _ => Action::Conflict,
    }
}

/// Decides how to converge one managed include.
pub fn apply_entry(e: &EntryObservation) -> (r: Action)
    ensures
        r@ == entry_step(e@),
{
    match &e.policy {
        Artifact::File(c) => apply_regular_file(c, &e.project, e.parent_present),
        Artifact::Symlink(t) => apply_symlink(t, &e.project),
        Artifact::Invalid => Action::Nothing,
    }
}

/// Decides how to converge one required path.
pub fn apply_required_path(n: &PathState) -> (r: Action)
    ensures
        r@ == required_step(n@),
{
    match n {
        PathState::File(_) => Action::Nothing,
        _ => Action::CreateEmpty,
    }
}

/// Decides how to converge every managed include of a layer: one action per
/// include, in order.
pub fn apply_includes(includes: &Vec<EntryObservation>) -> (r: Vec<Action>)
    ensures
        r@.len() == includes@.len(),
        forall|i: int| 0 <= i < includes@.len() ==> (#[trigger] r@[i])@ == entry_step(includes@[i]@),
{
    let mut r: Vec<Action> = Vec::new();
    let mut i: usize = 0;
    while i < includes.len()
        invariant
            0 <= i <= includes@.len(),
            r@.len() == i,
            forall|k: int| 0 <= k < i ==> (#[trigger] r@[k])@ == entry_step(includes@[k]@),
        decreases includes@.len() - i,
    {
        let a = apply_entry(&includes[i]);
        r.push(a);
        i = i + 1;
    }
    r
}

/// Decides how to converge every required path of a layer: one action per
/// path, in order.
pub fn apply_required(required: &Vec<PathState>) -> (r: Vec<Action>)
    ensures
        r@.len() == required@.len(),
        forall|j: int| 0 <= j < required@.len() ==> (#[trigger] r@[j])@ == required_step(required@[j]@),
{
    let mut r: Vec<Action> = Vec::new();
    let mut j: usize = 0;
    while j < required.len()
        invariant
            0 <= j <= required@.len(),
            r@.len() == j,
            forall|k: int| 0 <= k < j ==> (#[trigger] r@[k])@ == required_step(required@[k]@),
        decreases required@.len() - j,
    {
        let a = apply_required_path(&required[j]);
        r.push(a);
        j = j + 1;
    }
    r
}

/// The actions that converge one layer, in the order of its includes and
/// required paths.
#[derive(Clone, Debug, PartialEq, Eq)]
pub struct LayerPlan {
    pub includes: Vec<Action>,
    pub required: Vec<Action>,
    /// No include is in conflict with the project tree.
    pub ok: bool,
}

/// `plan` holds the action for each include and required path of `layer`.
pub open spec fn plans_layer(plan: LayerPlan, layer: LayerObservation) -> bool {
    &&& plan.includes@.len() == layer.includes@.len()
    &&& forall|i: int| 0 <= i < layer.includes@.len()
        ==> (#[trigger] plan.includes@[i])@ == entry_step(layer.includes@[i]@)
    &&& plan.required@.len() == layer.required@.len()
    &&& forall|j: int| 0 <= j < layer.required@.len()
        ==> (#[trigger] plan.required@[j])@ == required_step(layer.required@[j]@)
    &&& plan.ok == forall|i: int| 0 <= i < layer.includes@.len()
        ==> !(entry_step(#[trigger] layer.includes@[i]@) is Conflict)
}

/// Whether some action in `acts` is a conflict.
fn any_conflict(acts: &Vec<Action>) -> (r: bool)
    ensures
        r == exists|i: int| 0 <= i < acts@.len() && (#[trigger] acts@[i])@ is Conflict,
{
    let mut i: usize = 0;
    while i < acts.len()
        invariant
            0 <= i <= acts@.len(),
            forall|k: int| 0 <= k < i ==> !((#[trigger] acts@[k])@ is Conflict),
        decreases acts@.len() - i,
    {
        if let Action::Conflict = &acts[i] {
            return true;
        }
        i = i + 1;
    }
    false
}

/// Decides how to converge one layer: its includes, then its required paths.
pub fn apply(layer: &LayerObservation) -> (r: LayerPlan)
    ensures
        plans_layer(r, *layer),
{
    let includes = apply_includes(&layer.includes);
    let required = apply_required(&layer.required);
    let conflict = any_conflict(&includes);
    proof {
        if conflict {
            let i = choose|i: int| 0 <= i < includes@.len() && (#[trigger] includes@[i])@ is Conflict;
            assert(entry_step(layer.includes@[i]@) is Conflict);
        } else {
            assert forall|i: int| 0 <= i < layer.includes@.len() implies !(entry_step(
                #[trigger] layer.includes@[i]@,
            ) is Conflict) by {
                assert(!(includes@[i]@ is Conflict));
            }
        }
    }
    LayerPlan { includes, required, ok: !conflict }
}

} // verus!
