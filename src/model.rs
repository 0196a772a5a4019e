use vstd::prelude::*;

verus! {

/// What the policy side of a managed include turned out to be.
#[derive(Clone, Copy, Debug, PartialEq, Eq, Structural)]
pub enum EntryKind {
    RegularFile,
    Symlink,
    Invalid,
}

/// The kind of a policy artifact: a symbolic link is recognised before an
/// ordinary file, since a link's target may itself be a file; anything else
/// (missing, directory, special file) is invalid.
pub open spec fn kind_of(is_symlink: bool, is_file: bool) -> EntryKind {
    if is_symlink {
        EntryKind::Symlink
    } else if is_file {
        EntryKind::RegularFile
    } else {
        EntryKind::Invalid
    }
}

/// Classifies a policy artifact from what the filesystem reports of it:
/// `is_symlink` without following links, `is_file` following them.
pub fn classify(is_symlink: bool, is_file: bool) -> (r: EntryKind)
    ensures
        r == kind_of(is_symlink, is_file),
{
    if is_symlink {
        EntryKind::Symlink
    } else if is_file {
        EntryKind::RegularFile
    } else {
        EntryKind::Invalid
    }
}

/// The source of truth for one managed include, read from the template.
#[derive(Clone, Debug, PartialEq, Eq)]
pub enum Artifact {
    /// An ordinary file, with its bytes.
    File(Vec<u8>),
    /// A symbolic link, with its raw target.
    Symlink(Vec<u8>),
    /// Neither a file nor a symbolic link.
    Invalid,
}

/// Mathematical view of an [`Artifact`].
pub enum ArtifactView {
    File(Seq<u8>),
    Link(Seq<u8>),
    Invalid,
}

impl View for Artifact {
    type V = ArtifactView;

    open spec fn view(&self) -> ArtifactView {
        match self {
            Artifact::File(c) => ArtifactView::File(c@),
            Artifact::Symlink(t) => ArtifactView::Link(t@),
            Artifact::Invalid => ArtifactView::Invalid,
        }
    }
}

/// What the project holds at a path.
///
/// For an ordinary-file include or a required path the path is observed
/// following symbolic links; for a symbolic-link include it is observed
/// without following them, so that a dangling link still counts as present.
#[derive(Clone, Debug, PartialEq, Eq)]
pub enum PathState {
    Absent,
    /// An ordinary file, with its bytes.
    File(Vec<u8>),
    /// A symbolic link, with its raw target.
    Symlink(Vec<u8>),
    /// A directory or a special file.
    Other,
}

/// Mathematical view of a [`PathState`].
pub enum Node {
    Absent,
    File(Seq<u8>),
    Link(Seq<u8>),
    Other,
}

impl View for PathState {
    type V = Node;

    open spec fn view(&self) -> Node {
        match self {
            PathState::Absent => Node::Absent,
            PathState::File(c) => Node::File(c@),
            PathState::Symlink(t) => Node::Link(t@),
            PathState::Other => Node::Other,
        }
    }
}

/// Both sides of one managed include, as observed before reconciling it.
#[derive(Clone, Debug, PartialEq, Eq)]
pub struct EntryObservation {
    pub policy: Artifact,
    pub project: PathState,
    /// The project path's parent directory exists (or the path has none).
    pub parent_present: bool,
}

/// Mathematical view of an [`EntryObservation`].
pub struct EntryView {
    pub policy: ArtifactView,
    pub project: Node,
    pub parent_present: bool,
}

impl View for EntryObservation {
    type V = EntryView;

    open spec fn view(&self) -> EntryView {
        EntryView {
            policy: self.policy@,
            project: self.project@,
            parent_present: self.parent_present,
        }
    }
}

/// A path cannot exist while its parent directory does not.
pub open spec fn entry_wf(e: EntryView) -> bool {
    !e.parent_present ==> e.project == Node::Absent
}

/// Everything observed for one policy layer: its managed includes and its
/// required paths, each in the order the layer lists them.
#[derive(Clone, Debug, PartialEq, Eq)]
pub struct LayerObservation {
    pub includes: Vec<EntryObservation>,
    pub required: Vec<PathState>,
}

/// Copies a byte buffer.
pub(crate) fn copy_bytes(v: &Vec<u8>) -> (r: Vec<u8>)
    ensures
        r@ == v@,
{
    let r = v.clone();
    assert(r@ =~= v@);
    r
}

} // verus!
