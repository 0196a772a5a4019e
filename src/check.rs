use vstd::prelude::*;
use crate::bytes::bytes_eq;
use crate::model::{Artifact, ArtifactView, EntryObservation, EntryView, LayerObservation, Node, PathState};

verus! {

/// The outcome of verifying one managed include or required path.
#[derive(Clone, Copy, Debug, PartialEq, Eq, Structural)]
pub enum Verdict {
    Pass,
    /// The project path does not exist.
    Missing,
    /// Content or link target differs from the policy.
    Mismatch,
    /// The policy holds a symbolic link but the project path is not one.
    TypeMismatch,
    /// The policy artifact is neither a file nor a symbolic link.
    InvalidEntry,
}

/// Verdict for an ordinary-file include with policy bytes `c`.
pub open spec fn file_verdict(c: Seq<u8>, project: Node) -> Verdict {
    match project {
        Node::Absent => Verdict::Missing,
        Node::File(p) => if p == c { Verdict::Pass } else { Verdict::Mismatch },
        _ => Verdict::Mismatch,
    }
}

/// Verdict for a symbolic-link include with raw policy target `t`.
pub open spec fn link_verdict(t: Seq<u8>, project: Node) -> Verdict {
    match project {
        Node::Absent => Verdict::Missing,
        Node::Link(u) => if u == t { Verdict::Pass } else { Verdict::Mismatch },
        _ => Verdict::TypeMismatch,
    }
}

/// Verdict for one managed include.
pub open spec fn entry_verdict(e: EntryView) -> Verdict {
    match e.policy {
        ArtifactView::File(c) => file_verdict(c, e.project),
        ArtifactView::Link(t) => link_verdict(t, e.project),
        ArtifactView::Invalid => Verdict::InvalidEntry,
    }
}

/// Verdict for one required path: it must exist as an ordinary file.
pub open spec fn required_verdict(n: Node) -> Verdict {
    match n {
        Node::File(_) => Verdict::Pass,
        _ => Verdict::Missing,
    }
}

/// Every include and every required path of a layer verifies.
pub open spec fn layer_ok(includes: Seq<EntryObservation>, required: Seq<PathState>) -> bool {
    &&& forall|i: int| 0 <= i < includes.len() ==> entry_verdict(#[trigger] includes[i]@) == Verdict::Pass
    &&& forall|j: int| 0 <= j < required.len() ==> required_verdict(#[trigger] required[j]@) == Verdict::Pass
}

/// Verifies an ordinary-file include: the project file must hold exactly the
/// policy bytes.
pub fn check_regular_file(policy: &Vec<u8>, project: &PathState) -> (r: Verdict)
    ensures
        r == file_verdict(policy@, project@),
{
    match project {
        PathState::Absent => Verdict::Missing,
        PathState::File(p) => if bytes_eq(p, policy) { Verdict::Pass } else { Verdict::Mismatch },
        _ => Verdict::Mismatch,
    }
}

/// Verifies a symbolic-link include: the project path must be a link whose raw
/// target equals the policy's, whether or not either target resolves.
pub fn check_symlink(target: &Vec<u8>, project: &PathState) -> (r: Verdict)
    ensures
        r == link_verdict(target@, project@),
{
    match project {
        PathState::Absent => Verdict::Missing,
        PathState::Symlink(u) => if bytes_eq(u, target) { Verdict::Pass } else { Verdict::Mismatch },
        _ => Verdict::TypeMismatch,
    }
}

/// Verifies one managed include.
pub fn check_entry(e: &EntryObservation) -> (r: Verdict)
    ensures
        r == entry_verdict(e@),
{
    match &e.policy {
        Artifact::File(c) => check_regular_file(c, &e.project),
        Artifact::Symlink(t) => check_symlink(t, &e.project),
        Artifact::Invalid => Verdict::InvalidEntry,
    }
}

/// Verifies one required path.
pub fn check_required_path(n: &PathState) -> (r: Verdict)
    ensures
        r == required_verdict(n@),
{
    match n {
        PathState::File(_) => Verdict::Pass,
        _ => Verdict::Missing,
    }
}

/// Verifies every managed include of a layer, without stopping at the first
/// failure: one verdict per include, in order.
pub fn check_includes(includes: &Vec<EntryObservation>) -> (r: Vec<Verdict>)
    ensures
        r@.len() == includes@.len(),
        forall|i: int| 0 <= i < includes@.len() ==> r@[i] == entry_verdict(#[trigger] includes@[i]@),
{
    let mut r: Vec<Verdict> = Vec::new();
    let mut i: usize = 0;
    while i < includes.len()
        invariant
            0 <= i <= includes@.len(),
            r@.len() == i,
            forall|k: int| 0 <= k < i ==> r@[k] == entry_verdict(#[trigger] includes@[k]@),
        decreases includes@.len() - i,
    {
        let v = check_entry(&includes[i]);
        r.push(v);
        i = i + 1;
    }
    r
}

/// Verifies every required path of a layer: one verdict per path, in order.
pub fn check_required(required: &Vec<PathState>) -> (r: Vec<Verdict>)
    ensures
        r@.len() == required@.len(),
        forall|j: int| 0 <= j < required@.len() ==> r@[j] == required_verdict(#[trigger] required@[j]@),
{
    let mut r: Vec<Verdict> = Vec::new();
    let mut j: usize = 0;
    while j < required.len()
        invariant
            0 <= j <= required@.len(),
            r@.len() == j,
            forall|k: int| 0 <= k < j ==> r@[k] == required_verdict(#[trigger] required@[k]@),
        decreases required@.len() - j,
    {
        let v = check_required_path(&required[j]);
        r.push(v);
        j = j + 1;
    }
    r
}

/// Whether every verdict in `vs` is `Ok`.
pub fn all_ok(vs: &Vec<Verdict>) -> (r: bool)
    ensures
        r == forall|i: int| 0 <= i < vs@.len() ==> #[trigger] vs@[i] == Verdict::Pass,
{
    let mut i: usize = 0;
    while i < vs.len()
        invariant
            0 <= i <= vs@.len(),
            forall|k: int| 0 <= k < i ==> #[trigger] vs@[k] == Verdict::Pass,
        decreases vs@.len() - i,
    {
        if vs[i] != Verdict::Pass {
            return false;
        }
        i = i + 1;
    }
    true
}

/// The verdicts of one layer, in the order of its includes and required paths.
#[derive(Clone, Debug, PartialEq, Eq)]
pub struct LayerReport {
    pub includes: Vec<Verdict>,
    pub required: Vec<Verdict>,
    /// Every verdict of the layer is `Pass`.
    pub ok: bool,
}

/// `rep` holds the verdicts of `layer`, each one in its place.
pub open spec fn reports_layer(rep: LayerReport, layer: LayerObservation) -> bool {
    &&& rep.includes@.len() == layer.includes@.len()
    &&& forall|i: int| 0 <= i < layer.includes@.len()
        ==> rep.includes@[i] == entry_verdict(#[trigger] layer.includes@[i]@)
    &&& rep.required@.len() == layer.required@.len()
    &&& forall|j: int| 0 <= j < layer.required@.len()
        ==> rep.required@[j] == required_verdict(#[trigger] layer.required@[j]@)
    &&& rep.ok == layer_ok(layer.includes@, layer.required@)
}

/// Every layer of a chain verifies.
pub open spec fn chain_ok(chain: Seq<LayerObservation>) -> bool {
    forall|k: int| 0 <= k < chain.len() ==> layer_ok(#[trigger] chain[k].includes@, chain[k].required@)
}

/// Verifies one layer: all of its includes and all of its required paths.
pub fn check_layer(layer: &LayerObservation) -> (r: LayerReport)
    ensures
        reports_layer(r, *layer),
{
    let includes = check_includes(&layer.includes);
    let required = check_required(&layer.required);
    let a = all_ok(&includes);
    let b = all_ok(&required);
    proof {
        if !a {
            let i = choose|i: int| 0 <= i < includes@.len() && includes@[i] != Verdict::Pass;
            assert(entry_verdict(layer.includes@[i]@) != Verdict::Pass);
        }
        if !b {
            let j = choose|j: int| 0 <= j < required@.len() && required@[j] != Verdict::Pass;
            assert(required_verdict(layer.required@[j]@) != Verdict::Pass);
        }
        if a {
            assert forall|i: int| 0 <= i < layer.includes@.len() implies entry_verdict(
                #[trigger] layer.includes@[i]@,
            ) == Verdict::Pass by {
                assert(includes@[i] == Verdict::Pass);
            }
        }
        if b {
            assert forall|j: int| 0 <= j < layer.required@.len() implies required_verdict(
                #[trigger] layer.required@[j]@,
            ) == Verdict::Pass by {
                assert(required@[j] == Verdict::Pass);
            }
        }
    }
    LayerReport { includes, required, ok: a && b }
}

/// The verdicts of a whole chain of layers.
#[derive(Clone, Debug, PartialEq, Eq)]
pub struct ChainReport {
    /// One report per layer, most-derived layer first.
    pub layers: Vec<LayerReport>,
    /// Every layer verified.
    pub ok: bool,
}

/// Verifies a chain of layers, most-derived first. Every layer is evaluated,
/// whatever the outcome of the ones before it; the chain verifies only if
/// every layer does.
pub fn check(chain: &Vec<LayerObservation>) -> (r: ChainReport)
    ensures
        r.layers@.len() == chain@.len(),
        forall|k: int| 0 <= k < chain@.len() ==> reports_layer(#[trigger] r.layers@[k], chain@[k]),
        r.ok == chain_ok(chain@),
{
    let mut layers: Vec<LayerReport> = Vec::new();
    let mut ok = true;
    let mut k: usize = 0;
    while k < chain.len()
        invariant
            0 <= k <= chain@.len(),
            layers@.len() == k,
            forall|m: int| 0 <= m < k ==> reports_layer(#[trigger] layers@[m], chain@[m]),
            ok == chain_ok(chain@.subrange(0, k as int)),
        decreases chain@.len() - k,
    {
        let rep = check_layer(&chain[k]);
        let layer_passed = rep.ok;
        layers.push(rep);
        proof {
            let prev = chain@.subrange(0, k as int);
            let next = chain@.subrange(0, k + 1);
            assert forall|m: int| 0 <= m < k implies next[m] == #[trigger] prev[m] by {}
            assert(next[k as int] == chain@[k as int]);
        }
        ok = ok && layer_passed;
        k = k + 1;
    }
    assert(chain@.subrange(0, chain@.len() as int) =~= chain@);
    ChainReport { layers, ok }
}

} // verus!
