use vstd::prelude::*;
use crate::apply::{entry_after, entry_step, file_step, is_write, link_step, node_after, required_step, Step};
use crate::check::{chain_ok, layer_ok, entry_verdict, file_verdict, link_verdict, required_verdict, Verdict};
use crate::model::{entry_wf, ArtifactView, EntryView, LayerObservation, Node};

verus! {

/// Converging an include twice in a row writes nothing the second time, unless
/// the first pass only created the parent directory. After a converging pass
/// that neither skipped an invalid include nor met a conflict, verifying the
/// include succeeds.
pub proof fn lemma_converge_idempotent(e: EntryView)
    requires
        entry_wf(e),
        !(entry_step(e) is CreateDir),
    ensures
        !is_write(entry_step(entry_after(e, entry_step(e)))),
        !(e.policy is Invalid) && !(entry_step(e) is Conflict) ==> entry_verdict(
            entry_after(e, entry_step(e)),
        ) == Verdict::Pass,
{
}

/// Converging a required path twice in a row writes nothing the second time,
/// and afterwards verifying it succeeds.
pub proof fn lemma_required_idempotent(n: Node)
    ensures
        !is_write(required_step(node_after(n, required_step(n)))),
        required_verdict(node_after(n, required_step(n))) == Verdict::Pass,
{
}

/// An ordinary-file include verifies exactly when the project file holds the
/// policy bytes, with no trimming or normalisation.
pub proof fn lemma_content_equality(c: Seq<u8>, project: Node)
    ensures
        file_verdict(c, project) == Verdict::Pass <==> project == Node::File(c),
{
}

/// A symbolic-link include verifies exactly when the project path is a link
/// whose raw target equals the policy's, whether or not the targets resolve.
pub proof fn lemma_link_target_equality(t: Seq<u8>, project: Node)
    ensures
        link_verdict(t, project) == Verdict::Pass <==> project == Node::Link(t),
{
}

/// When the parent directory of an ordinary-file include is missing, the first
/// converging pass creates the directory and leaves the file absent; the second
/// writes the policy bytes; a third changes nothing.
pub proof fn lemma_directory_then_file(e: EntryView, c: Seq<u8>)
    requires
        entry_wf(e),
        e.policy == ArtifactView::File(c),
        !e.parent_present,
    ensures
        entry_step(e) == Step::CreateDir,
        entry_after(e, entry_step(e)).project == Node::Absent,
        entry_step(entry_after(e, entry_step(e))) == Step::Write(c),
        entry_after(entry_after(e, entry_step(e)), Step::Write(c)).project == Node::File(c),
        entry_step(entry_after(entry_after(e, entry_step(e)), Step::Write(c))) == Step::Nothing,
{
}

/// Converging a symbolic-link include over an existing ordinary file fails and
/// leaves the file as it was.
pub proof fn lemma_conflict_protection(t: Seq<u8>, c: Seq<u8>)
    ensures
        link_step(t, Node::File(c)) == Step::Conflict,
        node_after(Node::File(c), link_step(t, Node::File(c))) == Node::File(c),
        !is_write(link_step(t, Node::File(c))),
{
}

/// An include whose policy artifact is neither a file nor a symbolic link
/// fails verification but is skipped, without any change, when converging.
pub proof fn lemma_invalid_entry_asymmetry(e: EntryView)
    requires
        e.policy is Invalid,
    ensures
        entry_verdict(e) == Verdict::InvalidEntry,
        entry_step(e) == Step::Nothing,
        entry_after(e, entry_step(e)) == e,
{
}

/// A chain verifies only if the required paths of every one of its layers
/// exist as files, base layers as well as the most-derived one; and converging
/// any layer leaves each of its required paths a file.
pub proof fn lemma_chain_enforces_every_layer(chain: Seq<LayerObservation>, k: int, j: int)
    requires
        0 <= k < chain.len(),
        0 <= j < chain[k].required@.len(),
    ensures
        chain_ok(chain) ==> chain[k].required@[j]@ is File,
        node_after(chain[k].required@[j]@, required_step(chain[k].required@[j]@)) is File,
{
    if chain_ok(chain) {
        assert(layer_ok(chain[k].includes@, chain[k].required@));
        assert(required_verdict(chain[k].required@[j]@) == Verdict::Pass);
    }
}

} // verus!
