use vstd::prelude::*;

verus! {

/// The byte of the segment separator `/`.
pub const SLASH: u8 = 47;

/// `name` is the last `/`-separated segment of `repo`: the longest suffix of
/// `repo` that holds no `/`.
pub open spec fn is_last_segment(repo: Seq<u8>, name: Seq<u8>) -> bool {
    &&& name.len() <= repo.len()
    &&& name == repo.subrange(repo.len() - name.len(), repo.len() as int)
    &&& !name.contains(SLASH)
    &&& name.len() < repo.len() ==> repo[repo.len() - name.len() - 1] == SLASH
}

/// The name under which a policy repository is kept locally: the last
/// segment of its identifier (`org/repo` gives `repo`; an identifier that
/// ends in `/` gives the empty name).
pub fn repo_name(repo: &Vec<u8>) -> (r: Vec<u8>)
    ensures
        is_last_segment(repo@, r@),
{
    let n = repo.len();
    let mut start: usize = n;
    while start > 0 && repo[start - 1] != SLASH
        invariant
            0 <= start <= n,
            n == repo@.len(),
            forall|k: int| start <= k < n ==> repo@[k] != SLASH,
        decreases start,
    {
        start = start - 1;
    }
    let mut r: Vec<u8> = Vec::new();
    let mut i: usize = start;
    while i < n
        invariant
            start <= i <= n,
            n == repo@.len(),
            r@ == repo@.subrange(start as int, i as int),
        decreases n - i,
    {
        r.push(repo[i]);
        i = i + 1;
        assert(r@ =~= repo@.subrange(start as int, i as int));
    }
    assert(r@ =~= repo@.subrange(start as int, n as int));
    assert(!r@.contains(SLASH)) by {
        if r@.contains(SLASH) {
            let k = choose|k: int| 0 <= k < r@.len() && r@[k] == SLASH;
            assert(repo@[start + k] == SLASH);
        }
    }
    r
}

} // verus!
