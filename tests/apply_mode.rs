use configctl::{
    apply, apply_entry, apply_includes, apply_regular_file, apply_required, apply_required_path,
    apply_symlink, check_entry, check_required_path, repo_name, Action, Artifact, ChainWalk,
    CyclicPolicyError, EntryObservation, LayerObservation, PathState, Verdict,
};

fn file(s: &str) -> PathState {
    PathState::File(s.as_bytes().to_vec())
}

fn link(s: &str) -> PathState {
    PathState::Symlink(s.as_bytes().to_vec())
}

/// Carries out an action on an observed include, as a successful pass would.
fn perform(e: &EntryObservation, a: &Action) -> EntryObservation {
    let mut next = e.clone();
    match a {
        Action::CreateDir => next.parent_present = true,
        Action::WriteFile(c) => next.project = PathState::File(c.clone()),
        Action::CreateLink(t) | Action::ReplaceLink(t) => next.project = PathState::Symlink(t.clone()),
        Action::CreateEmpty => {
            if !matches!(next.project, PathState::File(_)) {
                next.project = PathState::File(Vec::new());
            }
        }
        Action::Nothing | Action::Conflict => {}
    }
    next
}

#[test]
fn regular_file_actions() {
    let c = b"X=1\n".to_vec();
    assert_eq!(apply_regular_file(&c, &PathState::Absent, false), Action::CreateDir);
    assert_eq!(apply_regular_file(&c, &PathState::Absent, true), Action::WriteFile(c.clone()));
    assert_eq!(apply_regular_file(&c, &file("X=2\n"), true), Action::WriteFile(c.clone()));
    assert_eq!(apply_regular_file(&c, &file("X=1\n"), true), Action::Nothing);
}

#[test]
fn symlink_actions() {
    let t = b"../a".to_vec();
    assert_eq!(apply_symlink(&t, &link("../a")), Action::Nothing);
    assert_eq!(apply_symlink(&t, &link("../b")), Action::ReplaceLink(t.clone()));
    assert_eq!(apply_symlink(&t, &PathState::Absent), Action::CreateLink(t.clone()));
    assert_eq!(apply_symlink(&t, &PathState::Other), Action::Conflict);
}

#[test]
fn symlink_over_regular_file_is_a_conflict() {
    let e = EntryObservation {
        policy: Artifact::Symlink(b"target".to_vec()),
        project: file("keep me"),
        parent_present: true,
    };
    let a = apply_entry(&e);
    assert_eq!(a, Action::Conflict);
    assert_eq!(perform(&e, &a).project, file("keep me"));
    let plan = apply(&LayerObservation { includes: vec![e], required: Vec::new() });
    assert!(!plan.ok);
}

#[test]
fn invalid_entry_is_skipped_when_converging() {
    let e = EntryObservation { policy: Artifact::Invalid, project: PathState::Absent, parent_present: true };
    assert_eq!(apply_entry(&e), Action::Nothing);
    assert_eq!(check_entry(&e), Verdict::InvalidEntry);
    let plan = apply(&LayerObservation { includes: vec![e], required: Vec::new() });
    assert!(plan.ok);
    assert_eq!(plan.includes, vec![Action::Nothing]);
}

#[test]
fn directory_then_file() {
    let e = EntryObservation {
        policy: Artifact::File(b"data".to_vec()),
        project: PathState::Absent,
        parent_present: false,
    };
    let first = apply_entry(&e);
    assert_eq!(first, Action::CreateDir);
    let e1 = perform(&e, &first);
    assert_eq!(e1.project, PathState::Absent);
    let second = apply_entry(&e1);
    assert_eq!(second, Action::WriteFile(b"data".to_vec()));
    let e2 = perform(&e1, &second);
    assert_eq!(apply_entry(&e2), Action::Nothing);
    assert_eq!(check_entry(&e2), Verdict::Pass);
}

#[test]
fn converging_twice_writes_nothing_the_second_time() {
    let entries = vec![
        EntryObservation { policy: Artifact::File(b"a".to_vec()), project: file("b"), parent_present: true },
        EntryObservation { policy: Artifact::File(b"a".to_vec()), project: PathState::Absent, parent_present: true },
        EntryObservation { policy: Artifact::Symlink(b"t".to_vec()), project: link("u"), parent_present: true },
        EntryObservation { policy: Artifact::Symlink(b"t".to_vec()), project: PathState::Absent, parent_present: true },
    ];
    for e in &entries {
        let a = apply_entry(e);
        assert_ne!(a, Action::Nothing);
        let after = perform(e, &a);
        assert_eq!(apply_entry(&after), Action::Nothing);
        assert_eq!(check_entry(&after), Verdict::Pass);
    }
}

#[test]
fn required_paths_are_created_empty_once() {
    assert_eq!(apply_required_path(&PathState::Absent), Action::CreateEmpty);
    assert_eq!(apply_required_path(&file("existing content")), Action::Nothing);
    assert_eq!(apply_required_path(&file("")), Action::Nothing);
    let acts = apply_required(&vec![PathState::Absent, file("x")]);
    assert_eq!(acts, vec![Action::CreateEmpty, Action::Nothing]);
    let e = EntryObservation { policy: Artifact::Invalid, project: PathState::Absent, parent_present: true };
    let after = perform(&e, &Action::CreateEmpty).project;
    assert_eq!(after, file(""));
    assert_eq!(apply_required_path(&after), Action::Nothing);
    assert_eq!(check_required_path(&after), Verdict::Pass);
}

#[test]
fn layer_plan_covers_includes_and_required() {
    let layer = LayerObservation {
        includes: vec![
            EntryObservation { policy: Artifact::File(b"a".to_vec()), project: file("a"), parent_present: true },
            EntryObservation { policy: Artifact::Symlink(b"t".to_vec()), project: PathState::Absent, parent_present: true },
        ],
        required: vec![PathState::Absent],
    };
    let plan = apply(&layer);
    assert_eq!(plan.includes, vec![Action::Nothing, Action::CreateLink(b"t".to_vec())]);
    assert_eq!(plan.required, vec![Action::CreateEmpty]);
    assert!(plan.ok);
    assert_eq!(apply_includes(&layer.includes), plan.includes);
}

#[test]
fn chain_converges_required_paths_of_every_layer() {
    // B (derived) requires r2, A (base) requires r1: both are created.
    let b = LayerObservation { includes: Vec::new(), required: vec![PathState::Absent] };
    let a = LayerObservation { includes: Vec::new(), required: vec![PathState::Absent] };
    for layer in [b, a] {
        assert_eq!(apply(&layer).required, vec![Action::CreateEmpty]);
    }
}

#[test]
fn lint_cfg_scenario() {
    let policy = Artifact::File(b"X=1\n".to_vec());
    let e = EntryObservation { policy: policy.clone(), project: PathState::Absent, parent_present: true };
    let a = apply_entry(&e);
    assert_eq!(a, Action::WriteFile(b"X=1\n".to_vec()));
    let e = perform(&e, &a);
    assert_eq!(e.project, file("X=1\n"));
    assert_eq!(check_entry(&e), Verdict::Pass);

    let edited = EntryObservation { policy, project: file("X=2\n"), parent_present: true };
    assert_eq!(check_entry(&edited), Verdict::Mismatch);
    let a = apply_entry(&edited);
    let restored = perform(&edited, &a);
    assert_eq!(restored.project, file("X=1\n"));
    assert_eq!(check_entry(&restored), Verdict::Pass);
}

#[test]
fn chain_walk_detects_cycles() {
    let mut walk = ChainWalk::new();
    assert_eq!(walk.depth(), 0);
    assert_eq!(walk.enter(&b"/p/top".to_vec()), Ok(()));
    assert_eq!(walk.enter(&b"/p/base".to_vec()), Ok(()));
    assert!(walk.has_visited(&b"/p/top".to_vec()));
    assert!(!walk.has_visited(&b"/p/other".to_vec()));
    assert_eq!(
        walk.enter(&b"/p/top".to_vec()),
        Err(CyclicPolicyError { dir: b"/p/top".to_vec() })
    );
    assert_eq!(walk.depth(), 2);
}

#[test]
fn chain_walk_self_reference() {
    let mut walk = ChainWalk::new();
    assert_eq!(walk.enter(&b"/p".to_vec()), Ok(()));
    assert!(walk.enter(&b"/p".to_vec()).is_err());
}

#[test]
fn repository_name_is_last_segment() {
    assert_eq!(repo_name(&b"org/repo".to_vec()), b"repo".to_vec());
    assert_eq!(repo_name(&b"https://host/org/policy".to_vec()), b"policy".to_vec());
    assert_eq!(repo_name(&b"repo".to_vec()), b"repo".to_vec());
    assert_eq!(repo_name(&b"org/".to_vec()), Vec::<u8>::new());
    assert_eq!(repo_name(&Vec::new()), Vec::<u8>::new());
}
