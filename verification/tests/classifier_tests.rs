use branch_prune::classify::{vet_branch, Classifier};
use branch_prune::errors::ErrorKind;
use branch_prune::model::{BranchTip, CommitId, RawBranch};

fn id(bytes: &[u8]) -> CommitId {
    CommitId {
        bytes: bytes.to_vec(),
    }
}

fn classifier_for(main_name: &str, main_tip: &[u8]) -> Classifier {
    Classifier::new(BranchTip {
        name: main_name.to_string(),
        tip: id(main_tip),
    })
}

#[test]
fn commit_identities_compare_by_bytes() {
    assert!(id(&[1, 2, 3]).same_as(&id(&[1, 2, 3])));
    assert!(!id(&[1, 2, 3]).same_as(&id(&[1, 2, 4])));
    assert!(!id(&[1, 2, 3]).same_as(&id(&[1, 2])));
    assert!(id(&[]).same_as(&id(&[])));
}

#[test]
fn tip_equal_to_main_tip_is_merged() {
    let mut c = classifier_for("main", &[3]);
    c.offer("feature".to_string(), &id(&[3]), Some(id(&[3])));
    assert_eq!(c.into_merged(), vec!["feature".to_string()]);
}

#[test]
fn strict_ancestor_is_merged() {
    let mut c = classifier_for("main", &[3]);
    c.offer("feature".to_string(), &id(&[1]), Some(id(&[1])));
    assert_eq!(c.into_merged(), vec!["feature".to_string()]);
}

#[test]
fn divergent_tip_is_not_merged() {
    let mut c = classifier_for("main", &[3]);
    c.offer("feature".to_string(), &id(&[4]), Some(id(&[2])));
    assert_eq!(c.into_merged(), Vec::<String>::new());
}

#[test]
fn missing_merge_base_is_not_merged() {
    let mut c = classifier_for("main", &[3]);
    c.offer("feature".to_string(), &id(&[4]), None);
    assert_eq!(c.into_merged(), Vec::<String>::new());
}

#[test]
fn main_is_never_listed() {
    let mut c = classifier_for("main", &[3]);
    c.offer("main".to_string(), &id(&[3]), Some(id(&[3])));
    assert_eq!(c.into_merged(), Vec::<String>::new());
}

#[test]
fn single_branch_repository_lists_nothing() {
    let c = classifier_for("main", &[3]);
    assert_eq!(c.into_merged(), Vec::<String>::new());
}

#[test]
fn merged_list_keeps_enumeration_order() {
    let mut c = classifier_for("main", &[9]);
    c.offer("b".to_string(), &id(&[2]), Some(id(&[2])));
    c.offer("skip".to_string(), &id(&[7]), Some(id(&[1])));
    c.offer("a".to_string(), &id(&[1]), Some(id(&[1])));
    assert_eq!(c.into_merged(), vec!["b".to_string(), "a".to_string()]);
}

#[test]
fn classifier_reports_its_main_tip() {
    let c = classifier_for("main", &[5, 6]);
    assert!(c.main_tip().same_as(&id(&[5, 6])));
}

#[test]
fn vet_accepts_a_complete_record() {
    let b = vet_branch(RawBranch {
        name: Some("feature".to_string()),
        tip: Some(id(&[1])),
    })
    .expect("a complete record passes");
    assert_eq!(b.name, "feature");
    assert!(b.tip.same_as(&id(&[1])));
}

#[test]
fn vet_rejects_a_nameless_record() {
    let err = vet_branch(RawBranch {
        name: None,
        tip: Some(id(&[1])),
    })
    .expect_err("a nameless record fails");
    assert_eq!(err.kind, ErrorKind::NotFound);
    assert_eq!(err.detail, "Invalid branch name");
}

#[test]
fn vet_rejects_a_tipless_record() {
    let err = vet_branch(RawBranch {
        name: Some("feature".to_string()),
        tip: None,
    })
    .expect_err("a tipless record fails");
    assert_eq!(err.kind, ErrorKind::NotFound);
    assert_eq!(err.detail, "Branch has no tip commit");
}
