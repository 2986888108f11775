use git_clean::refname::{build_deletion_refspec, strip_refs_heads};

#[test]
fn strip_removes_leading_heads_prefix() {
    assert_eq!(strip_refs_heads("refs/heads/main"), "main");
    assert_eq!(strip_refs_heads("refs/heads/feature-x"), "feature-x");
}

#[test]
fn strip_leaves_short_names_alone() {
    assert_eq!(strip_refs_heads("main"), "main");
    assert_eq!(strip_refs_heads(""), "");
}

#[test]
fn strip_leaves_other_ref_paths_alone() {
    assert_eq!(strip_refs_heads("refs/tags/v1"), "refs/tags/v1");
    assert_eq!(strip_refs_heads("refs/remotes/origin/main"), "refs/remotes/origin/main");
}

#[test]
fn strip_of_bare_prefix_is_empty() {
    assert_eq!(strip_refs_heads("refs/heads/"), "");
}

#[test]
fn deletion_refspec_is_colon_then_ref_path() {
    assert_eq!(build_deletion_refspec("refs/heads/feature-x"), ":refs/heads/feature-x");
    assert_eq!(build_deletion_refspec("refs/heads/stale-feature"), ":refs/heads/stale-feature");
    assert_eq!(build_deletion_refspec(""), ":");
}
