use kit::image::{archive_name, image_id};

#[test]
fn image_id_replaces_slash_and_colon() {
    assert_eq!(image_id("registry/name:tag"), "registry_name_tag");
    assert_eq!(image_id("docker.io/library/busybox:latest"), "docker.io_library_busybox_latest");
}

#[test]
fn image_id_of_plain_name_is_the_name() {
    assert_eq!(image_id("busybox"), "busybox");
    assert_eq!(image_id("a_b-c.d"), "a_b-c.d");
}

#[test]
fn image_id_of_empty_reference_is_empty() {
    assert_eq!(image_id(""), "");
}

#[test]
fn image_id_of_separators_only() {
    assert_eq!(image_id("/"), "_");
    assert_eq!(image_id(":"), "_");
    assert_eq!(image_id("/:/:"), "____");
}

#[test]
fn image_id_replaces_every_occurrence() {
    assert_eq!(image_id("a//b::c"), "a__b__c");
    assert_eq!(image_id("localhost:5000/team/app:1.2"), "localhost_5000_team_app_1.2");
}

#[test]
fn image_id_keeps_other_characters() {
    assert_eq!(image_id("a b;c|d$e"), "a b;c|d$e");
    assert_eq!(image_id("caf\u{e9}/\u{1f600}:x"), "caf\u{e9}_\u{1f600}_x");
    assert_eq!(image_id("back\\slash"), "back\\slash");
}

#[test]
fn image_id_has_no_separator_left() {
    for reference in ["a/b:c", "///", "x:y:z/w", "registry.example.com:443/a/b/c:tag"] {
        let id = image_id(reference);
        assert!(!id.contains('/'));
        assert!(!id.contains(':'));
        assert_eq!(id.chars().count(), reference.chars().count());
    }
}

#[test]
fn image_id_is_idempotent() {
    for reference in ["a/b:c", "busybox:latest", "", "_/_:_"] {
        let once = image_id(reference);
        assert_eq!(image_id(&once), once);
    }
}

#[test]
fn image_id_same_reference_same_id() {
    assert_eq!(image_id("busybox:latest"), image_id("busybox:latest"));
}

#[test]
fn image_ids_collide_where_only_separators_differ() {
    assert_eq!(image_id("a/b"), "a_b");
    assert_eq!(image_id("a:b"), "a_b");
    assert_eq!(image_id("a_b"), "a_b");
    assert_eq!(image_id("a/b"), image_id("a:b"));
}

#[test]
fn image_ids_differ_where_more_than_separators_differ() {
    assert_ne!(image_id("a/b"), image_id("a/c"));
    assert_ne!(image_id("a/b"), image_id("a//b"));
    assert_ne!(image_id("a/b"), image_id("a-b"));
}

#[test]
fn archive_name_is_id_and_tar() {
    assert_eq!(archive_name("busybox:latest"), "busybox_latest.tar");
    assert_eq!(archive_name("a/b:c"), "a_b_c.tar");
    assert_eq!(archive_name(""), ".tar");
}
