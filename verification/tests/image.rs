use ivi::image::resolve_image;
use ivi::text::same_text;

#[test]
fn ubuntu_is_bionic() {
    assert_eq!(resolve_image("ubuntu"), "hashicorp/bionic64");
}

#[test]
fn ubuntu_with_version_is_bionic() {
    assert_eq!(resolve_image("ubuntu:18:04"), "hashicorp/bionic64");
}

#[test]
fn centos_is_centos_8() {
    assert_eq!(resolve_image("centos"), "centos/8");
    assert_eq!(resolve_image("centos:8"), "centos/8");
}

#[test]
fn centos_7_is_centos_7() {
    assert_eq!(resolve_image("centos:7"), "centos/7");
}

#[test]
fn other_names_stand_for_themselves() {
    for name in ["myorg/custom-box", "debian", "hashicorp/bionic64", "centos/8", "centos:6", ""] {
        assert_eq!(resolve_image(name), name);
    }
}

#[test]
fn aliases_are_case_sensitive_and_exact() {
    for name in ["Ubuntu", "UBUNTU", " ubuntu", "ubuntu ", "ubuntu:18.04", "CentOS", "centos:08"] {
        assert_eq!(resolve_image(name), name);
    }
}

#[test]
fn resolving_a_resolved_name_changes_nothing() {
    for name in ["ubuntu", "ubuntu:18:04", "centos", "centos:8", "centos:7", "other/box"] {
        let once = resolve_image(name);
        assert_eq!(resolve_image(&once), once);
    }
}

#[test]
fn same_text_compares_whole_strings() {
    assert!(same_text("up", "up"));
    assert!(same_text("", ""));
    assert!(!same_text("up", "upp"));
    assert!(!same_text("up", "Up"));
    assert!(!same_text("create", "up"));
}
