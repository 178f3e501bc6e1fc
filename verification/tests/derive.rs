use resp_args::arg_macro::{PathModel, SegmentArgs, SegmentModel};
use resp_args::derive::{derive_args, keeps_attr};

fn path(names: &[&str]) -> PathModel {
    PathModel {
        leading_colon: false,
        segments: names
            .iter()
            .map(|n| SegmentModel { ident: n.to_string(), arguments: SegmentArgs::Empty })
            .collect(),
    }
}

#[test]
fn derive_names_for_a_type() {
    let names = derive_args("SetOptions");
    assert_eq!(names.mod_name, "__private_SetOptions");
    assert_eq!(names.inner_name, "SetOptionsInner");
    assert_eq!(names.remote_name, "SetOptions");
}

#[test]
fn derive_names_for_a_raw_identifier() {
    let names = derive_args("r#type");
    assert_eq!(names.mod_name, "__private_type");
    assert_eq!(names.inner_name, "typeInner");
    assert_eq!(names.remote_name, "r#type");
}

#[test]
fn derive_names_never_shadow_the_type() {
    for n in ["A", "r#A", "Inner", "__private_", "r#"] {
        let names = derive_args(n);
        assert_ne!(names.inner_name, n);
        assert_ne!(names.mod_name, n);
    }
}

#[test]
fn only_serde_attributes_are_kept() {
    assert!(keeps_attr(&path(&["serde"])));
    assert!(!keeps_attr(&path(&["doc"])));
    assert!(!keeps_attr(&path(&["arg"])));
    assert!(!keeps_attr(&path(&["serde", "rename"])));
}
