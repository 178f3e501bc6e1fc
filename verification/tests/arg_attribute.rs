use resp_args::arg_macro::{
    arg, attr_flags, flag_names, patch_arg, patch_fn, path_is, ArgError, ArgPatch, AttrModel,
    BoundModel, BoundTarget, FnArgModel, GenericArgModel, ItemModel, MemberModel, MetaModel,
    PatModel, PathModel, SegmentArgs, SegmentModel, TokenModel, TypeModel, TypedArgModel,
};

fn path(names: &[&str]) -> PathModel {
    PathModel {
        leading_colon: false,
        segments: names
            .iter()
            .map(|n| SegmentModel { ident: n.to_string(), arguments: SegmentArgs::Empty })
            .collect(),
    }
}

fn bound(names: &[&str]) -> BoundModel {
    BoundModel::Trait(path(names))
}

fn impl_of(bounds: Vec<BoundModel>) -> TypeModel {
    TypeModel::ImplTrait(bounds)
}

fn option_of(ty: TypeModel) -> TypeModel {
    TypeModel::Path(PathModel {
        leading_colon: false,
        segments: vec![SegmentModel {
            ident: "Option".to_string(),
            arguments: SegmentArgs::AngleBracketed(vec![GenericArgModel::Type(ty)]),
        }],
    })
}

fn ident(n: &str) -> TokenModel {
    TokenModel::Ident(n.to_string())
}

fn comma() -> TokenModel {
    TokenModel::Punct(',')
}

fn arg_attr(tokens: Vec<TokenModel>) -> AttrModel {
    AttrModel { path: path(&["arg"]), meta: MetaModel::List(tokens) }
}

fn other_attr(name: &str) -> AttrModel {
    AttrModel { path: path(&[name]), meta: MetaModel::Path }
}

fn param(attrs: Vec<AttrModel>, name: &str, ty: TypeModel) -> FnArgModel {
    FnArgModel::Typed(TypedArgModel { attrs, pat: PatModel::Ident(name.to_string()), ty })
}

fn patch(removed_attr: Option<usize>, bound: Option<(usize, BoundTarget)>, rebind: Option<&str>) -> ArgPatch {
    ArgPatch { removed_attr, bound, rebind: rebind.map(|s| s.to_string()) }
}

#[test]
fn plain_serialize_bound_becomes_arg_and_is_rebound() {
    let p = param(vec![], "key", impl_of(vec![bound(&["Serialize"])]));
    assert_eq!(patch_arg(&p), Ok(patch(None, Some((0, BoundTarget::Arg)), Some("key"))));
}

#[test]
fn many_picks_args() {
    let p = param(
        vec![arg_attr(vec![ident("many")])],
        "keys",
        impl_of(vec![bound(&["Send"]), bound(&["Serialize"])]),
    );
    assert_eq!(patch_arg(&p), Ok(patch(Some(0), Some((1, BoundTarget::Args)), Some("keys"))));
}

#[test]
fn forward_is_not_rebound() {
    let p = param(
        vec![other_attr("doc"), arg_attr(vec![ident("many"), comma(), ident("forward"), comma()])],
        "keys",
        impl_of(vec![bound(&["Serialize"])]),
    );
    assert_eq!(patch_arg(&p), Ok(patch(Some(1), Some((0, BoundTarget::Args)), None)));
}

#[test]
fn option_of_impl_is_patched() {
    let p = param(vec![], "ttl", option_of(impl_of(vec![bound(&["Serialize"])])));
    assert_eq!(patch_arg(&p), Ok(patch(None, Some((0, BoundTarget::Arg)), Some("ttl"))));
}

#[test]
fn only_the_bare_serialize_bound_counts() {
    let p = param(vec![], "v", impl_of(vec![bound(&["serde", "Serialize"])]));
    assert_eq!(patch_arg(&p), Ok(patch(None, None, None)));
    let q = param(vec![arg_attr(vec![ident("many")])], "v", impl_of(vec![bound(&["Clone"])]));
    assert_eq!(patch_arg(&q), Ok(patch(Some(0), None, None)));
}

#[test]
fn other_parameters_are_untouched() {
    assert_eq!(patch_arg(&FnArgModel::Receiver), Ok(patch(None, None, None)));
    let plain = param(vec![arg_attr(vec![ident("bogus")])], "n", TypeModel::Other);
    assert_eq!(patch_arg(&plain), Ok(patch(None, None, None)));
    let pattern = FnArgModel::Typed(TypedArgModel {
        attrs: vec![],
        pat: PatModel::Other,
        ty: impl_of(vec![bound(&["Serialize"])]),
    });
    assert_eq!(patch_arg(&pattern), Ok(patch(None, None, None)));
    let vec_of_impl = TypeModel::Path(PathModel {
        leading_colon: false,
        segments: vec![SegmentModel {
            ident: "Vec".to_string(),
            arguments: SegmentArgs::AngleBracketed(vec![GenericArgModel::Type(impl_of(vec![bound(&[
                "Serialize",
            ])]))]),
        }],
    });
    assert_eq!(patch_arg(&param(vec![], "v", vec_of_impl)), Ok(patch(None, None, None)));
}

#[test]
fn invalid_flag_is_refused() {
    let p = param(
        vec![arg_attr(vec![ident("many"), comma(), ident("lots")])],
        "v",
        impl_of(vec![bound(&["Serialize"])]),
    );
    assert_eq!(patch_arg(&p), Err(ArgError::InvalidArg(2, "lots".to_string())));
}

#[test]
fn malformed_argument_lists_are_refused() {
    assert_eq!(attr_flags(&MetaModel::Path), Err(ArgError::MissingParens));
    assert_eq!(attr_flags(&MetaModel::NameValue), Err(ArgError::ExpectedParens));
    assert_eq!(
        attr_flags(&MetaModel::List(vec![ident("many"), ident("forward")])),
        Err(ArgError::ExpectedComma(1))
    );
    assert_eq!(
        attr_flags(&MetaModel::List(vec![comma()])),
        Err(ArgError::ExpectedIdent(0))
    );
    assert_eq!(
        attr_flags(&MetaModel::List(vec![ident("many"), comma(), comma()])),
        Err(ArgError::ExpectedIdent(2))
    );
    assert_eq!(attr_flags(&MetaModel::List(vec![])), Ok((false, false)));
    assert_eq!(
        attr_flags(&MetaModel::List(vec![ident("forward"), comma()])),
        Ok((false, true))
    );
}

#[test]
fn flag_names_reads_a_comma_separated_list() {
    assert_eq!(
        flag_names(&vec![ident("a"), comma(), ident("b"), comma()]),
        Ok(vec!["a".to_string(), "b".to_string()])
    );
    assert_eq!(flag_names(&vec![TokenModel::Other]), Err(ArgError::ExpectedIdent(0)));
}

#[test]
fn path_is_needs_a_single_bare_identifier() {
    assert!(path_is(&path(&["arg"]), "arg"));
    assert!(!path_is(&path(&["crate", "arg"]), "arg"));
    let colon = PathModel { leading_colon: true, segments: path(&["arg"]).segments };
    assert!(!path_is(&colon, "arg"));
}

#[test]
fn function_prelude_rebinds_last_parameter_first() {
    let inputs = vec![
        FnArgModel::Receiver,
        param(vec![], "a", impl_of(vec![bound(&["Serialize"])])),
        param(vec![arg_attr(vec![ident("forward")])], "b", impl_of(vec![bound(&["Serialize"])])),
        param(vec![], "c", option_of(impl_of(vec![bound(&["Serialize"])]))),
    ];
    let with_body = patch_fn(&inputs, true).unwrap();
    assert_eq!(with_body.args.len(), 4);
    assert_eq!(with_body.prelude, vec!["c".to_string(), "a".to_string()]);
    let without_body = patch_fn(&inputs, false).unwrap();
    assert_eq!(without_body.args, with_body.args);
    assert!(without_body.prelude.is_empty());
}

#[test]
fn first_refused_parameter_refuses_the_function() {
    let inputs = vec![
        param(vec![arg_attr(vec![ident("x")])], "a", impl_of(vec![bound(&["Serialize"])])),
        param(vec![AttrModel { path: path(&["arg"]), meta: MetaModel::Path }], "b", impl_of(vec![])),
    ];
    assert_eq!(patch_fn(&inputs, true), Err(ArgError::InvalidArg(0, "x".to_string())));
}

#[test]
fn trait_and_impl_members() {
    let sig = vec![param(vec![], "k", impl_of(vec![bound(&["Serialize"])]))];
    let sig2 = vec![param(vec![], "k", impl_of(vec![bound(&["Serialize"])]))];
    let sig3 = vec![param(vec![], "k", impl_of(vec![bound(&["Serialize"])]))];
    let tr = ItemModel::Trait(vec![MemberModel::Fn(sig, false), MemberModel::Other]);
    let out = arg(&tr).unwrap();
    assert_eq!(out.len(), 2);
    assert!(out[0].as_ref().unwrap().prelude.is_empty());
    assert!(out[1].is_none());
    let im = ItemModel::Impl(vec![MemberModel::Fn(sig2, false)]);
    let out = arg(&im).unwrap();
    assert_eq!(out[0].as_ref().unwrap().prelude, vec!["k".to_string()]);
    let tr_default = ItemModel::Trait(vec![MemberModel::Fn(sig3, true)]);
    assert_eq!(arg(&tr_default).unwrap()[0].as_ref().unwrap().prelude, vec!["k".to_string()]);
}

#[test]
fn other_items_are_refused() {
    assert_eq!(arg(&ItemModel::Other), Err(ArgError::UnsupportedItem));
}
