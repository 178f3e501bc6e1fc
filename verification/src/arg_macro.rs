//! The `#[arg]` attribute: which parameters of the functions of a trait or an
//! impl block it rewrites, and how.
//!
//! On a parameter whose type is `impl ... + Serialize + ...` or
//! `Option<impl ... + Serialize + ...>` and whose pattern is an identifier,
//! the attribute replaces the `Serialize` bound by `crate::resp::Arg`, or by
//! `crate::resp::Args` when the parameter carries `#[arg(many)]`, and, unless
//! the parameter carries `#[arg(forward)]`, rebinds the parameter at the start
//! of the function's body as `let name = crate::resp::Serde(name);`.
use vstd::prelude::*;

verus! {

/// A path such as `serde::Serialize`, as far as the attribute reads it.
#[derive(Debug, PartialEq, Eq)]
pub struct PathModel {
    /// Whether the path starts with `::`.
    pub leading_colon: bool,
    pub segments: Vec<SegmentModel>,
}

/// One segment of a path.
#[derive(Debug, PartialEq, Eq)]
pub struct SegmentModel {
    pub ident: String,
    pub arguments: SegmentArgs,
}

/// The generic arguments of a path segment.
#[derive(Debug, PartialEq, Eq)]
pub enum SegmentArgs {
    Empty,
    AngleBracketed(Vec<GenericArgModel>),
    Parenthesized,
}

/// One generic argument between angle brackets.
#[derive(Debug, PartialEq, Eq)]
pub enum GenericArgModel {
    Type(TypeModel),
    Other,
}

/// A type, as far as the attribute reads it.
#[derive(Debug, PartialEq, Eq)]
pub enum TypeModel {
    /// `impl Bound + ...`
    ImplTrait(Vec<BoundModel>),
    /// A path type; a qualified self, which the attribute ignores, is left out.
    Path(PathModel),
    Other,
}

/// One bound of an `impl` type.
#[derive(Debug, PartialEq, Eq)]
pub enum BoundModel {
    Trait(PathModel),
    Other,
}

/// One token of an attribute's argument list.
#[derive(Debug, PartialEq, Eq)]
pub enum TokenModel {
    Ident(String),
    Punct(char),
    Other,
}

/// The arguments of an attribute.
#[derive(Debug, PartialEq, Eq)]
pub enum MetaModel {
    /// `#[name]`
    Path,
    /// `#[name(tokens)]`
    List(Vec<TokenModel>),
    /// `#[name = value]`
    NameValue,
}

/// An attribute on a parameter.
#[derive(Debug, PartialEq, Eq)]
pub struct AttrModel {
    pub path: PathModel,
    pub meta: MetaModel,
}

/// The pattern of a parameter.
#[derive(Debug, PartialEq, Eq)]
pub enum PatModel {
    /// A pattern that binds one identifier, such as `x`, `mut x` or `ref x`.
    Ident(String),
    Other,
}

/// A typed parameter.
#[derive(Debug, PartialEq, Eq)]
pub struct TypedArgModel {
    pub attrs: Vec<AttrModel>,
    pub pat: PatModel,
    pub ty: TypeModel,
}

/// A parameter of a function.
#[derive(Debug, PartialEq, Eq)]
pub enum FnArgModel {
    /// `self`, `&self`, `&mut self`, ...
    Receiver,
    Typed(TypedArgModel),
}

/// A member of a trait or of an impl block.
#[derive(Debug, PartialEq, Eq)]
pub enum MemberModel {
    /// A function with its parameters, and whether it has a body; the flag is
    /// read for the members of a trait only, as a function of an impl block
    /// always has one.
    Fn(Vec<FnArgModel>, bool),
    Other,
}

/// The item the attribute stands on.
#[derive(Debug, PartialEq, Eq)]
pub enum ItemModel {
    Trait(Vec<MemberModel>),
    Impl(Vec<MemberModel>),
    Other,
}

/// The trait that replaces a `Serialize` bound.
#[derive(Debug, PartialEq, Eq, Structural, Clone, Copy)]
pub enum BoundTarget {
    /// `crate::resp::Arg`
    Arg,
    /// `crate::resp::Args`
    Args,
}

/// What the attribute does to one parameter.
#[derive(Debug, PartialEq, Eq)]
pub struct ArgPatch {
    /// The index of the `#[arg(...)]` attribute that is taken off the parameter.
    pub removed_attr: Option<usize>,
    /// The index of the `Serialize` bound that is replaced, and by what.
    pub bound: Option<(usize, BoundTarget)>,
    /// The name that is rebound at the start of the body.
    pub rebind: Option<String>,
}

/// The mathematical counterpart of [`ArgPatch`].
pub struct ArgPatchView {
    pub removed_attr: Option<usize>,
    pub bound: Option<(usize, BoundTarget)>,
    pub rebind: Option<Seq<char>>,
}

/// What the attribute does to one function.
#[derive(Debug, PartialEq, Eq)]
pub struct FnPatch {
    /// One patch for each parameter, in order.
    pub args: Vec<ArgPatch>,
    /// The names rebound by the statements put at the start of the body, in
    /// the order of those statements.
    pub prelude: Vec<String>,
}

/// The mathematical counterpart of [`FnPatch`].
pub struct FnPatchView {
    pub args: Seq<ArgPatchView>,
    pub prelude: Seq<Seq<char>>,
}

/// Why the attribute refuses its input.
#[derive(Debug, PartialEq, Eq)]
pub enum ArgError {
    /// `#[arg]` without a parenthesized argument list.
    MissingParens,
    /// `#[arg = ...]`.
    ExpectedParens,
    /// The argument list holds something other than an identifier at this token.
    ExpectedIdent(usize),
    /// The argument list lacks a comma at this token.
    ExpectedComma(usize),
    /// The argument list names something other than `many` or `forward` at this token.
    InvalidArg(usize, String),
    /// The attribute stands on something other than a trait or an impl block.
    UnsupportedItem,
}

/// The mathematical counterpart of [`ArgError`].
pub enum ArgErrorView {
    MissingParens,
    ExpectedParens,
    ExpectedIdent(usize),
    ExpectedComma(usize),
    InvalidArg(usize, Seq<char>),
    UnsupportedItem,
}

impl View for ArgPatch {
    type V = ArgPatchView;

    open spec fn view(&self) -> ArgPatchView {
        ArgPatchView {
            removed_attr: self.removed_attr,
            bound: self.bound,
            rebind: match self.rebind {
                Some(s) => Some(s@),
                None => None,
            },
        }
    }
}

impl View for FnPatch {
    type V = FnPatchView;

    open spec fn view(&self) -> FnPatchView {
        FnPatchView {
            args: self.args@.map_values(|p: ArgPatch| p@),
            prelude: self.prelude@.map_values(|s: String| s@),
        }
    }
}

impl View for ArgError {
    type V = ArgErrorView;

    open spec fn view(&self) -> ArgErrorView {
        match self {
            ArgError::MissingParens => ArgErrorView::MissingParens,
            ArgError::ExpectedParens => ArgErrorView::ExpectedParens,
            ArgError::ExpectedIdent(i) => ArgErrorView::ExpectedIdent(*i),
            ArgError::ExpectedComma(i) => ArgErrorView::ExpectedComma(*i),
            ArgError::InvalidArg(i, s) => ArgErrorView::InvalidArg(*i, s@),
            ArgError::UnsupportedItem => ArgErrorView::UnsupportedItem,
        }
    }
}

/// The view of a result.
pub open spec fn result_view<T: View>(r: Result<T, ArgError>) -> Result<T::V, ArgErrorView> {
    match r {
        Ok(v) => Ok(v@),
        Err(e) => Err(e@),
    }
}

// ---------------------------------------------------------------------------
// Specification

/// The identifier a path consists of, when it is a single bare identifier.
pub open spec fn path_ident(p: PathModel) -> Option<Seq<char>> {
    if !p.leading_colon && p.segments@.len() == 1 && p.segments@[0].arguments is Empty {
        Some(p.segments@[0].ident@)
    } else {
        None
    }
}

/// Whether a path is the single bare identifier `name`.
pub open spec fn path_is_ident(p: PathModel, name: Seq<char>) -> bool {
    path_ident(p) == Some(name)
}

/// The bounds of a parameter type the attribute works on: those of
/// `impl ...` or of `Option<impl ...>`.
pub open spec fn impl_bounds(ty: TypeModel) -> Option<Seq<BoundModel>> {
    match ty {
        TypeModel::ImplTrait(bounds) => Some(bounds@),
        TypeModel::Path(p) => {
            if p.segments@.len() == 1 && p.segments@[0].ident@ == "Option"@ {
                match p.segments@[0].arguments {
                    SegmentArgs::AngleBracketed(args) => {
                        if args@.len() == 1 {
                            match args@[0] {
                                GenericArgModel::Type(TypeModel::ImplTrait(bounds)) => Some(bounds@),
                                _ => None,
                            }
                        } else {
                            None
                        }
                    },
                    _ => None,
                }
            } else {
                None
            }
        },
        TypeModel::Other => None,
    }
}

/// Whether `i` is the first index of `s` whose element satisfies `p`.
pub open spec fn is_first<A>(s: Seq<A>, p: spec_fn(A) -> bool, i: int) -> bool {
    &&& 0 <= i < s.len()
    &&& p(s[i])
    &&& forall|j: int| 0 <= j < i ==> !p(#[trigger] s[j])
}

/// The first index of `s` whose element satisfies `p`, if there is one.
pub open spec fn first_index<A>(s: Seq<A>, p: spec_fn(A) -> bool) -> Option<int> {
    if exists|i: int| is_first(s, p, i) {
        Some(choose|i: int| is_first(s, p, i))
    } else {
        None
    }
}

/// The predicate "is an `#[arg...]` attribute".
pub open spec fn arg_attr_pred() -> spec_fn(AttrModel) -> bool {
    |a: AttrModel| is_arg_attr(a)
}

/// The predicate "is the bare `Serialize` bound".
pub open spec fn serialize_bound_pred() -> spec_fn(BoundModel) -> bool {
    |b: BoundModel| is_serialize_bound(b)
}

/// The predicate "is a name that `#[arg(...)]` does not know".
pub open spec fn unknown_flag_pred() -> spec_fn(Seq<char>) -> bool {
    |n: Seq<char>| !is_known_flag(n)
}

/// Whether an attribute is `#[arg...]`.
pub open spec fn is_arg_attr(a: AttrModel) -> bool {
    path_is_ident(a.path, "arg"@)
}

/// Whether a bound is the bare `Serialize`.
pub open spec fn is_serialize_bound(b: BoundModel) -> bool {
    match b {
        BoundModel::Trait(p) => path_is_ident(p, "Serialize"@),
        BoundModel::Other => false,
    }
}

/// The names of the comma-separated list of identifiers `tokens[start..]`,
/// with an optional trailing comma.
pub open spec fn spec_list_names(tokens: Seq<TokenModel>, start: int) -> Result<Seq<Seq<char>>, ArgErrorView>
    decreases tokens.len() - start,
{
    if start < 0 || start >= tokens.len() {
        Ok(Seq::empty())
    } else {
        match tokens[start] {
            TokenModel::Ident(name) => {
                if start + 1 == tokens.len() {
                    Ok(seq![name@])
                } else if tokens[start + 1] == TokenModel::Punct(',') {
                    match spec_list_names(tokens, start + 2) {
                        Ok(rest) => Ok(seq![name@] + rest),
                        Err(e) => Err(e),
                    }
                } else {
                    Err(ArgErrorView::ExpectedComma((start + 1) as usize))
                }
            },
            _ => Err(ArgErrorView::ExpectedIdent(start as usize)),
        }
    }
}

/// Whether a name is one that `#[arg(...)]` knows.
pub open spec fn is_known_flag(name: Seq<char>) -> bool {
    name == "many"@ || name == "forward"@
}

/// The flags `(many, forward)` that an `#[arg...]` attribute sets.
pub open spec fn spec_attr_flags(meta: MetaModel) -> Result<(bool, bool), ArgErrorView> {
    match meta {
        MetaModel::Path => Err(ArgErrorView::MissingParens),
        MetaModel::NameValue => Err(ArgErrorView::ExpectedParens),
        MetaModel::List(tokens) => match spec_list_names(tokens@, 0) {
            Err(e) => Err(e),
            Ok(names) => match first_index(names, unknown_flag_pred()) {
                Some(k) => Err(ArgErrorView::InvalidArg((2 * k) as usize, names[k])),
                None => Ok((names.contains("many"@), names.contains("forward"@))),
            },
        },
    }
}

/// The flags `(many, forward)` that the first `#[arg...]` attribute of a
/// parameter sets; both are off when there is no such attribute.
pub open spec fn arg_flags(t: TypedArgModel) -> Result<(bool, bool), ArgErrorView> {
    match first_index(t.attrs@, arg_attr_pred()) {
        Some(i) => spec_attr_flags(t.attrs@[i].meta),
        None => Ok((false, false)),
    }
}

/// The patch that leaves a parameter as it is.
pub open spec fn no_patch() -> ArgPatchView {
    ArgPatchView { removed_attr: None, bound: None, rebind: None }
}

/// What the attribute does to one parameter.
pub open spec fn spec_patch_arg(arg: FnArgModel) -> Result<ArgPatchView, ArgErrorView> {
    match arg {
        FnArgModel::Receiver => Ok(no_patch()),
        FnArgModel::Typed(t) => match impl_bounds(t.ty) {
            None => Ok(no_patch()),
            Some(bounds) => match t.pat {
                PatModel::Other => Ok(no_patch()),
                PatModel::Ident(name) => {
                    let attr = first_index(t.attrs@, arg_attr_pred());
                    match arg_flags(t) {
                        Err(e) => Err(e),
                        Ok((many, forward)) => {
                            let bound = first_index(bounds, serialize_bound_pred());
                            Ok(ArgPatchView {
                                removed_attr: match attr {
                                    Some(i) => Some(i as usize),
                                    None => None,
                                },
                                bound: match bound {
                                    Some(j) => Some(
                                        (j as usize, if many { BoundTarget::Args } else { BoundTarget::Arg }),
                                    ),
                                    None => None,
                                },
                                rebind: if bound is Some && !forward { Some(name@) } else { None },
                            })
                        },
                    }
                },
            },
        },
    }
}

/// What the attribute does to a function with the parameters `inputs`.
pub open spec fn spec_patch_fn(inputs: Seq<FnArgModel>, has_body: bool) -> Result<FnPatchView, ArgErrorView>
    decreases inputs.len(),
{
    if inputs.len() == 0 {
        Ok(FnPatchView { args: Seq::empty(), prelude: Seq::empty() })
    } else {
        match spec_patch_arg(inputs[0]) {
            Err(e) => Err(e),
            Ok(p) => match spec_patch_fn(inputs.drop_first(), has_body) {
                Err(e) => Err(e),
                Ok(rest) => Ok(
                    FnPatchView {
                        args: seq![p] + rest.args,
                        prelude: if has_body && p.rebind is Some {
                            rest.prelude.push(p.rebind->0)
                        } else {
                            rest.prelude
                        },
                    },
                ),
            },
        }
    }
}

/// What the attribute does to the members of a trait or of an impl block: a
/// patch for each function, none for the other members.
pub open spec fn spec_patch_members(members: Seq<MemberModel>, in_impl: bool) -> Result<Seq<Option<FnPatchView>>, ArgErrorView>
    decreases members.len(),
{
    if members.len() == 0 {
        Ok(Seq::empty())
    } else {
        let first = match members[0] {
            MemberModel::Fn(inputs, has_body) => match spec_patch_fn(inputs@, in_impl || has_body) {
                Ok(p) => Ok(Some(p)),
                Err(e) => Err(e),
            },
            MemberModel::Other => Ok(None),
        };
        match first {
            Err(e) => Err(e),
            Ok(f) => match spec_patch_members(members.drop_first(), in_impl) {
                Err(e) => Err(e),
                Ok(rest) => Ok(seq![f] + rest),
            },
        }
    }
}

/// What the attribute does to the item it stands on.
pub open spec fn spec_arg(item: ItemModel) -> Result<Seq<Option<FnPatchView>>, ArgErrorView> {
    match item {
        ItemModel::Trait(members) => spec_patch_members(members@, false),
        ItemModel::Impl(members) => spec_patch_members(members@, true),
        ItemModel::Other => Err(ArgErrorView::UnsupportedItem),
    }
}

// ---------------------------------------------------------------------------
// Lemmas

/// An index that is first is the one `first_index` picks.
pub proof fn lemma_first_index<A>(s: Seq<A>, p: spec_fn(A) -> bool, i: int)
    requires
        is_first(s, p, i),
    ensures
        first_index(s, p) == Some(i),
{
    let k = choose|k: int| is_first(s, p, k);
    assert(is_first(s, p, k));
    if k < i {
        assert(!p(s[k]));
    }
    if i < k {
        assert(!p(s[i]));
    }
}

/// With no element satisfying `p`, there is no first index.
pub proof fn lemma_no_first_index<A>(s: Seq<A>, p: spec_fn(A) -> bool)
    requires
        forall|j: int| 0 <= j < s.len() ==> !p(#[trigger] s[j]),
    ensures
        first_index(s, p) is None,
{
    if exists|i: int| is_first(s, p, i) {
        let i = choose|i: int| is_first(s, p, i);
        assert(p(s[i]));
    }
}

/// A list of `n` names takes at least `2 * n - 1` tokens.
pub proof fn lemma_list_names_len(tokens: Seq<TokenModel>, start: int)
    requires
        0 <= start <= tokens.len(),
    ensures
        spec_list_names(tokens, start) matches Ok(names) ==> 2 * names.len() <= tokens.len() - start + 1,
    decreases tokens.len() - start,
{
    if start < tokens.len() && start + 1 < tokens.len() {
        lemma_list_names_len(tokens, start + 2);
    }
}

// ---------------------------------------------------------------------------
// Implementation

/// Whether `s` is the string `lit`.
fn string_is(s: &String, lit: &str) -> (r: bool)
    ensures
        r == (s@ == lit@),
{
    let target = String::from_str(lit);
    *s == target
}

/// Whether a path is the single bare identifier `name`.
pub fn path_is(p: &PathModel, name: &str) -> (r: bool)
    ensures
        r == path_is_ident(*p, name@),
{
    if !p.leading_colon && p.segments.len() == 1 {
        match &p.segments[0].arguments {
            SegmentArgs::Empty => string_is(&p.segments[0].ident, name),
            _ => false,
        }
    } else {
        false
    }
}

/// The bounds of a parameter type the attribute works on.
fn impl_bounds_of(ty: &TypeModel) -> (r: Option<&Vec<BoundModel>>)
    ensures
        match r {
            Some(b) => impl_bounds(*ty) == Some(b@),
            None => impl_bounds(*ty) is None,
        },
{
    match ty {
        TypeModel::ImplTrait(bounds) => Some(bounds),
        TypeModel::Path(p) => {
            if p.segments.len() == 1 && string_is(&p.segments[0].ident, "Option") {
                match &p.segments[0].arguments {
                    SegmentArgs::AngleBracketed(args) => {
                        if args.len() == 1 {
                            match &args[0] {
                                GenericArgModel::Type(TypeModel::ImplTrait(bounds)) => Some(bounds),
                                _ => None,
                            }
                        } else {
                            None
                        }
                    },
                    _ => None,
                }
            } else {
                None
            }
        },
        TypeModel::Other => None,
    }
}

/// The index of the first `#[arg...]` attribute.
fn first_arg_attr(attrs: &Vec<AttrModel>) -> (r: Option<usize>)
    ensures
        match r {
            Some(i) => first_index(attrs@, arg_attr_pred()) == Some(i as int),
            None => first_index(attrs@, arg_attr_pred()) is None,
        },
{
    let mut i: usize = 0;
    while i < attrs.len()
        invariant
            i <= attrs@.len(),
            forall|j: int| 0 <= j < i ==> !(arg_attr_pred())(#[trigger] attrs@[j]),
        decreases attrs@.len() - i,
    {
        if path_is(&attrs[i].path, "arg") {
            proof {
                lemma_first_index(attrs@, arg_attr_pred(), i as int);
            }
            return Some(i);
        }
        i = i + 1;
    }
    proof {
        lemma_no_first_index(attrs@, arg_attr_pred());
    }
    None
}

/// The index of the first bare `Serialize` bound.
fn first_serialize_bound(bounds: &Vec<BoundModel>) -> (r: Option<usize>)
    ensures
        match r {
            Some(j) => first_index(bounds@, serialize_bound_pred()) == Some(j as int),
            None => first_index(bounds@, serialize_bound_pred()) is None,
        },
{
    let mut j: usize = 0;
    while j < bounds.len()
        invariant
            j <= bounds@.len(),
            forall|k: int| 0 <= k < j ==> !(serialize_bound_pred())(#[trigger] bounds@[k]),
        decreases bounds@.len() - j,
    {
        let hit = match &bounds[j] {
            BoundModel::Trait(p) => path_is(p, "Serialize"),
            BoundModel::Other => false,
        };
        if hit {
            proof {
                lemma_first_index(bounds@, serialize_bound_pred(), j as int);
            }
            return Some(j);
        }
        j = j + 1;
    }
    proof {
        lemma_no_first_index(bounds@, serialize_bound_pred());
    }
    None
}

/// The views of some strings.
pub open spec fn strings_view(v: Seq<String>) -> Seq<Seq<char>> {
    v.map_values(|s: String| s@)
}

/// The view of the result of [`flag_names`].
pub open spec fn names_result_view(r: Result<Vec<String>, ArgError>) -> Result<Seq<Seq<char>>, ArgErrorView> {
    match r {
        Ok(v) => Ok(strings_view(v@)),
        Err(e) => Err(e@),
    }
}

/// The names of the comma-separated list of identifiers `tokens`, with an
/// optional trailing comma.
pub fn flag_names(tokens: &Vec<TokenModel>) -> (r: Result<Vec<String>, ArgError>)
    ensures
        names_result_view(r) == spec_list_names(tokens@, 0),
{
    let mut names: Vec<String> = Vec::new();
    let mut i: usize = 0;
    loop
        invariant
            i <= tokens@.len(),
            spec_list_names(tokens@, 0) == match spec_list_names(tokens@, i as int) {
                Ok(rest) => Ok(strings_view(names@) + rest),
                Err(e) => Err(e),
            },
        decreases tokens@.len() - i,
    {
        if i >= tokens.len() {
            assert(strings_view(names@) + Seq::<Seq<char>>::empty() == strings_view(names@));
            return Ok(names);
        }
        let ghost old_names = strings_view(names@);
        match &tokens[i] {
            TokenModel::Ident(name) => {
                names.push(name.clone());
                assert(strings_view(names@) == old_names + seq![name@]);
                if i + 1 == tokens.len() {
                    return Ok(names);
                }
                let comma = match &tokens[i + 1] {
                    TokenModel::Punct(c) => *c == ',',
                    _ => false,
                };
                if !comma {
                    return Err(ArgError::ExpectedComma(i + 1));
                }
                proof {
                    let rest = spec_list_names(tokens@, i + 2);
                    if rest is Ok {
                        assert(old_names + (seq![name@] + rest->Ok_0) == strings_view(names@) + rest->Ok_0);
                    }
                }
                i = i + 2;
            },
            _ => {
                return Err(ArgError::ExpectedIdent(i));
            },
        }
    }
}

/// The view of the result of [`attr_flags`].
pub open spec fn flags_result_view(r: Result<(bool, bool), ArgError>) -> Result<(bool, bool), ArgErrorView> {
    match r {
        Ok(f) => Ok(f),
        Err(e) => Err(e@),
    }
}

/// Whether one of `names` is `lit`.
fn names_contain(names: &Vec<String>, lit: &str) -> (r: bool)
    ensures
        r == strings_view(names@).contains(lit@),
{
    let mut i: usize = 0;
    while i < names.len()
        invariant
            i <= names@.len(),
            forall|j: int| 0 <= j < i ==> strings_view(names@)[j] != lit@,
        decreases names@.len() - i,
    {
        if string_is(&names[i], lit) {
            assert(strings_view(names@)[i as int] == lit@);
            return true;
        }
        i = i + 1;
    }
    false
}

/// The flags `(many, forward)` that an `#[arg...]` attribute with these
/// arguments sets.
pub fn attr_flags(meta: &MetaModel) -> (r: Result<(bool, bool), ArgError>)
    ensures
        flags_result_view(r) == spec_attr_flags(*meta),
{
    match meta {
        MetaModel::Path => Err(ArgError::MissingParens),
        MetaModel::NameValue => Err(ArgError::ExpectedParens),
        MetaModel::List(tokens) => {
            let names = match flag_names(tokens) {
                Ok(names) => names,
                Err(e) => return Err(e),
            };
            let ghost ns = strings_view(names@);
            proof {
                lemma_list_names_len(tokens@, 0);
                assert(spec_list_names(tokens@, 0) == Ok::<Seq<Seq<char>>, ArgErrorView>(ns));
            }
            let mut k: usize = 0;
            while k < names.len()
                invariant
                    k <= names@.len(),
                    ns == strings_view(names@),
                    spec_list_names(tokens@, 0) == Ok::<Seq<Seq<char>>, ArgErrorView>(ns),
                    *meta == MetaModel::List(*tokens),
                    2 * names@.len() <= tokens@.len() + 1,
                    forall|j: int| 0 <= j < k ==> !(unknown_flag_pred())(#[trigger] ns[j]),
                decreases names@.len() - k,
            {
                let known = string_is(&names[k], "many") || string_is(&names[k], "forward");
                if !known {
                    proof {
                        lemma_first_index(ns, unknown_flag_pred(), k as int);
                    }
                    let token_count = tokens.len();
                    assert(2 * k < token_count);
                    let name = names[k].clone();
                    assert(name@ == ns[k as int]);
                    return Err(ArgError::InvalidArg(2 * k, name));
                }
                k = k + 1;
            }
            proof {
                lemma_no_first_index(ns, unknown_flag_pred());
            }
            Ok((names_contain(&names, "many"), names_contain(&names, "forward")))
        },
    }
}

/// What the attribute does to one parameter.
pub fn patch_arg(arg: &FnArgModel) -> (r: Result<ArgPatch, ArgError>)
    ensures
        result_view(r) == spec_patch_arg(*arg),
{
    let none = ArgPatch { removed_attr: None, bound: None, rebind: None };
    let t = match arg {
        FnArgModel::Receiver => return Ok(none),
        FnArgModel::Typed(t) => t,
    };
    let bounds = match impl_bounds_of(&t.ty) {
        Some(bounds) => bounds,
        None => return Ok(none),
    };
    let name = match &t.pat {
        PatModel::Ident(name) => name,
        PatModel::Other => return Ok(none),
    };
    let attr = first_arg_attr(&t.attrs);
    let (many, forward) = match attr {
        Some(i) => match attr_flags(&t.attrs[i].meta) {
            Ok(flags) => flags,
            Err(e) => return Err(e),
        },
        None => (false, false),
    };
    match first_serialize_bound(bounds) {
        Some(j) => {
            let target = if many {
                BoundTarget::Args
            } else {
                BoundTarget::Arg
            };
            let rebind = if forward {
                None
            } else {
                Some(name.clone())
            };
            Ok(ArgPatch { removed_attr: attr, bound: Some((j, target)), rebind })
        },
        None => Ok(ArgPatch { removed_attr: attr, bound: None, rebind: None }),
    }
}

/// The views of some parameter patches.
pub open spec fn patches_view(v: Seq<ArgPatch>) -> Seq<ArgPatchView> {
    v.map_values(|p: ArgPatch| p@)
}

/// The result of [`patch_fn`], given the patches `args` and the statements
/// `prelude` of a prefix of the parameters and the result `rest` for the
/// remaining ones.
pub open spec fn after_prefix(
    args: Seq<ArgPatchView>,
    prelude: Seq<Seq<char>>,
    rest: Result<FnPatchView, ArgErrorView>,
) -> Result<FnPatchView, ArgErrorView> {
    match rest {
        Ok(p) => Ok(FnPatchView { args: args + p.args, prelude: p.prelude + prelude }),
        Err(e) => Err(e),
    }
}

/// What the attribute does to a function with the parameters `inputs`, which
/// has a body when `has_body` holds.
pub fn patch_fn(inputs: &Vec<FnArgModel>, has_body: bool) -> (r: Result<FnPatch, ArgError>)
    ensures
        result_view(r) == spec_patch_fn(inputs@, has_body),
{
    let mut args: Vec<ArgPatch> = Vec::new();
    let mut prelude: Vec<String> = Vec::new();
    let mut i: usize = 0;
    proof {
        assert(inputs@.skip(0) == inputs@);
        if let Ok(p) = spec_patch_fn(inputs@, has_body) {
            assert(patches_view(args@) + p.args == p.args);
            assert(p.prelude + strings_view(prelude@) == p.prelude);
        }
    }
    while i < inputs.len()
        invariant
            i <= inputs@.len(),
            spec_patch_fn(inputs@, has_body) == after_prefix(
                patches_view(args@),
                strings_view(prelude@),
                spec_patch_fn(inputs@.skip(i as int), has_body),
            ),
        decreases inputs@.len() - i,
    {
        let ghost suffix = inputs@.skip(i as int);
        assert(suffix[0] == inputs@[i as int]);
        assert(suffix.drop_first() == inputs@.skip(i + 1));
        let p = match patch_arg(&inputs[i]) {
            Ok(p) => p,
            Err(e) => return Err(e),
        };
        let ghost old_args = patches_view(args@);
        let ghost old_prelude = strings_view(prelude@);
        if has_body {
            match &p.rebind {
                Some(name) => {
                    prelude.insert(0, name.clone());
                    assert(strings_view(prelude@) == seq![name@] + old_prelude);
                },
                None => {},
            }
        }
        args.push(p);
        assert(patches_view(args@) == old_args.push(p@));
        proof {
            let rest = spec_patch_fn(inputs@.skip(i + 1), has_body);
            if let Ok(rp) = rest {
                assert(old_args + (seq![p@] + rp.args) == patches_view(args@) + rp.args);
                if has_body && p@.rebind is Some {
                    assert(rp.prelude.push(p@.rebind->0) + old_prelude == rp.prelude + strings_view(prelude@));
                } else {
                    assert(strings_view(prelude@) == old_prelude);
                }
            }
        }
        i = i + 1;
    }
    assert(inputs@.skip(i as int) =~= Seq::<FnArgModel>::empty());
    assert(patches_view(args@) + Seq::<ArgPatchView>::empty() == patches_view(args@));
    assert(Seq::<Seq<char>>::empty() + strings_view(prelude@) == strings_view(prelude@));
    Ok(FnPatch { args, prelude })
}

/// The views of the patches of some members.
pub open spec fn member_patches_view(v: Seq<Option<FnPatch>>) -> Seq<Option<FnPatchView>> {
    v.map_values(
        |o: Option<FnPatch>|
            match o {
                Some(p) => Some(p@),
                None => None,
            },
    )
}

/// The view of the result of [`arg`].
pub open spec fn members_result_view(r: Result<Vec<Option<FnPatch>>, ArgError>) -> Result<
    Seq<Option<FnPatchView>>,
    ArgErrorView,
> {
    match r {
        Ok(v) => Ok(member_patches_view(v@)),
        Err(e) => Err(e@),
    }
}

/// What the attribute does to the members of a trait (`in_impl` false) or of
/// an impl block (`in_impl` true).
fn patch_members(members: &Vec<MemberModel>, in_impl: bool) -> (r: Result<Vec<Option<FnPatch>>, ArgError>)
    ensures
        members_result_view(r) == spec_patch_members(members@, in_impl),
{
    let mut out: Vec<Option<FnPatch>> = Vec::new();
    let mut i: usize = 0;
    proof {
        assert(members@.skip(0) == members@);
        if let Ok(rest) = spec_patch_members(members@, in_impl) {
            assert(member_patches_view(out@) + rest == rest);
        }
    }
    while i < members.len()
        invariant
            i <= members@.len(),
            spec_patch_members(members@, in_impl) == match spec_patch_members(members@.skip(i as int), in_impl) {
                Ok(rest) => Ok(member_patches_view(out@) + rest),
                Err(e) => Err(e),
            },
        decreases members@.len() - i,
    {
        let ghost suffix = members@.skip(i as int);
        assert(suffix[0] == members@[i as int]);
        assert(suffix.drop_first() == members@.skip(i + 1));
        let ghost old_out = member_patches_view(out@);
        let patched = match &members[i] {
            MemberModel::Fn(inputs, has_body) => match patch_fn(inputs, in_impl || *has_body) {
                Ok(p) => Some(p),
                Err(e) => return Err(e),
            },
            MemberModel::Other => None,
        };
        out.push(patched);
        assert(member_patches_view(out@) == old_out.push(
            match patched {
                Some(p) => Some(p@),
                None => None,
            },
        ));
        proof {
            if let Ok(rest) = spec_patch_members(members@.skip(i + 1), in_impl) {
                assert(old_out + (seq![member_patches_view(out@).last()] + rest) == member_patches_view(out@) + rest);
            }
        }
        i = i + 1;
    }
    assert(members@.skip(i as int) =~= Seq::<MemberModel>::empty());
    assert(member_patches_view(out@) + Seq::<Option<FnPatchView>>::empty() == member_patches_view(out@));
    Ok(out)
}

/// What the attribute does to the item it stands on: a patch for each
/// function of a trait or of an impl block, in order.
pub fn arg(item: &ItemModel) -> (r: Result<Vec<Option<FnPatch>>, ArgError>)
    ensures
        members_result_view(r) == spec_arg(*item),
{
    match item {
        ItemModel::Trait(members) => patch_members(members, false),
        ItemModel::Impl(members) => patch_members(members, true),
        ItemModel::Other => Err(ArgError::UnsupportedItem),
    }
}

// ---------------------------------------------------------------------------
// Laws

/// A receiver, a parameter whose type is neither `impl ...` nor
/// `Option<impl ...>`, and one whose pattern is not an identifier are left as
/// they are, attributes included.
pub proof fn law_untouched_params(arg: FnArgModel)
    requires
        match arg {
            FnArgModel::Receiver => true,
            FnArgModel::Typed(t) => impl_bounds(t.ty) is None || t.pat is Other,
        },
    ensures
        spec_patch_arg(arg) == Ok::<ArgPatchView, ArgErrorView>(no_patch()),
{
}

/// On a parameter the attribute works on, with flags `(many, forward)`: the
/// first `#[arg...]` attribute is taken off; the first bare `Serialize` bound,
/// if there is one, is replaced by `Args` when `many` is set and by `Arg`
/// otherwise; and the parameter's own name is rebound exactly when a bound
/// was replaced and `forward` is not set.
pub proof fn law_patch_shape(t: TypedArgModel, many: bool, forward: bool)
    requires
        t.pat is Ident,
        impl_bounds(t.ty) is Some,
        arg_flags(t) == Ok::<(bool, bool), ArgErrorView>((many, forward)),
        t.attrs@.len() <= usize::MAX,
        impl_bounds(t.ty)->0.len() <= usize::MAX,
    ensures
        spec_patch_arg(FnArgModel::Typed(t)) matches Ok(p) && {
            &&& (p.removed_attr is Some <==> first_index(t.attrs@, arg_attr_pred()) is Some)
            &&& (p.removed_attr matches Some(i) ==> is_arg_attr(t.attrs@[i as int]))
            &&& (p.bound is Some <==> exists|j: int|
                0 <= j < impl_bounds(t.ty)->0.len() && is_serialize_bound(
                    #[trigger] impl_bounds(t.ty)->0[j],
                ))
            &&& (p.bound matches Some((j, target)) ==> {
                &&& is_serialize_bound(impl_bounds(t.ty)->0[j as int])
                &&& (target == BoundTarget::Args <==> many)
            })
            &&& (p.rebind is Some <==> (p.bound is Some && !forward))
            &&& (p.rebind matches Some(n) ==> n == t.pat->Ident_0@)
        },
{
    let bounds = impl_bounds(t.ty)->0;
    let attrs = t.attrs@;
    let p = spec_patch_arg(FnArgModel::Typed(t))->Ok_0;
    assert(spec_patch_arg(FnArgModel::Typed(t)) is Ok);
    if let Some(i) = first_index(attrs, arg_attr_pred()) {
        assert(is_first(attrs, arg_attr_pred(), i));
    }
    if let Some(j) = first_index(bounds, serialize_bound_pred()) {
        assert(is_first(bounds, serialize_bound_pred(), j));
    }
    if exists|j: int| 0 <= j < bounds.len() && is_serialize_bound(#[trigger] bounds[j]) {
        let j = choose|j: int| 0 <= j < bounds.len() && is_serialize_bound(#[trigger] bounds[j]);
        if first_index(bounds, serialize_bound_pred()) is None {
            lemma_first_exists(bounds, serialize_bound_pred(), j);
        }
    }
}

/// When some element satisfies `p`, a first one does.
pub proof fn lemma_first_exists<A>(s: Seq<A>, p: spec_fn(A) -> bool, k: int)
    requires
        0 <= k < s.len(),
        p(s[k]),
    ensures
        first_index(s, p) is Some,
    decreases k,
{
    if forall|j: int| 0 <= j < k ==> !p(#[trigger] s[j]) {
        assert(is_first(s, p, k));
    } else {
        let j = choose|j: int| 0 <= j < k && p(#[trigger] s[j]);
        lemma_first_exists(s, p, j);
    }
}

/// The names rebound by some parameter patches, last parameter first.
pub open spec fn rebinds_reversed(ps: Seq<ArgPatchView>) -> Seq<Seq<char>>
    decreases ps.len(),
{
    if ps.len() == 0 {
        Seq::empty()
    } else {
        let rest = rebinds_reversed(ps.drop_first());
        match ps[0].rebind {
            Some(n) => rest.push(n),
            None => rest,
        }
    }
}

/// A function is patched parameter by parameter: its patch has one entry for
/// each parameter, that parameter's own patch; the statements put at the start
/// of its body rebind the rebound parameters, last parameter first, and there
/// are none when it has no body. If a parameter is refused, the function is
/// refused with the error of the first refused parameter.
pub proof fn law_patch_fn(inputs: Seq<FnArgModel>, has_body: bool)
    ensures
        spec_patch_fn(inputs, has_body) matches Ok(fp) ==> {
            &&& fp.args.len() == inputs.len()
            &&& forall|i: int| 0 <= i < inputs.len() ==> spec_patch_arg(#[trigger] inputs[i]) == Ok::<ArgPatchView, ArgErrorView>(fp.args[i])
            &&& fp.prelude == if has_body { rebinds_reversed(fp.args) } else { Seq::empty() }
        },
        forall|k: int| #![trigger spec_patch_arg(inputs[k])]
            0 <= k < inputs.len() && spec_patch_arg(inputs[k]) is Err
            && (forall|j: int| 0 <= j < k ==> spec_patch_arg(#[trigger] inputs[j]) is Ok)
            ==> spec_patch_fn(inputs, has_body) == Err::<FnPatchView, ArgErrorView>(spec_patch_arg(inputs[k])->Err_0),
    decreases inputs.len(),
{
    if inputs.len() > 0 {
        let rest = inputs.drop_first();
        law_patch_fn(rest, has_body);
        if let Ok(fp) = spec_patch_fn(inputs, has_body) {
            let p = spec_patch_arg(inputs[0])->Ok_0;
            let rp = spec_patch_fn(rest, has_body)->Ok_0;
            assert(fp.args == seq![p] + rp.args);
            assert(fp.args.drop_first() == rp.args);
            assert forall|i: int| 0 <= i < inputs.len() implies spec_patch_arg(#[trigger] inputs[i]) == Ok::<ArgPatchView, ArgErrorView>(fp.args[i]) by {
                if i > 0 {
                    assert(inputs[i] == rest[i - 1]);
                }
            }
        }
        assert forall|k: int| #![trigger spec_patch_arg(inputs[k])]
            0 <= k < inputs.len() && spec_patch_arg(inputs[k]) is Err
            && (forall|j: int| 0 <= j < k ==> spec_patch_arg(#[trigger] inputs[j]) is Ok)
            implies spec_patch_fn(inputs, has_body) == Err::<FnPatchView, ArgErrorView>(spec_patch_arg(inputs[k])->Err_0) by {
            if k > 0 {
                assert(spec_patch_arg(inputs[0]) is Ok);
                assert(inputs[k] == rest[k - 1]);
                assert forall|j: int| 0 <= j < k - 1 implies spec_patch_arg(#[trigger] rest[j]) is Ok by {
                    assert(rest[j] == inputs[j + 1]);
                }
            }
        }
    }
}

/// The attribute patches the functions of a trait or of an impl block, one
/// patch for each function and none for the other members; a function of an
/// impl block always gets its rebinding statements. On any other item it is
/// refused.
pub proof fn law_arg_items(item: ItemModel)
    ensures
        item is Other ==> spec_arg(item) == Err::<Seq<Option<FnPatchView>>, ArgErrorView>(ArgErrorView::UnsupportedItem),
        match item {
            ItemModel::Trait(members) => spec_arg(item) matches Ok(ps) ==> members_patched(members@, false, ps),
            ItemModel::Impl(members) => spec_arg(item) matches Ok(ps) ==> members_patched(members@, true, ps),
            ItemModel::Other => true,
        },
{
    match item {
        ItemModel::Trait(members) => lemma_members_patched(members@, false),
        ItemModel::Impl(members) => lemma_members_patched(members@, true),
        ItemModel::Other => {},
    }
}

/// Each member has its own patch: its function's patch, or none.
pub open spec fn members_patched(members: Seq<MemberModel>, in_impl: bool, ps: Seq<Option<FnPatchView>>) -> bool {
    &&& ps.len() == members.len()
    &&& forall|i: int| #![trigger ps[i]] 0 <= i < members.len() ==> match members[i] {
        MemberModel::Fn(inputs, has_body) => spec_patch_fn(inputs@, in_impl || has_body) == Ok::<FnPatchView, ArgErrorView>(ps[i]->0) && ps[i] is Some,
        MemberModel::Other => ps[i] is None,
    }
}

/// [`spec_patch_members`] patches each member on its own.
pub proof fn lemma_members_patched(members: Seq<MemberModel>, in_impl: bool)
    ensures
        spec_patch_members(members, in_impl) matches Ok(ps) ==> members_patched(members, in_impl, ps),
    decreases members.len(),
{
    if members.len() > 0 {
        let rest = members.drop_first();
        lemma_members_patched(rest, in_impl);
        if let Ok(ps) = spec_patch_members(members, in_impl) {
            let rps = spec_patch_members(rest, in_impl)->Ok_0;
            assert(ps == seq![ps[0]] + rps);
            assert forall|i: int| #![trigger ps[i]] 0 < i < members.len() implies match members[i] {
                MemberModel::Fn(inputs, has_body) => spec_patch_fn(inputs@, in_impl || has_body) == Ok::<FnPatchView, ArgErrorView>(ps[i]->0) && ps[i] is Some,
                MemberModel::Other => ps[i] is None,
            } by {
                assert(members[i] == rest[i - 1]);
                assert(ps[i] == rps[i - 1]);
            }
        }
    }
}

/// Whether the token at `i` fits a comma-separated list of identifiers: an
/// identifier at an even index, a comma at an odd one.
pub open spec fn list_token_fits(tokens: Seq<TokenModel>, i: int) -> bool {
    if i % 2 == 0 {
        tokens[i] is Ident
    } else {
        tokens[i] == TokenModel::Punct(',')
    }
}

/// The identifier at index `i` of a token list.
pub open spec fn ident_at(tokens: Seq<TokenModel>, i: int) -> Seq<char> {
    tokens[i]->Ident_0@
}

/// The `k`-th name of a comma-separated list of identifiers.
pub open spec fn name_at(tokens: Seq<TokenModel>, k: int) -> Seq<char> {
    ident_at(tokens, 2 * k)
}

/// The error a list is refused with at a misplaced token `i`.
pub open spec fn misplaced_token_error(i: int) -> ArgErrorView {
    if i % 2 == 0 {
        ArgErrorView::ExpectedIdent(i as usize)
    } else {
        ArgErrorView::ExpectedComma(i as usize)
    }
}

/// A well-formed list from an even index `start` on yields its identifiers.
pub proof fn lemma_list_names_ok(tokens: Seq<TokenModel>, start: int)
    requires
        0 <= start,
        start % 2 == 0,
        forall|i: int| start <= i < tokens.len() ==> #[trigger] list_token_fits(tokens, i),
    ensures
        spec_list_names(tokens, start) matches Ok(ns) && (start >= tokens.len() ==> ns.len() == 0) && (
        start < tokens.len() ==> ns.len() == (tokens.len() - start + 1) / 2) && forall|k: int|
            0 <= k < ns.len() ==> #[trigger] ns[k] == ident_at(tokens, start + 2 * k),
    decreases tokens.len() - start,
{
    if start < tokens.len() {
        assert(list_token_fits(tokens, start));
        if start + 1 < tokens.len() {
            assert(list_token_fits(tokens, start + 1));
            lemma_list_names_ok(tokens, start + 2);
            let ns = spec_list_names(tokens, start)->Ok_0;
            let rest = spec_list_names(tokens, start + 2)->Ok_0;
            assert(ns == seq![ident_at(tokens, start)] + rest);
            assert forall|k: int| 0 <= k < ns.len() implies #[trigger] ns[k] == ident_at(tokens, start + 2 * k) by {
                if k > 0 {
                    assert(ns[k] == rest[k - 1]);
                }
            }
        }
    }
}

/// A list from an even index `start` on is refused at its first misplaced token.
pub proof fn lemma_list_names_err(tokens: Seq<TokenModel>, start: int, i: int)
    requires
        0 <= start <= i < tokens.len(),
        start % 2 == 0,
        !list_token_fits(tokens, i),
        forall|j: int| start <= j < i ==> #[trigger] list_token_fits(tokens, j),
    ensures
        spec_list_names(tokens, start) == Err::<Seq<Seq<char>>, ArgErrorView>(misplaced_token_error(i)),
    decreases tokens.len() - start,
{
    if i >= start + 2 {
        assert(list_token_fits(tokens, start));
        assert(list_token_fits(tokens, start + 1));
        lemma_list_names_err(tokens, start + 2, i);
    } else if i == start + 1 {
        assert(list_token_fits(tokens, start));
    }
}

/// A comma-separated list of identifiers, with an optional trailing comma,
/// yields its identifiers, all of them and in order; any other list is refused
/// at its first misplaced token, which wants an identifier at an even index
/// and a comma at an odd one.
pub proof fn law_flag_names(tokens: Seq<TokenModel>)
    ensures
        (forall|i: int| 0 <= i < tokens.len() ==> #[trigger] list_token_fits(tokens, i)) ==> (
        spec_list_names(tokens, 0) matches Ok(ns) && ns.len() == (tokens.len() + 1) / 2
            && forall|k: int| 0 <= k < ns.len() ==> #[trigger] ns[k] == name_at(tokens, k)),
        forall|i: int|
            0 <= i < tokens.len() && !#[trigger] list_token_fits(tokens, i) && (forall|j: int|
                0 <= j < i ==> #[trigger] list_token_fits(tokens, j)) ==> spec_list_names(tokens, 0)
                == Err::<Seq<Seq<char>>, ArgErrorView>(misplaced_token_error(i)),
{
    if forall|i: int| 0 <= i < tokens.len() ==> #[trigger] list_token_fits(tokens, i) {
        lemma_list_names_ok(tokens, 0);
        let ns = spec_list_names(tokens, 0)->Ok_0;
        assert forall|k: int| 0 <= k < ns.len() implies #[trigger] ns[k] == name_at(tokens, k) by {
            assert(ns[k] == ident_at(tokens, 0 + 2 * k));
        }
    }
    assert forall|i: int|
        0 <= i < tokens.len() && !#[trigger] list_token_fits(tokens, i) && (forall|j: int|
            0 <= j < i ==> #[trigger] list_token_fits(tokens, j)) implies spec_list_names(tokens, 0)
            == Err::<Seq<Seq<char>>, ArgErrorView>(misplaced_token_error(i)) by {
        lemma_list_names_err(tokens, 0, i);
    }
}

/// The flags of `#[arg(...)]`: on a well-formed list of the names `many` and
/// `forward`, `many` is set exactly when `many` occurs anywhere in the list and
/// `forward` exactly when `forward` does, whatever the order and repetitions;
/// a list naming anything else is refused at its first other name, reported
/// with that name and its token index; a malformed list is refused at its
/// first misplaced token; and an attribute without a parenthesized list is
/// refused.
pub proof fn law_attr_flags(tokens: Vec<TokenModel>)
    ensures
        spec_attr_flags(MetaModel::Path) == Err::<(bool, bool), ArgErrorView>(ArgErrorView::MissingParens),
        spec_attr_flags(MetaModel::NameValue) == Err::<(bool, bool), ArgErrorView>(ArgErrorView::ExpectedParens),
        (forall|i: int| 0 <= i < tokens@.len() ==> list_token_fits(tokens@, i)) ==> {
            let n = (tokens@.len() + 1) / 2;
            &&& (forall|k: int| 0 <= k < n ==> name_at(tokens@, k) == "many"@ || name_at(tokens@, k) == "forward"@)
                ==> spec_attr_flags(MetaModel::List(tokens)) == Ok::<(bool, bool), ArgErrorView>((
                (exists|k: int| 0 <= k < n && #[trigger] name_at(tokens@, k) == "many"@),
                (exists|k: int| 0 <= k < n && #[trigger] name_at(tokens@, k) == "forward"@),
            ))
            &&& forall|k: int|
                0 <= k < n && !(name_at(tokens@, k) == "many"@ || name_at(tokens@, k) == "forward"@)
                    && (forall|j: int| 0 <= j < k ==> #[trigger] name_at(tokens@, j) == "many"@ || name_at(tokens@, j) == "forward"@)
                    ==> spec_attr_flags(MetaModel::List(tokens)) == Err::<(bool, bool), ArgErrorView>(
                    ArgErrorView::InvalidArg((2 * k) as usize, name_at(tokens@, k)),
                )
        },
        forall|i: int|
            0 <= i < tokens@.len() && !list_token_fits(tokens@, i) && (forall|j: int|
                0 <= j < i ==> list_token_fits(tokens@, j)) ==> spec_attr_flags(MetaModel::List(tokens))
                == Err::<(bool, bool), ArgErrorView>(misplaced_token_error(i)),
{
    law_flag_names(tokens@);
    let t = tokens@;
    if forall|i: int| 0 <= i < t.len() ==> list_token_fits(t, i) {
        let ns = spec_list_names(t, 0)->Ok_0;
        let n = (t.len() + 1) / 2;
        assert(ns.len() == n);
        if forall|k: int| 0 <= k < n ==> name_at(t, k) == "many"@ || name_at(t, k) == "forward"@ {
            assert forall|j: int| 0 <= j < ns.len() implies !(unknown_flag_pred())(#[trigger] ns[j]) by {
                assert(ns[j] == name_at(t, j));
            }
            lemma_no_first_index(ns, unknown_flag_pred());
            if exists|k: int| 0 <= k < n && #[trigger] name_at(t, k) == "many"@ {
                let k = choose|k: int| 0 <= k < n && #[trigger] name_at(t, k) == "many"@;
                assert(ns[k] == "many"@);
            }
            if ns.contains("many"@) {
                let k = choose|k: int| 0 <= k < ns.len() && ns[k] == "many"@;
                assert(name_at(t, k) == ns[k]);
            }
            if exists|k: int| 0 <= k < n && #[trigger] name_at(t, k) == "forward"@ {
                let k = choose|k: int| 0 <= k < n && #[trigger] name_at(t, k) == "forward"@;
                assert(ns[k] == "forward"@);
            }
            if ns.contains("forward"@) {
                let k = choose|k: int| 0 <= k < ns.len() && ns[k] == "forward"@;
                assert(name_at(t, k) == ns[k]);
            }
        }
        assert forall|k: int|
            0 <= k < n && !(name_at(t, k) == "many"@ || name_at(t, k) == "forward"@)
                && (forall|j: int| 0 <= j < k ==> #[trigger] name_at(t, j) == "many"@ || name_at(t, j) == "forward"@)
                implies spec_attr_flags(MetaModel::List(tokens)) == Err::<(bool, bool), ArgErrorView>(
                ArgErrorView::InvalidArg((2 * k) as usize, name_at(t, k)),
            ) by {
            assert(ns[k] == name_at(t, k));
            assert forall|j: int| 0 <= j < k implies !(unknown_flag_pred())(#[trigger] ns[j]) by {
                assert(ns[j] == name_at(t, j));
            }
            assert(is_first(ns, unknown_flag_pred(), k));
            lemma_first_index(ns, unknown_flag_pred(), k);
        }
    }
}

/// A path is the bare identifier `name` exactly when it has no leading `::`
/// and a single segment, `name`, without generic arguments.
pub proof fn law_path_is_ident(p: PathModel, name: Seq<char>)
    ensures
        path_is_ident(p, name) <==> (!p.leading_colon && p.segments@.len() == 1
            && p.segments@[0].arguments is Empty && p.segments@[0].ident@ == name),
{
}

/// The attribute works on `impl` types, with their own bounds, and on
/// `Option<impl ...>`, with the bounds of the inner `impl` type; on no other type.
pub proof fn law_impl_bounds(bounds: Vec<BoundModel>, p: PathModel)
    ensures
        impl_bounds(TypeModel::ImplTrait(bounds)) == Some(bounds@),
        impl_bounds(TypeModel::Other) is None,
        (p.segments@.len() == 1 && p.segments@[0].ident@ == "Option"@ && (
        p.segments@[0].arguments matches SegmentArgs::AngleBracketed(args) && args@.len() == 1 && (
        args@[0] matches GenericArgModel::Type(TypeModel::ImplTrait(inner)) && impl_bounds(
            TypeModel::Path(p),
        ) == Some(inner@)))) || impl_bounds(TypeModel::Path(p)) is None,
        (p.segments@.len() == 1 && p.segments@[0].ident@ == "Option"@ && (
        p.segments@[0].arguments matches SegmentArgs::AngleBracketed(args) && args@.len() == 1 && (
        args@[0] matches GenericArgModel::Type(TypeModel::ImplTrait(inner))))) ==> impl_bounds(
            TypeModel::Path(p),
        ) is Some,
{
}

} // verus!
