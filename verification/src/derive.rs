//! The `Serialize` derive: the names it gives the items it writes, and the
//! attributes it keeps on the copy of the input it hands to serde.
use vstd::prelude::*;

use crate::arg_macro::{path_is, path_is_ident, PathModel};

verus! {

/// The names that the derive gives the items it writes for a type.
#[derive(Debug, PartialEq, Eq)]
pub struct DeriveNames {
    /// The module that holds the copy of the type for serde's remote derive.
    pub mod_name: String,
    /// The name of that copy.
    pub inner_name: String,
    /// The name serde's remote derive is pointed at: the type's own name.
    pub remote_name: String,
}

/// An identifier's text without the `r#` of a raw identifier, as it is
/// pasted into a new identifier.
pub open spec fn unraw(name: Seq<char>) -> Seq<char> {
    if name.len() >= 2 && name[0] == 'r' && name[1] == '#' {
        name.skip(2)
    } else {
        name
    }
}

/// The text of an identifier without the `r#` of a raw identifier.
fn unraw_str(name: &str) -> (r: &str)
    ensures
        r@ == unraw(name@),
{
    let n = name.unicode_len();
    if n >= 2 && name.get_char(0) == 'r' && name.get_char(1) == '#' {
        name.substring_char(2, n)
    } else {
        name
    }
}

/// The names that the derive gives the items it writes for the type `name`:
/// the module `__private_<name>`, the copy `<name>Inner`, and the type's own
/// name for serde's remote derive.
pub fn derive_args(name: &str) -> (r: DeriveNames)
    ensures
        r.mod_name@ == "__private_"@ + unraw(name@),
        r.inner_name@ == unraw(name@) + "Inner"@,
        r.remote_name@ == name@,
{
    let bare = unraw_str(name);
    let mut mod_name = String::from_str("__private_");
    mod_name.append(bare);
    let mut inner_name = String::from_str(bare);
    inner_name.append("Inner");
    DeriveNames { mod_name, inner_name, remote_name: String::from_str(name) }
}

/// Whether the derive keeps an attribute with this path on the copy of the
/// input it hands to serde: only `#[serde...]` attributes are kept.
pub fn keeps_attr(path: &PathModel) -> (r: bool)
    ensures
        r == path_is_ident(*path, "serde"@),
{
    path_is(path, "serde")
}

/// The copy of the type and the module that holds it never take the name the
/// type is written with, so the items the derive writes do not shadow it.
pub proof fn law_derive_names_fresh(name: Seq<char>)
    ensures
        unraw(name) + "Inner"@ != name,
        "__private_"@ + unraw(name) != name,
{
    reveal_strlit("Inner");
    reveal_strlit("__private_");
    assert((unraw(name) + "Inner"@).len() != name.len());
    assert(("__private_"@ + unraw(name)).len() != name.len());
}

/// Pasting a name drops a leading `r#` and nothing else.
pub proof fn law_unraw(name: Seq<char>)
    ensures
        !(name.len() >= 2 && name[0] == 'r' && name[1] == '#') ==> unraw(name) == name,
        name.len() >= 2 && name[0] == 'r' && name[1] == '#' ==> seq!['r', '#'] + unraw(name) == name,
{
    if name.len() >= 2 && name[0] == 'r' && name[1] == '#' {
        assert(seq!['r', '#'] + name.skip(2) =~= name);
    }
}

} // verus!
