//! Stand-ins that a scene file carries for physics shapes.

use vstd::prelude::*;

verus! {

/// Whether `text` ends in `suffix`.
pub open spec fn ends_in(text: Seq<char>, suffix: Seq<char>) -> bool {
    suffix.is_suffix_of(text)
}

/// Calls `str::ends_with` of the standard library with a string as the
/// pattern. The standard library says of it that it returns `true` exactly
/// when the pattern matches a suffix of the string; the contract says the
/// same over the two strings' characters. It is taken on trust.
#[verifier::external_body]
fn str_ends_with(text: &str, suffix: &str) -> (r: bool)
    ensures
        r == ends_in(text@, suffix@),
{
    text.ends_with(suffix)
}

/// Whether `name` is the name of a stand-in: it ends in `_collider` or in
/// `_sensor`.
pub open spec fn proxy_name(name: Seq<char>) -> bool {
    ends_in(name, "_collider"@) || ends_in(name, "_sensor"@)
}

/// Whether the object called `name` is a stand-in: a mesh that only marks
/// where a collider or a sensor goes. Such an object gets its physics shape
/// and is then hidden.
pub fn is_proxy_name(name: &str) -> (r: bool)
    ensures
        r == proxy_name(name@),
{
    str_ends_with(name, "_collider") || str_ends_with(name, "_sensor")
}

} // verus!
