//! Claim-relative assertion references and the store's absolute addressing
//! scheme.
//!
//! An absolute URI begins with the store's addressing prefix; a relative
//! reference is joined under the owning claim's label. The originating
//! manifest of an ingredient is recovered from a reference path as the
//! component after the last slash.

use vstd::prelude::*;

use crate::text::str_starts_with;

verus! {

/// Prefix that marks a reference as already absolute.
pub open spec fn spec_absolute_prefix() -> Seq<char> {
    "self#jumbf="@
}

/// Exec counterpart of [`spec_absolute_prefix`].
pub fn absolute_prefix() -> (r: &'static str)
    ensures
        r@ == spec_absolute_prefix(),
{
    "self#jumbf="
}

/// Root under which every claim's assertions are addressed.
pub open spec fn spec_absolute_base() -> Seq<char> {
    "self#jumbf=/c2pa/"@
}

/// Exec counterpart of [`spec_absolute_base`].
pub fn absolute_base() -> (r: &'static str)
    ensures
        r@ == spec_absolute_base(),
{
    "self#jumbf=/c2pa/"
}

/// The store-addressable identifier of a claim-relative reference: an
/// already absolute reference is kept; a relative one is joined under the
/// owning claim's label.
pub open spec fn spec_to_absolute_uri(claim_label: Seq<char>, url: Seq<char>) -> Seq<char> {
    if spec_absolute_prefix().is_prefix_of(url) {
        url
    } else {
        spec_absolute_base() + claim_label + "/"@ + url
    }
}

/// Turns a claim-relative assertion reference into the store's absolute
/// addressing scheme.
pub fn to_absolute_uri(claim_label: &str, url: &str) -> (r: String)
    ensures
        r@ == spec_to_absolute_uri(claim_label@, url@),
{
    if str_starts_with(url, absolute_prefix()) {
        url.to_owned()
    } else {
        let mut s = absolute_base().to_owned();
        s.append(claim_label);
        s.append("/");
        s.append(url);
        s
    }
}

/// The component of `path` after its last slash; the whole path when it has
/// no slash.
pub open spec fn spec_manifest_label_from_path(path: Seq<char>) -> Seq<char>
    decreases path.len(),
{
    if path.len() == 0 {
        path
    } else if path.last() == '/' {
        Seq::<char>::empty()
    } else {
        spec_manifest_label_from_path(path.drop_last()).push(path.last())
    }
}

/// A slash-free suffix that starts right after a slash (or at the start of
/// the path) is exactly what [`spec_manifest_label_from_path`] yields.
proof fn lemma_label_is_suffix(path: Seq<char>, i: int)
    requires
        0 <= i <= path.len(),
        i > 0 ==> path[i - 1] == '/',
        forall|j: int| i <= j < path.len() ==> path[j] != '/',
    ensures
        spec_manifest_label_from_path(path) == path.subrange(i, path.len() as int),
    decreases path.len(),
{
    if i == path.len() {
        if i == 0 {
            assert(path.subrange(0, 0) =~= path);
        } else {
            assert(path.last() == '/');
            assert(path.subrange(i, path.len() as int) =~= Seq::<char>::empty());
        }
    } else {
        assert(path.last() == path[path.len() - 1]);
        assert(path.last() != '/');
        lemma_label_is_suffix(path.drop_last(), i);
        assert(path.drop_last().subrange(i, path.len() - 1) =~= path.subrange(
            i,
            path.len() - 1,
        ));
        assert(path.subrange(i, path.len() - 1).push(path.last()) =~= path.subrange(
            i,
            path.len() as int,
        ));
    }
}

/// Derives the label of the manifest a reference path points into.
pub fn manifest_label_from_path(path: &str) -> (r: String)
    ensures
        r@ == spec_manifest_label_from_path(path@),
{
    let len = path.unicode_len();
    let mut i: usize = len;
    while i > 0
        invariant
            path@.len() == len,
            i <= len,
            forall|j: int| i <= j < len ==> path@[j] != '/',
        ensures
            path@.len() == len,
            i <= len,
            forall|j: int| i <= j < len ==> path@[j] != '/',
            i > 0 ==> path@[i - 1] == '/',
        decreases i,
    {
        if path.get_char(i - 1) == '/' {
            break;
        }
        i -= 1;
    }
    proof {
        lemma_label_is_suffix(path@, i as int);
    }
    path.substring_char(i, len).to_owned()
}

} // verus!
