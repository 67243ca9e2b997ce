//! Reserved assertion label families and the filtering policy built on them.
//!
//! Assertion content shape is determined by label-prefix convention: the
//! ingredient family, the thumbnail family (with its claim and ingredient
//! sub-families), and everything else as generic user data.

use vstd::prelude::*;

use crate::text::str_starts_with;

verus! {

/// Label of ingredient assertions.
pub open spec fn spec_ingredient_label() -> Seq<char> {
    "c2pa.ingredient"@
}

/// Exec counterpart of [`spec_ingredient_label`].
pub fn ingredient_label() -> (r: &'static str)
    ensures
        r@ == spec_ingredient_label(),
{
    "c2pa.ingredient"
}

/// Base label of the thumbnail assertion family.
pub open spec fn spec_thumbnail_label() -> Seq<char> {
    "c2pa.thumbnail"@
}

/// Exec counterpart of [`spec_thumbnail_label`].
pub fn thumbnail_label() -> (r: &'static str)
    ensures
        r@ == spec_thumbnail_label(),
{
    "c2pa.thumbnail"
}

/// Base label of claim-level thumbnail assertions.
pub open spec fn spec_claim_thumbnail_label() -> Seq<char> {
    "c2pa.thumbnail.claim"@
}

/// Exec counterpart of [`spec_claim_thumbnail_label`].
pub fn claim_thumbnail_label() -> (r: &'static str)
    ensures
        r@ == spec_claim_thumbnail_label(),
{
    "c2pa.thumbnail.claim"
}

/// Base label of ingredient-level thumbnail assertions.
pub open spec fn spec_ingredient_thumbnail_label() -> Seq<char> {
    "c2pa.thumbnail.ingredient"@
}

/// Exec counterpart of [`spec_ingredient_thumbnail_label`].
pub fn ingredient_thumbnail_label() -> (r: &'static str)
    ensures
        r@ == spec_ingredient_thumbnail_label(),
{
    "c2pa.thumbnail.ingredient"
}

/// A label is filtered out of the generic assertion map when it belongs to
/// the claim-thumbnail, ingredient-thumbnail, or ingredient families: those
/// assertions are surfaced through the dedicated thumbnail field and the
/// ingredients sequence instead.
pub open spec fn spec_is_filtered_label(l: Seq<char>) -> bool {
    ||| spec_claim_thumbnail_label().is_prefix_of(l)
    ||| spec_ingredient_thumbnail_label().is_prefix_of(l)
    ||| spec_ingredient_label().is_prefix_of(l)
}

/// Exec counterpart of [`spec_is_filtered_label`].
pub fn is_filtered_label(l: &str) -> (r: bool)
    ensures
        r == spec_is_filtered_label(l@),
{
    str_starts_with(l, claim_thumbnail_label()) || str_starts_with(
        l,
        ingredient_thumbnail_label(),
    ) || str_starts_with(l, ingredient_label())
}

} // verus!
