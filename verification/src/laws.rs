//! Store-wide guarantees of the resolution engine, stated and proved over
//! the specification functions that the executable functions' contracts
//! are written against.

use vstd::prelude::*;

use crate::error::ErrorV;
use crate::labels::{spec_ingredient_label, spec_is_filtered_label};
use crate::manifest::{
    spec_classify, spec_fetch, spec_resolve_assertions, spec_resolve_claim,
    spec_resolve_ingredients, ManifestEntryV,
};
use crate::manifest_store::{spec_resolve_claims, spec_resolve_store, ManifestStoreResultV};
use crate::model::{
    spec_lookup_assertion, AssertionV, ClaimV, HashedUriV, StoreV, ValidationStatusV,
};
use crate::uri::spec_to_absolute_uri;

verus! {

/// In a successfully resolved claim sequence, an entry carries the
/// validation status exactly when its label is the store's provenance
/// label.
proof fn lemma_claims_errors_iff_provenance(
    claims: Seq<ClaimV>,
    store: StoreV,
    status: Seq<ValidationStatusV>,
)
    requires
        spec_resolve_claims(claims, store, status) is Ok,
    ensures
        ({
            let ms = spec_resolve_claims(claims, store, status)->Ok_0;
            forall|k: int|
                0 <= k < ms.len() ==> ((#[trigger] ms[k]).1.errors is Some <==> store.provenance
                    == Some(ms[k].0))
        }),
    decreases claims.len(),
{
    if claims.len() > 0 {
        lemma_claims_errors_iff_provenance(claims.drop_last(), store, status);
    }
}

/// In a resolved store, a manifest entry carries the validation status
/// (its `errors` field is present) exactly when its claim is the store's
/// provenance claim.
pub proof fn lemma_errors_iff_provenance(store: StoreV, status: Seq<ValidationStatusV>)
    requires
        spec_resolve_store(store, status) is Ok,
    ensures
        ({
            let ms = spec_resolve_store(store, status)->Ok_0.manifests;
            forall|k: int|
                0 <= k < ms.len() ==> ((#[trigger] ms[k]).1.errors is Some <==> store.provenance
                    == Some(ms[k].0))
        }),
{
    lemma_claims_errors_iff_provenance(store.claims, store, status);
}

/// In a successfully built assertion map, no key belongs to a filtered
/// label family.
proof fn lemma_map_keys_not_filtered(
    fetched: Seq<AssertionV>,
    claim_label: Seq<char>,
    pool: Seq<(Seq<char>, AssertionV)>,
)
    requires
        spec_resolve_assertions(fetched, claim_label, pool) is Ok,
    ensures
        ({
            let m = spec_resolve_assertions(fetched, claim_label, pool)->Ok_0;
            forall|k: int| 0 <= k < m.len() ==> !spec_is_filtered_label((#[trigger] m[k]).0)
        }),
    decreases fetched.len(),
{
    if fetched.len() > 0 {
        lemma_map_keys_not_filtered(fetched.drop_last(), claim_label, pool);
    }
}

/// In a resolved manifest entry, no assertion-map key matches the reserved
/// claim-thumbnail, ingredient-thumbnail, or ingredient label families:
/// those assertions are filtered out by construction.
pub proof fn lemma_no_filtered_assertion_keys(
    claim: ClaimV,
    store: StoreV,
    status: Seq<ValidationStatusV>,
)
    requires
        spec_resolve_claim(claim, store, status) is Ok,
    ensures
        ({
            let m = spec_resolve_claim(claim, store, status)->Ok_0.assertions;
            forall|k: int| 0 <= k < m.len() ==> !spec_is_filtered_label((#[trigger] m[k]).0)
        }),
{
    let fetched = spec_fetch(claim.assertions, claim.label, store.assertions);
    lemma_map_keys_not_filtered(fetched, claim.label, store.assertions);
}

/// Classifying an ingredient-shaped ingredient assertion always succeeds;
/// an absent thumbnail reference resolves to an absent thumbnail, and so
/// does a reference that fails to dereference in the pool. The nested
/// thumbnail path is never fatal.
pub proof fn lemma_ingredient_thumbnail_tolerance(
    a: AssertionV,
    claim_label: Seq<char>,
    pool: Seq<(Seq<char>, AssertionV)>,
)
    requires
        a.label == spec_ingredient_label(),
        a.content is Ingredient,
    ensures
        spec_classify(a, claim_label, pool) is Ok,
        spec_classify(a, claim_label, pool)->Ok_0 is Ingredient,
        ({
            let iv = a.content->Ingredient_0;
            let ri = spec_classify(a, claim_label, pool)->Ok_0->Ingredient_0;
            &&& iv.thumbnail is None ==> ri.thumbnail is None
            &&& (iv.thumbnail is Some && spec_lookup_assertion(
                pool,
                spec_to_absolute_uri(claim_label, iv.thumbnail->0.url),
            ) is None) ==> ri.thumbnail is None
            &&& (iv.thumbnail is Some && match spec_lookup_assertion(
                pool,
                spec_to_absolute_uri(claim_label, iv.thumbnail->0.url),
            ) {
                Some(av) => !(av.content is Thumbnail),
                None => true,
            }) ==> ri.thumbnail is None
        }),
{
}

/// Fetching ignores a dangling reference wherever it stands in the
/// ordered reference list.
proof fn lemma_fetch_skips_dangling(
    refs: Seq<HashedUriV>,
    j: int,
    hu: HashedUriV,
    claim_label: Seq<char>,
    pool: Seq<(Seq<char>, AssertionV)>,
)
    requires
        0 <= j <= refs.len(),
        spec_lookup_assertion(pool, spec_to_absolute_uri(claim_label, hu.url)) is None,
    ensures
        spec_fetch(refs.insert(j, hu), claim_label, pool) == spec_fetch(refs, claim_label, pool),
    decreases refs.len(),
{
    let ext = refs.insert(j, hu);
    if j == refs.len() {
        assert(ext.drop_last() =~= refs);
        assert(ext.last() == hu);
    } else {
        assert(ext.last() == refs.last());
        assert(ext.drop_last() =~= refs.drop_last().insert(j, hu));
        lemma_fetch_skips_dangling(refs.drop_last(), j, hu, claim_label, pool);
    }
}

/// A dangling assertion reference — one whose absolute URI dereferences to
/// nothing in the store's pool — changes nothing: a claim with such a
/// reference inserted anywhere in its reference list resolves exactly as
/// the claim without it.
pub proof fn lemma_dangling_reference_omitted(
    c1: ClaimV,
    c2: ClaimV,
    hu: HashedUriV,
    j: int,
    store: StoreV,
    status: Seq<ValidationStatusV>,
)
    requires
        spec_lookup_assertion(
            store.assertions,
            spec_to_absolute_uri(c1.label, hu.url),
        ) is None,
        0 <= j <= c1.assertions.len(),
        c2 == (ClaimV { assertions: c1.assertions.insert(j, hu), ..c1 }),
    ensures
        spec_resolve_claim(c2, store, status) == spec_resolve_claim(c1, store, status),
{
    lemma_fetch_skips_dangling(c1.assertions, j, hu, c1.label, store.assertions);
    assert(spec_fetch(c2.assertions, c2.label, store.assertions) == spec_fetch(
        c1.assertions,
        c1.label,
        store.assertions,
    ));
}

/// A fetched assertion labeled exactly with the ingredient label but whose
/// content is not ingredient-shaped makes the ingredient stage fail.
proof fn lemma_bad_ingredient_errs(
    fetched: Seq<AssertionV>,
    claim_label: Seq<char>,
    pool: Seq<(Seq<char>, AssertionV)>,
    k: int,
)
    requires
        0 <= k < fetched.len(),
        fetched[k].label == spec_ingredient_label(),
        !(fetched[k].content is Ingredient),
    ensures
        spec_resolve_ingredients(fetched, claim_label, pool) is Err,
    decreases fetched.len(),
{
    assert(spec_ingredient_label().is_prefix_of(spec_ingredient_label())) by {
        assert(spec_ingredient_label() =~= spec_ingredient_label().subrange(
            0,
            spec_ingredient_label().len() as int,
        ));
    }
    if k == fetched.len() - 1 {
        if spec_resolve_ingredients(fetched.drop_last(), claim_label, pool) is Ok {
            assert(spec_classify(fetched.last(), claim_label, pool) is Err);
        }
    } else {
        lemma_bad_ingredient_errs(fetched.drop_last(), claim_label, pool, k);
    }
}

/// A claim among whose fetched assertions one carries the ingredient label
/// with content that fails ingredient decoding cannot resolve; when its
/// assertion map builds cleanly, the failure is an ingredient-conversion
/// error.
pub proof fn lemma_undecodable_ingredient_fails_claim(
    claim: ClaimV,
    store: StoreV,
    status: Seq<ValidationStatusV>,
    k: int,
)
    requires
        ({
            let fetched = spec_fetch(claim.assertions, claim.label, store.assertions);
            &&& 0 <= k < fetched.len()
            &&& fetched[k].label == spec_ingredient_label()
            &&& !(fetched[k].content is Ingredient)
        }),
    ensures
        spec_resolve_claim(claim, store, status) is Err,
        spec_resolve_assertions(
            spec_fetch(claim.assertions, claim.label, store.assertions),
            claim.label,
            store.assertions,
        ) is Ok ==> spec_resolve_claim(claim, store, status) == Err::<
            ManifestEntryV,
            _,
        >(ErrorV::IngredientConversion),
{
    let fetched = spec_fetch(claim.assertions, claim.label, store.assertions);
    lemma_bad_ingredient_errs(fetched, claim.label, store.assertions, k);
}

/// If any claim of the store fails to resolve, the claim sequence fails.
proof fn lemma_claims_err(
    claims: Seq<ClaimV>,
    store: StoreV,
    status: Seq<ValidationStatusV>,
    k: int,
)
    requires
        0 <= k < claims.len(),
        spec_resolve_claim(claims[k], store, status) is Err,
    ensures
        spec_resolve_claims(claims, store, status) is Err,
    decreases claims.len(),
{
    if k < claims.len() - 1 {
        lemma_claims_err(claims.drop_last(), store, status, k);
    }
}

/// A single unresolvable claim fails the entire store resolution, and the
/// failure surfaces as a manifest-conversion error.
pub proof fn lemma_claim_failure_fails_store(
    store: StoreV,
    status: Seq<ValidationStatusV>,
    k: int,
)
    requires
        0 <= k < store.claims.len(),
        spec_resolve_claim(store.claims[k], store, status) is Err,
    ensures
        spec_resolve_store(store, status) == Err::<ManifestStoreResultV, _>(
            ErrorV::ManifestConversion,
        ),
{
    lemma_claims_err(store.claims, store, status, k);
}

/// Resolving a store with zero claims never fails: it yields an empty
/// manifest map and no active manifest.
pub proof fn lemma_empty_store(store: StoreV, status: Seq<ValidationStatusV>)
    requires
        store.claims.len() == 0,
        store.wf(),
    ensures
        spec_resolve_store(store, status) == Ok::<_, ErrorV>(
            (ManifestStoreResultV {
                active_manifest: None::<Seq<char>>,
                manifests: Seq::<(Seq<char>, ManifestEntryV)>::empty(),
            }),
        ),
{
    if store.provenance is Some {
        assert(false);
    }
}

} // verus!
