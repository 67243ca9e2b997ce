//! Store-level resolution: every claim of the store resolved into a
//! label-keyed map, plus the active (provenance) manifest label.

use vstd::prelude::*;

use crate::error::{Error, ErrorV};
use crate::manifest::{spec_resolve_claim, ManifestEntry, ManifestEntryV};
use crate::model::{ClaimV, Store, StoreV, ValidationStatus, ValidationStatusV};
use crate::text::str_eq;

verus! {

/// Spec view of a [`ManifestStoreResult`].
pub ghost struct ManifestStoreResultV {
    pub active_manifest: Option<Seq<char>>,
    pub manifests: Seq<(Seq<char>, ManifestEntryV)>,
}

/// The fully resolved store: the label of the active manifest, if the
/// store designates one, and one resolved entry per claim, keyed by label.
pub struct ManifestStoreResult {
    pub active_manifest: Option<String>,
    pub manifests: Vec<(String, ManifestEntry)>,
}

impl View for ManifestStoreResult {
    type V = ManifestStoreResultV;

    open spec fn view(&self) -> ManifestStoreResultV {
        ManifestStoreResultV {
            active_manifest: self.active_manifest.deep_view(),
            manifests: self.manifests.deep_view(),
        }
    }
}

/// Every claim of the store resolved in enumeration order, keyed by claim
/// label; the first claim failure aborts with that claim's error.
pub open spec fn spec_resolve_claims(
    claims: Seq<ClaimV>,
    store: StoreV,
    status: Seq<ValidationStatusV>,
) -> Result<Seq<(Seq<char>, ManifestEntryV)>, ErrorV>
    decreases claims.len(),
{
    if claims.len() == 0 {
        Ok(Seq::empty())
    } else {
        match spec_resolve_claims(claims.drop_last(), store, status) {
            Err(e) => Err(e),
            Ok(ms) => match spec_resolve_claim(claims.last(), store, status) {
                Ok(entry) => Ok(ms.push((claims.last().label, entry))),
                Err(e) => Err(e),
            },
        }
    }
}

/// Resolution of a whole store: all-or-nothing. Any claim failure is
/// rewrapped as a manifest-conversion error; on success the result carries
/// the store's provenance label and one entry per claim.
pub open spec fn spec_resolve_store(store: StoreV, status: Seq<ValidationStatusV>) -> Result<
    ManifestStoreResultV,
    ErrorV,
> {
    match spec_resolve_claims(store.claims, store, status) {
        Err(_) => Err(ErrorV::ManifestConversion),
        Ok(ms) => Ok(
            ManifestStoreResultV { active_manifest: store.provenance, manifests: ms },
        ),
    }
}

/// Once a prefix of the claim sequence fails to resolve, the whole
/// sequence fails with the same error.
proof fn lemma_resolve_claims_err_persists(
    claims: Seq<ClaimV>,
    store: StoreV,
    status: Seq<ValidationStatusV>,
    k: int,
)
    requires
        0 <= k <= claims.len(),
        spec_resolve_claims(claims.take(k), store, status) is Err,
    ensures
        spec_resolve_claims(claims, store, status) == spec_resolve_claims(
            claims.take(k),
            store,
            status,
        ),
    decreases claims.len() - k,
{
    if k == claims.len() {
        assert(claims.take(k) =~= claims);
    } else {
        assert(claims.take(k + 1).drop_last() =~= claims.take(k));
        lemma_resolve_claims_err_persists(claims, store, status, k + 1);
    }
}

/// Resolves every claim of the store into a label-keyed map and records
/// the provenance label; the first claim failure aborts the whole store.
fn manifest_store_to_object(store: &Store, status: &[ValidationStatus]) -> (r: Result<
    ManifestStoreResult,
    Error,
>)
    ensures
        ({
            let s = spec_resolve_store(store@, status.deep_view());
            match r {
                Ok(res) => s is Ok && res@ == s->Ok_0,
                Err(e) => s is Err && e@ == s->Err_0,
            }
        }),
{
    let n = store.claims.len();
    let mut manifests: Vec<(String, ManifestEntry)> = Vec::new();
    let mut i: usize = 0;
    proof {
        assert(store@.claims.take(0) =~= Seq::<ClaimV>::empty());
        assert(manifests.deep_view() =~= Seq::<(Seq<char>, ManifestEntryV)>::empty());
    }
    while i < n
        invariant
            n == store.claims.len(),
            i <= n,
            spec_resolve_claims(store@.claims.take(i as int), store@, status.deep_view())
                == Ok::<_, ErrorV>(manifests.deep_view()),
        decreases n - i,
    {
        let ghost pre = manifests.deep_view();
        proof {
            assert(store@.claims.take(i + 1).drop_last() =~= store@.claims.take(i as int));
            assert(store@.claims.take(i + 1).last() == store@.claims[i as int]);
        }
        let claim = &store.claims[i];
        match ManifestEntry::from_claim(claim, store, status) {
            Ok(entry) => {
                manifests.push((claim.label.clone(), entry));
                proof {
                    assert(manifests.deep_view() =~= pre.push((claim@.label, entry@)));
                }
            },
            Err(e) => {
                proof {
                    lemma_resolve_claims_err_persists(
                        store@.claims,
                        store@,
                        status.deep_view(),
                        i + 1,
                    );
                }
                return Err(Error::ManifestConversion(e.describe()));
            },
        }
        i += 1;
    }
    proof {
        assert(store@.claims.take(n as int) =~= store@.claims);
    }
    Ok(ManifestStoreResult { active_manifest: store.provenance_label(), manifests })
}

/// Resolves a loaded store against its already-computed validation log
/// into a serialization-ready result.
pub fn get_manifest_store_data(store: &Store, validation_log: &[ValidationStatus]) -> (r: Result<
    ManifestStoreResult,
    Error,
>)
    ensures
        ({
            let s = spec_resolve_store(store@, validation_log.deep_view());
            match r {
                Ok(res) => s is Ok && res@ == s->Ok_0,
                Err(e) => s is Err && e@ == s->Err_0,
            }
        }),
{
    manifest_store_to_object(store, validation_log)
}

impl ManifestStoreResult {
    /// First entry of the result stored under `label`, if any.
    pub open spec fn spec_get_manifest(
        manifests: Seq<(Seq<char>, ManifestEntryV)>,
        label: Seq<char>,
    ) -> Option<ManifestEntryV>
        decreases manifests.len(),
    {
        if manifests.len() == 0 {
            None
        } else if manifests[0].0 == label {
            Some(manifests[0].1)
        } else {
            Self::spec_get_manifest(manifests.drop_first(), label)
        }
    }

    /// Looks a resolved entry up by claim label.
    pub fn get_manifest<'a>(&'a self, label: &str) -> (r: Option<&'a ManifestEntry>)
        ensures
            match Self::spec_get_manifest(self@.manifests, label@) {
                Some(ev) => r is Some && r->0@ == ev,
                None => r is None,
            },
    {
        let n = self.manifests.len();
        let mut i: usize = 0;
        proof {
            assert(self@.manifests.skip(0) =~= self@.manifests);
        }
        while i < n
            invariant
                n == self.manifests.len(),
                i <= n,
                Self::spec_get_manifest(self@.manifests, label@) == Self::spec_get_manifest(
                    self@.manifests.skip(i as int),
                    label@,
                ),
            decreases n - i,
        {
            proof {
                assert(self@.manifests.skip(i as int)[0] == self@.manifests[i as int]);
            }
            if str_eq(self.manifests[i].0.as_str(), label) {
                return Some(&self.manifests[i].1);
            }
            proof {
                assert(self@.manifests.skip(i as int).drop_first() =~= self@.manifests.skip(
                    i + 1,
                ));
            }
            i += 1;
        }
        proof {
            assert(self@.manifests.skip(n as int) =~= Seq::<(Seq<char>, ManifestEntryV)>::empty());
        }
        None
    }
}

} // verus!
