//! Per-claim resolution: classification of fetched assertions, ingredient
//! linking, claim-thumbnail extraction, credential extraction, and the
//! assembly of one [`ManifestEntry`] per claim.

use vstd::prelude::*;

use crate::error::{Error, ErrorV};
use crate::json::{parse_json, spec_parse_json};
use crate::labels::{
    claim_thumbnail_label, ingredient_label, is_filtered_label, spec_claim_thumbnail_label,
    spec_ingredient_label, spec_is_filtered_label, spec_thumbnail_label, thumbnail_label,
};
use crate::model::{
    clone_opt_string, clone_statuses, spec_lookup_assertion, Assertion, AssertionContent,
    AssertionContentV, AssertionData, AssertionDataV, AssertionV, Claim, ClaimV, HashedUri,
    HashedUriV, Ingredient, IngredientV, Store, StoreV, Thumbnail, ThumbnailV, ValidationStatus,
    ValidationStatusV,
};
use crate::text::{str_eq, str_starts_with};
use crate::uri::{spec_manifest_label_from_path, spec_to_absolute_uri, to_absolute_uri};

verus! {

/// Spec view of a [`Signature`].
pub ghost struct SignatureV {
    pub issuer: Option<Seq<char>>,
    pub time: Option<Seq<char>>,
}

/// Signing metadata of a resolved claim.
pub struct Signature {
    pub issuer: Option<String>,
    pub time: Option<String>,
}

impl View for Signature {
    type V = SignatureV;

    open spec fn view(&self) -> SignatureV {
        SignatureV { issuer: self.issuer.deep_view(), time: self.time.deep_view() }
    }
}

/// Spec view of a [`ResolvedIngredient`].
pub ghost struct ResolvedIngredientV {
    pub ingredient: IngredientV,
    pub manifest_id: Option<Seq<char>>,
    pub thumbnail: Option<ThumbnailV>,
}

/// An ingredient assertion with its embedded references resolved: the
/// label of the manifest it originated from, and its decoded thumbnail.
pub struct ResolvedIngredient {
    pub ingredient: Ingredient,
    pub manifest_id: Option<String>,
    pub thumbnail: Option<Thumbnail>,
}

impl View for ResolvedIngredient {
    type V = ResolvedIngredientV;

    open spec fn view(&self) -> ResolvedIngredientV {
        ResolvedIngredientV {
            ingredient: self.ingredient@,
            manifest_id: self.manifest_id.deep_view(),
            thumbnail: self.thumbnail.deep_view(),
        }
    }
}

/// Spec view of a [`ResolvedAssertion`].
pub ghost enum ResolvedAssertionV {
    Ingredient(ResolvedIngredientV),
    Thumbnail(ThumbnailV),
    UserData(serde_json::Value),
}

/// One classified assertion: an ingredient, a thumbnail, or generic user
/// data decoded as JSON.
pub enum ResolvedAssertion {
    Ingredient(ResolvedIngredient),
    Thumbnail(Thumbnail),
    UserData(serde_json::Value),
}

impl View for ResolvedAssertion {
    type V = ResolvedAssertionV;

    open spec fn view(&self) -> ResolvedAssertionV {
        match self {
            ResolvedAssertion::Ingredient(ri) => ResolvedAssertionV::Ingredient(ri@),
            ResolvedAssertion::Thumbnail(t) => ResolvedAssertionV::Thumbnail(t@),
            ResolvedAssertion::UserData(v) => ResolvedAssertionV::UserData(*v),
        }
    }
}

impl DeepView for ResolvedAssertion {
    type V = ResolvedAssertionV;

    open spec fn deep_view(&self) -> ResolvedAssertionV {
        self.view()
    }
}

/// Spec view of a [`ManifestEntry`].
pub ghost struct ManifestEntryV {
    pub label: Seq<char>,
    pub claim_generator: Seq<char>,
    pub format: Seq<char>,
    pub title: Option<Seq<char>>,
    pub instance_id: Seq<char>,
    pub signature: SignatureV,
    pub assertions: Seq<(Seq<char>, ResolvedAssertionV)>,
    pub ingredients: Seq<ResolvedAssertionV>,
    pub credentials: Seq<serde_json::Value>,
    pub thumbnail: Option<ThumbnailV>,
    pub errors: Option<Seq<ValidationStatusV>>,
}

/// One resolved claim: its metadata, the deduplicated assertion map keyed
/// by label, the ordered ingredients, decoded credentials, the optional
/// claim-level thumbnail, and — only on the store's provenance claim — the
/// store-wide validation status.
pub struct ManifestEntry {
    pub label: String,
    pub claim_generator: String,
    pub format: String,
    pub title: Option<String>,
    pub instance_id: String,
    pub signature: Signature,
    pub assertions: Vec<(String, ResolvedAssertion)>,
    pub ingredients: Vec<ResolvedAssertion>,
    pub credentials: Vec<serde_json::Value>,
    pub thumbnail: Option<Thumbnail>,
    pub errors: Option<Vec<ValidationStatus>>,
}

impl View for ManifestEntry {
    type V = ManifestEntryV;

    open spec fn view(&self) -> ManifestEntryV {
        ManifestEntryV {
            label: self.label@,
            claim_generator: self.claim_generator@,
            format: self.format@,
            title: self.title.deep_view(),
            instance_id: self.instance_id@,
            signature: self.signature@,
            assertions: self.assertions.deep_view(),
            ingredients: self.ingredients.deep_view(),
            credentials: self.credentials@,
            thumbnail: self.thumbnail.deep_view(),
            errors: self.errors.deep_view(),
        }
    }
}

impl DeepView for ManifestEntry {
    type V = ManifestEntryV;

    open spec fn deep_view(&self) -> ManifestEntryV {
        self.view()
    }
}

/// The thumbnail an ingredient's embedded reference resolves to. Every
/// failure on this nested path — no reference, a dangling reference, or
/// content that is not thumbnail-shaped — degrades to `None`; it never
/// aborts ingredient resolution.
pub open spec fn spec_link_thumbnail(
    thumb_ref: Option<HashedUriV>,
    claim_label: Seq<char>,
    pool: Seq<(Seq<char>, AssertionV)>,
) -> Option<ThumbnailV> {
    match thumb_ref {
        None => None,
        Some(hu) => match spec_lookup_assertion(
            pool,
            spec_to_absolute_uri(claim_label, hu.url),
        ) {
            None => None,
            Some(av) => match av.content {
                AssertionContentV::Thumbnail(tv) => Some(tv),
                _ => None,
            },
        },
    }
}

/// The originating-manifest label an ingredient's embedded manifest
/// reference carries, when present.
pub open spec fn spec_manifest_id(manifest_ref: Option<HashedUriV>) -> Option<Seq<char>> {
    match manifest_ref {
        None => None,
        Some(hu) => Some(spec_manifest_label_from_path(hu.url)),
    }
}

/// Generic classification: decode the assertion's content as JSON text;
/// any other content shape, or invalid JSON, is a conversion failure.
pub open spec fn spec_user_assertion(a: AssertionV) -> Result<ResolvedAssertionV, ErrorV> {
    match a.content {
        AssertionContentV::Json(s) => match spec_parse_json(s) {
            Some(v) => Ok(ResolvedAssertionV::UserData(v)),
            None => Err(ErrorV::AssertionConversion),
        },
        _ => Err(ErrorV::AssertionConversion),
    }
}

/// Classification of one fetched assertion, dispatched on its label: the
/// exact ingredient label decodes as an ingredient and links its embedded
/// references; a thumbnail-family label decodes as a thumbnail; everything
/// else decodes as generic JSON user data.
pub open spec fn spec_classify(
    a: AssertionV,
    claim_label: Seq<char>,
    pool: Seq<(Seq<char>, AssertionV)>,
) -> Result<ResolvedAssertionV, ErrorV> {
    if a.label == spec_ingredient_label() {
        match a.content {
            AssertionContentV::Ingredient(iv) => Ok(
                ResolvedAssertionV::Ingredient(
                    ResolvedIngredientV {
                        ingredient: iv,
                        manifest_id: spec_manifest_id(iv.c2pa_manifest),
                        thumbnail: spec_link_thumbnail(iv.thumbnail, claim_label, pool),
                    },
                ),
            ),
            _ => Err(ErrorV::IngredientConversion),
        }
    } else if spec_thumbnail_label().is_prefix_of(a.label) {
        match a.content {
            AssertionContentV::Thumbnail(tv) => Ok(ResolvedAssertionV::Thumbnail(tv)),
            _ => Err(ErrorV::AssertionConversion),
        }
    } else {
        spec_user_assertion(a)
    }
}

/// The assertions a claim's ordered reference list dereferences to, in
/// order; a reference that fails to dereference in the pool is dropped.
pub open spec fn spec_fetch(
    refs: Seq<HashedUriV>,
    claim_label: Seq<char>,
    pool: Seq<(Seq<char>, AssertionV)>,
) -> Seq<AssertionV>
    decreases refs.len(),
{
    if refs.len() == 0 {
        Seq::empty()
    } else {
        let pre = spec_fetch(refs.drop_last(), claim_label, pool);
        match spec_lookup_assertion(
            pool,
            spec_to_absolute_uri(claim_label, refs.last().url),
        ) {
            Some(av) => pre.push(av),
            None => pre,
        }
    }
}

/// The claim's assertion map: every fetched assertion that the filtering
/// policy keeps, classified, keyed by label, in fetched order. The first
/// classification failure aborts the map.
pub open spec fn spec_resolve_assertions(
    fetched: Seq<AssertionV>,
    claim_label: Seq<char>,
    pool: Seq<(Seq<char>, AssertionV)>,
) -> Result<Seq<(Seq<char>, ResolvedAssertionV)>, ErrorV>
    decreases fetched.len(),
{
    if fetched.len() == 0 {
        Ok(Seq::empty())
    } else {
        match spec_resolve_assertions(fetched.drop_last(), claim_label, pool) {
            Err(e) => Err(e),
            Ok(m) => {
                let a = fetched.last();
                if spec_is_filtered_label(a.label) {
                    Ok(m)
                } else {
                    match spec_classify(a, claim_label, pool) {
                        Ok(ra) => Ok(m.push((a.label, ra))),
                        Err(e) => Err(e),
                    }
                }
            },
        }
    }
}

/// The claim's ingredient sequence: every fetched assertion of the
/// ingredient label family, classified, in fetched order. The first
/// failure aborts the sequence.
pub open spec fn spec_resolve_ingredients(
    fetched: Seq<AssertionV>,
    claim_label: Seq<char>,
    pool: Seq<(Seq<char>, AssertionV)>,
) -> Result<Seq<ResolvedAssertionV>, ErrorV>
    decreases fetched.len(),
{
    if fetched.len() == 0 {
        Ok(Seq::empty())
    } else {
        match spec_resolve_ingredients(fetched.drop_last(), claim_label, pool) {
            Err(e) => Err(e),
            Ok(v) => {
                let a = fetched.last();
                if spec_ingredient_label().is_prefix_of(a.label) {
                    match spec_classify(a, claim_label, pool) {
                        Ok(ra) => Ok(v.push(ra)),
                        Err(e) => Err(e),
                    }
                } else {
                    Ok(v)
                }
            },
        }
    }
}

/// The claim-level thumbnail: the first fetched assertion of the
/// claim-thumbnail label family, decoded. Absent is valid; present but not
/// thumbnail-shaped is a fatal extraction failure.
pub open spec fn spec_claim_thumbnail(fetched: Seq<AssertionV>) -> Result<
    Option<ThumbnailV>,
    ErrorV,
>
    decreases fetched.len(),
{
    if fetched.len() == 0 {
        Ok(None)
    } else if spec_claim_thumbnail_label().is_prefix_of(fetched[0].label) {
        match fetched[0].content {
            AssertionContentV::Thumbnail(tv) => Ok(Some(tv)),
            _ => Err(ErrorV::IngredientThumbnailExtraction),
        }
    } else {
        spec_claim_thumbnail(fetched.drop_first())
    }
}

/// The claim's decoded verifiable credentials: every payload that is JSON
/// text and parses, in order; every other payload is silently dropped.
pub open spec fn spec_credentials(creds: Seq<AssertionDataV>) -> Seq<serde_json::Value>
    decreases creds.len(),
{
    if creds.len() == 0 {
        Seq::empty()
    } else {
        let pre = spec_credentials(creds.drop_last());
        match creds.last() {
            AssertionDataV::Json(s) => match spec_parse_json(s) {
                Some(v) => pre.push(v),
                None => pre,
            },
            _ => pre,
        }
    }
}

/// Resolution of one claim against its store: fetch, build the assertion
/// map (a failure there is an assertion-conversion error), build the
/// ingredients (a failure there is an ingredient-conversion error),
/// extract the claim thumbnail, extract credentials, and attach the
/// store-wide validation status exactly when the claim is the store's
/// provenance claim.
pub open spec fn spec_resolve_claim(
    claim: ClaimV,
    store: StoreV,
    status: Seq<ValidationStatusV>,
) -> Result<ManifestEntryV, ErrorV> {
    let fetched = spec_fetch(claim.assertions, claim.label, store.assertions);
    match spec_resolve_assertions(fetched, claim.label, store.assertions) {
        Err(_) => Err(ErrorV::AssertionConversion),
        Ok(m) => match spec_resolve_ingredients(fetched, claim.label, store.assertions) {
            Err(_) => Err(ErrorV::IngredientConversion),
            Ok(ing) => match spec_claim_thumbnail(fetched) {
                Err(e) => Err(e),
                Ok(th) => Ok(
                    ManifestEntryV {
                        label: claim.label,
                        claim_generator: claim.claim_generator,
                        format: claim.format,
                        title: claim.title,
                        instance_id: claim.instance_id,
                        signature: SignatureV {
                            issuer: claim.signing_issuer,
                            time: claim.signing_time,
                        },
                        assertions: m,
                        ingredients: ing,
                        credentials: spec_credentials(claim.credentials),
                        thumbnail: th,
                        errors: if store.provenance == Some(claim.label) {
                            Some(status)
                        } else {
                            None
                        },
                    },
                ),
            },
        },
    }
}

impl ResolvedAssertion {
    /// Resolves an ingredient's embedded thumbnail reference against the
    /// owning claim: dereference in the pool and decode. Every failure
    /// degrades to `None`.
    fn link_ingredient_thumbnail(
        thumb_ref: &Option<HashedUri>,
        claim: &Claim,
        store: &Store,
    ) -> (r: Option<Thumbnail>)
        ensures
            r.deep_view() == spec_link_thumbnail(
                thumb_ref.deep_view(),
                claim@.label,
                store@.assertions,
            ),
    {
        match thumb_ref {
            None => None,
            Some(hu) => {
                let abs = to_absolute_uri(claim.label.as_str(), hu.url.as_str());
                match store.get_assertion_from_uri(abs.as_str()) {
                    None => None,
                    Some(a) => Thumbnail::extract_assertion(a),
                }
            },
        }
    }

    /// Classifies one fetched assertion by label: the exact ingredient
    /// label decodes as an ingredient and links its embedded references; a
    /// thumbnail-family label decodes as a thumbnail; everything else is
    /// generic user data.
    pub fn from_assertion(assertion: &Assertion, claim: &Claim, store: &Store) -> (r: Result<
        ResolvedAssertion,
        Error,
    >)
        ensures
            ({
                let s = spec_classify(assertion@, claim@.label, store@.assertions);
                match r {
                    Ok(ra) => s is Ok && ra@ == s->Ok_0,
                    Err(e) => s is Err && e@ == s->Err_0,
                }
            }),
    {
        if str_eq(assertion.label.as_str(), ingredient_label()) {
            match Ingredient::extract_assertion(assertion) {
                Some(ingredient) => {
                    let thumbnail = Self::link_ingredient_thumbnail(
                        &ingredient.thumbnail,
                        claim,
                        store,
                    );
                    let manifest_id = match &ingredient.c2pa_manifest {
                        Some(hu) => Some(Store::manifest_label_from_path(hu.url.as_str())),
                        None => None,
                    };
                    Ok(
                        ResolvedAssertion::Ingredient(
                            ResolvedIngredient { ingredient, manifest_id, thumbnail },
                        ),
                    )
                },
                None => Err(Error::IngredientConversion),
            }
        } else if str_starts_with(assertion.label.as_str(), thumbnail_label()) {
            match Thumbnail::extract_assertion(assertion) {
                Some(t) => Ok(ResolvedAssertion::Thumbnail(t)),
                None => Err(
                    Error::AssertionConversion(
                        "assertion content is not thumbnail-shaped".to_owned(),
                    ),
                ),
            }
        } else {
            Self::from_user_assertion(assertion)
        }
    }

    /// Decodes a generic user assertion's content as JSON.
    pub fn from_user_assertion(assertion: &Assertion) -> (r: Result<ResolvedAssertion, Error>)
        ensures
            ({
                let s = spec_user_assertion(assertion@);
                match r {
                    Ok(ra) => s is Ok && ra@ == s->Ok_0,
                    Err(e) => s is Err && e@ == s->Err_0,
                }
            }),
    {
        match &assertion.content {
            AssertionContent::Json(s) => match parse_json(s.as_str()) {
                Ok(v) => Ok(ResolvedAssertion::UserData(v)),
                Err(msg) => Err(Error::AssertionConversion(msg)),
            },
            _ => Err(
                Error::AssertionConversion("assertion content is not JSON text".to_owned()),
            ),
        }
    }
}

/// Once a prefix of the fetched sequence fails to resolve into the map,
/// the whole sequence fails with the same error.
proof fn lemma_resolve_assertions_err_persists(
    fetched: Seq<AssertionV>,
    claim_label: Seq<char>,
    pool: Seq<(Seq<char>, AssertionV)>,
    k: int,
)
    requires
        0 <= k <= fetched.len(),
        spec_resolve_assertions(fetched.take(k), claim_label, pool) is Err,
    ensures
        spec_resolve_assertions(fetched, claim_label, pool) == spec_resolve_assertions(
            fetched.take(k),
            claim_label,
            pool,
        ),
    decreases fetched.len() - k,
{
    if k == fetched.len() {
        assert(fetched.take(k) =~= fetched);
    } else {
        assert(fetched.take(k + 1).drop_last() =~= fetched.take(k));
        lemma_resolve_assertions_err_persists(fetched, claim_label, pool, k + 1);
    }
}

/// Once a prefix of the fetched sequence fails to resolve into the
/// ingredient sequence, the whole sequence fails with the same error.
proof fn lemma_resolve_ingredients_err_persists(
    fetched: Seq<AssertionV>,
    claim_label: Seq<char>,
    pool: Seq<(Seq<char>, AssertionV)>,
    k: int,
)
    requires
        0 <= k <= fetched.len(),
        spec_resolve_ingredients(fetched.take(k), claim_label, pool) is Err,
    ensures
        spec_resolve_ingredients(fetched, claim_label, pool) == spec_resolve_ingredients(
            fetched.take(k),
            claim_label,
            pool,
        ),
    decreases fetched.len() - k,
{
    if k == fetched.len() {
        assert(fetched.take(k) =~= fetched);
    } else {
        assert(fetched.take(k + 1).drop_last() =~= fetched.take(k));
        lemma_resolve_ingredients_err_persists(fetched, claim_label, pool, k + 1);
    }
}

impl ManifestEntry {
    /// Dereferences every assertion reference in the claim's ordered list,
    /// dropping references that fail to dereference in the store's pool.
    pub fn fetch_assertions<'a>(claim: &Claim, store: &'a Store) -> (r: Vec<&'a Assertion>)
        ensures
            r.deep_view() == spec_fetch(claim@.assertions, claim@.label, store@.assertions),
    {
        let n = claim.assertions.len();
        let mut fetched: Vec<&'a Assertion> = Vec::new();
        let mut i: usize = 0;
        proof {
            assert(claim@.assertions.take(0) =~= Seq::<HashedUriV>::empty());
        }
        while i < n
            invariant
                n == claim.assertions.len(),
                i <= n,
                fetched.deep_view() == spec_fetch(
                    claim@.assertions.take(i as int),
                    claim@.label,
                    store@.assertions,
                ),
            decreases n - i,
        {
            let ghost pre = fetched.deep_view();
            let hashed_uri = &claim.assertions[i];
            let abs = to_absolute_uri(claim.label.as_str(), hashed_uri.url.as_str());
            match store.get_assertion_from_uri(abs.as_str()) {
                Some(a) => {
                    fetched.push(a);
                    proof {
                        assert(fetched.deep_view() =~= pre.push(a@));
                    }
                },
                None => {},
            }
            proof {
                assert(claim@.assertions.take(i + 1).drop_last() =~= claim@.assertions.take(
                    i as int,
                ));
                assert(claim@.assertions.take(i + 1).last() == claim@.assertions[i as int]);
            }
            i += 1;
        }
        proof {
            assert(claim@.assertions.take(n as int) =~= claim@.assertions);
        }
        fetched
    }

    /// Classifies every fetched assertion that the filtering policy keeps
    /// into the label-keyed assertion map; the first failure aborts.
    pub fn resolve_assertions(fetched: &Vec<&Assertion>, claim: &Claim, store: &Store) -> (r:
        Result<Vec<(String, ResolvedAssertion)>, Error>)
        ensures
            ({
                let s = spec_resolve_assertions(
                    fetched.deep_view(),
                    claim@.label,
                    store@.assertions,
                );
                match r {
                    Ok(m) => s is Ok && m.deep_view() == s->Ok_0,
                    Err(e) => s is Err && e@ == s->Err_0,
                }
            }),
    {
        let n = fetched.len();
        let mut m: Vec<(String, ResolvedAssertion)> = Vec::new();
        let mut i: usize = 0;
        proof {
            assert(fetched.deep_view().take(0) =~= Seq::<AssertionV>::empty());
            assert(m.deep_view() =~= Seq::<(Seq<char>, ResolvedAssertionV)>::empty());
        }
        while i < n
            invariant
                n == fetched.len(),
                i <= n,
                spec_resolve_assertions(
                    fetched.deep_view().take(i as int),
                    claim@.label,
                    store@.assertions,
                ) == Ok::<_, ErrorV>(m.deep_view()),
            decreases n - i,
        {
            let ghost pre = m.deep_view();
            proof {
                assert(fetched.deep_view().take(i + 1).drop_last() =~= fetched.deep_view().take(
                    i as int,
                ));
                assert(fetched.deep_view().take(i + 1).last() == fetched.deep_view()[i as int]);
            }
            let a: &Assertion = fetched[i];
            if !is_filtered_label(a.label.as_str()) {
                match ResolvedAssertion::from_assertion(a, claim, store) {
                    Ok(ra) => {
                        m.push((a.label.clone(), ra));
                        proof {
                            assert(m.deep_view() =~= pre.push((a@.label, ra@)));
                        }
                    },
                    Err(e) => {
                        proof {
                            lemma_resolve_assertions_err_persists(
                                fetched.deep_view(),
                                claim@.label,
                                store@.assertions,
                                i + 1,
                            );
                        }
                        return Err(e);
                    },
                }
            }
            i += 1;
        }
        proof {
            assert(fetched.deep_view().take(n as int) =~= fetched.deep_view());
        }
        Ok(m)
    }

    /// Classifies every fetched assertion of the ingredient label family
    /// into the ordered ingredient sequence; the first failure aborts.
    pub fn resolve_ingredients(fetched: &Vec<&Assertion>, claim: &Claim, store: &Store) -> (r:
        Result<Vec<ResolvedAssertion>, Error>)
        ensures
            ({
                let s = spec_resolve_ingredients(
                    fetched.deep_view(),
                    claim@.label,
                    store@.assertions,
                );
                match r {
                    Ok(v) => s is Ok && v.deep_view() == s->Ok_0,
                    Err(e) => s is Err && e@ == s->Err_0,
                }
            }),
    {
        let n = fetched.len();
        let mut v: Vec<ResolvedAssertion> = Vec::new();
        let mut i: usize = 0;
        proof {
            assert(fetched.deep_view().take(0) =~= Seq::<AssertionV>::empty());
            assert(v.deep_view() =~= Seq::<ResolvedAssertionV>::empty());
        }
        while i < n
            invariant
                n == fetched.len(),
                i <= n,
                spec_resolve_ingredients(
                    fetched.deep_view().take(i as int),
                    claim@.label,
                    store@.assertions,
                ) == Ok::<_, ErrorV>(v.deep_view()),
            decreases n - i,
        {
            let ghost pre = v.deep_view();
            proof {
                assert(fetched.deep_view().take(i + 1).drop_last() =~= fetched.deep_view().take(
                    i as int,
                ));
                assert(fetched.deep_view().take(i + 1).last() == fetched.deep_view()[i as int]);
            }
            let a: &Assertion = fetched[i];
            if str_starts_with(a.label.as_str(), ingredient_label()) {
                match ResolvedAssertion::from_assertion(a, claim, store) {
                    Ok(ra) => {
                        v.push(ra);
                        proof {
                            assert(v.deep_view() =~= pre.push(ra@));
                        }
                    },
                    Err(e) => {
                        proof {
                            lemma_resolve_ingredients_err_persists(
                                fetched.deep_view(),
                                claim@.label,
                                store@.assertions,
                                i + 1,
                            );
                        }
                        return Err(e);
                    },
                }
            }
            i += 1;
        }
        proof {
            assert(fetched.deep_view().take(n as int) =~= fetched.deep_view());
        }
        Ok(v)
    }

    /// Extracts the claim-level thumbnail: the first fetched assertion of
    /// the claim-thumbnail label family, decoded. Absent is valid; present
    /// but undecodable is fatal.
    pub fn get_claim_thumbnail(fetched: &Vec<&Assertion>) -> (r: Result<Option<Thumbnail>, Error>)
        ensures
            ({
                let s = spec_claim_thumbnail(fetched.deep_view());
                match r {
                    Ok(t) => s is Ok && t.deep_view() == s->Ok_0,
                    Err(e) => s is Err && e@ == s->Err_0,
                }
            }),
    {
        let n = fetched.len();
        let mut i: usize = 0;
        proof {
            assert(fetched.deep_view().skip(0) =~= fetched.deep_view());
        }
        while i < n
            invariant
                n == fetched.len(),
                i <= n,
                spec_claim_thumbnail(fetched.deep_view()) == spec_claim_thumbnail(
                    fetched.deep_view().skip(i as int),
                ),
            decreases n - i,
        {
            proof {
                assert(fetched.deep_view().skip(i as int)[0] == fetched.deep_view()[i as int]);
            }
            let a: &Assertion = fetched[i];
            if str_starts_with(a.label.as_str(), claim_thumbnail_label()) {
                return match Thumbnail::extract_assertion(a) {
                    Some(t) => Ok(Some(t)),
                    None => Err(Error::IngredientThumbnailExtraction),
                };
            }
            proof {
                assert(fetched.deep_view().skip(i as int).drop_first() =~= fetched.deep_view().skip(
                    i + 1,
                ));
            }
            i += 1;
        }
        proof {
            assert(fetched.deep_view().skip(n as int) =~= Seq::<AssertionV>::empty());
        }
        Ok(None)
    }

    /// Extracts the verifiable credentials: keeps every payload that is
    /// JSON-decodable text, silently drops any other payload shape.
    pub fn get_verifiable_credentials(claim: &Claim) -> (r: Vec<serde_json::Value>)
        ensures
            r@ == spec_credentials(claim@.credentials),
    {
        let n = claim.credentials.len();
        let mut creds: Vec<serde_json::Value> = Vec::new();
        let mut i: usize = 0;
        proof {
            assert(claim@.credentials.take(0) =~= Seq::<AssertionDataV>::empty());
        }
        while i < n
            invariant
                n == claim.credentials.len(),
                i <= n,
                creds@ == spec_credentials(claim@.credentials.take(i as int)),
            decreases n - i,
        {
            proof {
                assert(claim@.credentials.take(i + 1).drop_last() =~= claim@.credentials.take(
                    i as int,
                ));
                assert(claim@.credentials.take(i + 1).last() == claim@.credentials[i as int]);
            }
            match &claim.credentials[i] {
                AssertionData::Json(s) => match parse_json(s.as_str()) {
                    Ok(v) => {
                        creds.push(v);
                    },
                    Err(_) => {},
                },
                _ => {},
            }
            i += 1;
        }
        proof {
            assert(claim@.credentials.take(n as int) =~= claim@.credentials);
        }
        creds
    }

    /// Converts one claim into a resolved manifest entry, attaching the
    /// store-wide validation status exactly when the claim is the store's
    /// provenance claim.
    pub fn from_claim(claim: &Claim, store: &Store, status: &[ValidationStatus]) -> (r: Result<
        ManifestEntry,
        Error,
    >)
        ensures
            ({
                let s = spec_resolve_claim(claim@, store@, status.deep_view());
                match r {
                    Ok(entry) => s is Ok && entry@ == s->Ok_0,
                    Err(e) => s is Err && e@ == s->Err_0,
                }
            }),
    {
        let fetched = Self::fetch_assertions(claim, store);
        let assertions = match Self::resolve_assertions(&fetched, claim, store) {
            Ok(m) => m,
            Err(e) => {
                return Err(Error::AssertionConversion(e.describe()));
            },
        };
        let ingredients = match Self::resolve_ingredients(&fetched, claim, store) {
            Ok(v) => v,
            Err(_) => {
                return Err(Error::IngredientConversion);
            },
        };
        let thumbnail = match Self::get_claim_thumbnail(&fetched) {
            Ok(t) => t,
            Err(e) => {
                return Err(e);
            },
        };
        let credentials = Self::get_verifiable_credentials(claim);
        let is_active = match &store.provenance {
            Some(l) => str_eq(l.as_str(), claim.label.as_str()),
            None => false,
        };
        let errors = if is_active {
            Some(clone_statuses(status))
        } else {
            None
        };
        let signature = Signature {
            issuer: clone_opt_string(&claim.signing_issuer),
            time: clone_opt_string(&claim.signing_time),
        };
        Ok(
            ManifestEntry {
                label: claim.label.clone(),
                claim_generator: claim.claim_generator.clone(),
                format: claim.format.clone(),
                title: clone_opt_string(&claim.title),
                instance_id: claim.instance_id.clone(),
                signature,
                assertions,
                ingredients,
                credentials,
                thumbnail,
                errors,
            },
        )
    }
}

} // verus!
