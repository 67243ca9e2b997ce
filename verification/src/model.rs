//! The store-side data model the resolution engine consumes.
//!
//! A [`Store`] is an immutable collection of [`Claim`]s, a designated
//! provenance claim, and a pool of [`Assertion`]s addressable by absolute
//! URI. The engine borrows it read-only; the store's loading and
//! signature-validation pipeline sits upstream and hands assertion content
//! over in already-typed form.

use vstd::prelude::*;

use crate::text::str_eq;
use crate::uri;

verus! {

/// Spec view of a [`HashedUri`].
pub ghost struct HashedUriV {
    pub url: Seq<char>,
    pub alg: Option<Seq<char>>,
    pub hash: Seq<u8>,
}

/// A hash-verified reference: a relative or absolute path plus a content
/// digest. The digest is checked upstream; only the path is consumed here.
pub struct HashedUri {
    pub url: String,
    pub alg: Option<String>,
    pub hash: Vec<u8>,
}

impl View for HashedUri {
    type V = HashedUriV;

    open spec fn view(&self) -> HashedUriV {
        HashedUriV { url: self.url@, alg: self.alg.deep_view(), hash: self.hash@ }
    }
}

impl DeepView for HashedUri {
    type V = HashedUriV;

    open spec fn deep_view(&self) -> HashedUriV {
        self.view()
    }
}

/// Spec view of a [`Thumbnail`].
pub ghost struct ThumbnailV {
    pub content_type: Seq<char>,
    pub data: Seq<u8>,
}

/// A decoded thumbnail record: media type plus image bytes.
pub struct Thumbnail {
    pub content_type: String,
    pub data: Vec<u8>,
}

impl View for Thumbnail {
    type V = ThumbnailV;

    open spec fn view(&self) -> ThumbnailV {
        ThumbnailV { content_type: self.content_type@, data: self.data@ }
    }
}

impl DeepView for Thumbnail {
    type V = ThumbnailV;

    open spec fn deep_view(&self) -> ThumbnailV {
        self.view()
    }
}

/// Spec view of an [`Ingredient`].
pub ghost struct IngredientV {
    pub title: Seq<char>,
    pub format: Seq<char>,
    pub instance_id: Seq<char>,
    pub thumbnail: Option<HashedUriV>,
    pub c2pa_manifest: Option<HashedUriV>,
}

/// A decoded ingredient record, with its embedded thumbnail reference and
/// its embedded originating-manifest reference still unresolved.
pub struct Ingredient {
    pub title: String,
    pub format: String,
    pub instance_id: String,
    pub thumbnail: Option<HashedUri>,
    pub c2pa_manifest: Option<HashedUri>,
}

impl View for Ingredient {
    type V = IngredientV;

    open spec fn view(&self) -> IngredientV {
        IngredientV {
            title: self.title@,
            format: self.format@,
            instance_id: self.instance_id@,
            thumbnail: self.thumbnail.deep_view(),
            c2pa_manifest: self.c2pa_manifest.deep_view(),
        }
    }
}

impl DeepView for Ingredient {
    type V = IngredientV;

    open spec fn deep_view(&self) -> IngredientV {
        self.view()
    }
}

/// Spec view of an [`AssertionContent`].
pub ghost enum AssertionContentV {
    Ingredient(IngredientV),
    Thumbnail(ThumbnailV),
    Json(Seq<char>),
    Binary(Seq<u8>),
}

/// The already-typed content of an assertion, as the store's decoding
/// pipeline delivers it. A shape-specific extractor succeeds exactly when
/// the content carries that shape; generic decoding reads the JSON text.
pub enum AssertionContent {
    Ingredient(Ingredient),
    Thumbnail(Thumbnail),
    Json(String),
    Binary(Vec<u8>),
}

impl View for AssertionContent {
    type V = AssertionContentV;

    open spec fn view(&self) -> AssertionContentV {
        match self {
            AssertionContent::Ingredient(i) => AssertionContentV::Ingredient(i@),
            AssertionContent::Thumbnail(t) => AssertionContentV::Thumbnail(t@),
            AssertionContent::Json(s) => AssertionContentV::Json(s@),
            AssertionContent::Binary(b) => AssertionContentV::Binary(b@),
        }
    }
}

impl DeepView for AssertionContent {
    type V = AssertionContentV;

    open spec fn deep_view(&self) -> AssertionContentV {
        self.view()
    }
}

/// Spec view of an [`Assertion`].
pub ghost struct AssertionV {
    pub label: Seq<char>,
    pub content: AssertionContentV,
}

/// One entry of the store's assertion pool: a label plus typed content.
/// Content shape is determined by label convention, not by a discriminant
/// field; the label and the content may disagree, and classification
/// treats such a disagreement as a decode failure.
pub struct Assertion {
    pub label: String,
    pub content: AssertionContent,
}

impl View for Assertion {
    type V = AssertionV;

    open spec fn view(&self) -> AssertionV {
        AssertionV { label: self.label@, content: self.content@ }
    }
}

impl DeepView for Assertion {
    type V = AssertionV;

    open spec fn deep_view(&self) -> AssertionV {
        self.view()
    }
}

/// Spec view of an [`AssertionData`].
pub ghost enum AssertionDataV {
    Json(Seq<char>),
    Cbor(Seq<u8>),
    Binary(Seq<u8>),
}

/// A raw credential payload attached to a claim. Only JSON-text payloads
/// are kept by credential extraction; other shapes are dropped.
pub enum AssertionData {
    Json(String),
    Cbor(Vec<u8>),
    Binary(Vec<u8>),
}

impl View for AssertionData {
    type V = AssertionDataV;

    open spec fn view(&self) -> AssertionDataV {
        match self {
            AssertionData::Json(s) => AssertionDataV::Json(s@),
            AssertionData::Cbor(b) => AssertionDataV::Cbor(b@),
            AssertionData::Binary(b) => AssertionDataV::Binary(b@),
        }
    }
}

impl DeepView for AssertionData {
    type V = AssertionDataV;

    open spec fn deep_view(&self) -> AssertionDataV {
        self.view()
    }
}

/// Spec view of a [`Claim`].
pub ghost struct ClaimV {
    pub label: Seq<char>,
    pub claim_generator: Seq<char>,
    pub format: Seq<char>,
    pub title: Option<Seq<char>>,
    pub instance_id: Seq<char>,
    pub signing_issuer: Option<Seq<char>>,
    pub signing_time: Option<Seq<char>>,
    pub assertions: Seq<HashedUriV>,
    pub credentials: Seq<AssertionDataV>,
}

/// One manifest's metadata: identity, generator, signing info, the ordered
/// list of assertion references, and raw credential payloads.
pub struct Claim {
    pub label: String,
    pub claim_generator: String,
    pub format: String,
    pub title: Option<String>,
    pub instance_id: String,
    pub signing_issuer: Option<String>,
    pub signing_time: Option<String>,
    pub assertions: Vec<HashedUri>,
    pub credentials: Vec<AssertionData>,
}

impl View for Claim {
    type V = ClaimV;

    open spec fn view(&self) -> ClaimV {
        ClaimV {
            label: self.label@,
            claim_generator: self.claim_generator@,
            format: self.format@,
            title: self.title.deep_view(),
            instance_id: self.instance_id@,
            signing_issuer: self.signing_issuer.deep_view(),
            signing_time: self.signing_time.deep_view(),
            assertions: self.assertions.deep_view(),
            credentials: self.credentials.deep_view(),
        }
    }
}

impl DeepView for Claim {
    type V = ClaimV;

    open spec fn deep_view(&self) -> ClaimV {
        self.view()
    }
}

/// Spec view of a [`ValidationStatus`].
pub ghost struct ValidationStatusV {
    pub code: Seq<char>,
    pub url: Option<Seq<char>>,
    pub explanation: Option<Seq<char>>,
}

/// One entry of the store-wide validation log, computed by the upstream
/// validation pipeline and consumed here as already-computed input.
pub struct ValidationStatus {
    pub code: String,
    pub url: Option<String>,
    pub explanation: Option<String>,
}

impl View for ValidationStatus {
    type V = ValidationStatusV;

    open spec fn view(&self) -> ValidationStatusV {
        ValidationStatusV {
            code: self.code@,
            url: self.url.deep_view(),
            explanation: self.explanation.deep_view(),
        }
    }
}

impl DeepView for ValidationStatus {
    type V = ValidationStatusV;

    open spec fn deep_view(&self) -> ValidationStatusV {
        self.view()
    }
}

/// Spec view of a [`Store`].
pub ghost struct StoreV {
    pub claims: Seq<ClaimV>,
    pub provenance: Option<Seq<char>>,
    pub assertions: Seq<(Seq<char>, AssertionV)>,
}

impl StoreV {
    /// The store's own labeling invariant: claim labels are unique, and the
    /// provenance pointer, when set, designates a claim of the store.
    pub open spec fn wf(self) -> bool {
        &&& forall|i: int, j: int|
            0 <= i < j < self.claims.len() ==> self.claims[i].label != self.claims[j].label
        &&& match self.provenance {
            Some(l) => exists|i: int| 0 <= i < self.claims.len() && self.claims[i].label == l,
            None => true,
        }
    }
}

/// First assertion of the pool stored under `uri`, if any.
pub open spec fn spec_lookup_assertion(
    pool: Seq<(Seq<char>, AssertionV)>,
    uri: Seq<char>,
) -> Option<AssertionV>
    decreases pool.len(),
{
    if pool.len() == 0 {
        None
    } else if pool[0].0 == uri {
        Some(pool[0].1)
    } else {
        spec_lookup_assertion(pool.drop_first(), uri)
    }
}

/// An immutable provenance store: its claims in enumeration order, the
/// label of the designated provenance claim, and the assertion pool keyed
/// by absolute URI.
pub struct Store {
    pub claims: Vec<Claim>,
    pub provenance: Option<String>,
    pub assertions: Vec<(String, Assertion)>,
}

impl View for Store {
    type V = StoreV;

    open spec fn view(&self) -> StoreV {
        StoreV {
            claims: self.claims.deep_view(),
            provenance: self.provenance.deep_view(),
            assertions: self.assertions.deep_view(),
        }
    }
}

impl Store {
    /// The claims of the store, in the store's own enumeration order.
    pub fn claims(&self) -> (r: &Vec<Claim>)
        ensures
            r.deep_view() == self@.claims,
    {
        &self.claims
    }

    /// The label of the store's provenance claim, or `None` when the store
    /// has none.
    pub fn provenance_label(&self) -> (r: Option<String>)
        ensures
            r.deep_view() == self@.provenance,
    {
        match &self.provenance {
            Some(l) => Some(l.clone()),
            None => None,
        }
    }

    /// Looks an assertion up in the pool by absolute URI.
    pub fn get_assertion_from_uri<'a>(&'a self, uri: &str) -> (r: Option<&'a Assertion>)
        ensures
            match spec_lookup_assertion(self@.assertions, uri@) {
                Some(av) => r is Some && r->0@ == av,
                None => r is None,
            },
    {
        let n = self.assertions.len();
        let mut i: usize = 0;
        proof {
            assert(self@.assertions.skip(0) =~= self@.assertions);
        }
        while i < n
            invariant
                n == self.assertions.len(),
                i <= n,
                spec_lookup_assertion(self@.assertions, uri@) == spec_lookup_assertion(
                    self@.assertions.skip(i as int),
                    uri@,
                ),
            decreases n - i,
        {
            proof {
                assert(self@.assertions.skip(i as int)[0] == self@.assertions[i as int]);
            }
            if str_eq(self.assertions[i].0.as_str(), uri) {
                return Some(&self.assertions[i].1);
            }
            proof {
                assert(self@.assertions.skip(i as int).drop_first() =~= self@.assertions.skip(
                    i + 1,
                ));
            }
            i += 1;
        }
        proof {
            assert(self@.assertions.skip(n as int) =~= Seq::<(Seq<char>, AssertionV)>::empty());
        }
        None
    }

    /// Derives the label of the manifest a reference path points into: the
    /// deterministic string transform the store's addressing scheme defines.
    pub fn manifest_label_from_path(path: &str) -> (r: String)
        ensures
            r@ == uri::spec_manifest_label_from_path(path@),
    {
        uri::manifest_label_from_path(path)
    }
}

/// Copies a byte vector.
pub(crate) fn clone_bytes(v: &Vec<u8>) -> (r: Vec<u8>)
    ensures
        r@ == v@,
{
    let n = v.len();
    let mut r: Vec<u8> = Vec::new();
    let mut i: usize = 0;
    while i < n
        invariant
            n == v.len(),
            i <= n,
            r@ =~= v@.subrange(0, i as int),
        decreases n - i,
    {
        r.push(v[i]);
        i += 1;
    }
    proof {
        assert(r@ =~= v@);
    }
    r
}

/// Copies an optional string.
pub(crate) fn clone_opt_string(s: &Option<String>) -> (r: Option<String>)
    ensures
        r.deep_view() == s.deep_view(),
{
    match s {
        Some(x) => Some(x.clone()),
        None => None,
    }
}

/// Copies a hashed reference.
pub(crate) fn clone_hashed_uri(h: &HashedUri) -> (r: HashedUri)
    ensures
        r@ == h@,
{
    HashedUri { url: h.url.clone(), alg: clone_opt_string(&h.alg), hash: clone_bytes(&h.hash) }
}

/// Copies an optional hashed reference.
pub(crate) fn clone_opt_hashed_uri(h: &Option<HashedUri>) -> (r: Option<HashedUri>)
    ensures
        r.deep_view() == h.deep_view(),
{
    match h {
        Some(x) => Some(clone_hashed_uri(x)),
        None => None,
    }
}

/// Copies a thumbnail record.
pub(crate) fn clone_thumbnail(t: &Thumbnail) -> (r: Thumbnail)
    ensures
        r@ == t@,
{
    Thumbnail { content_type: t.content_type.clone(), data: clone_bytes(&t.data) }
}

/// Copies an ingredient record.
pub(crate) fn clone_ingredient(i: &Ingredient) -> (r: Ingredient)
    ensures
        r@ == i@,
{
    Ingredient {
        title: i.title.clone(),
        format: i.format.clone(),
        instance_id: i.instance_id.clone(),
        thumbnail: clone_opt_hashed_uri(&i.thumbnail),
        c2pa_manifest: clone_opt_hashed_uri(&i.c2pa_manifest),
    }
}

/// Copies one validation-status entry.
pub(crate) fn clone_status(s: &ValidationStatus) -> (r: ValidationStatus)
    ensures
        r@ == s@,
{
    ValidationStatus {
        code: s.code.clone(),
        url: clone_opt_string(&s.url),
        explanation: clone_opt_string(&s.explanation),
    }
}

/// Copies the store-wide validation log.
pub(crate) fn clone_statuses(s: &[ValidationStatus]) -> (r: Vec<ValidationStatus>)
    ensures
        r.deep_view() == s.deep_view(),
{
    let n = s.len();
    let mut r: Vec<ValidationStatus> = Vec::new();
    let mut i: usize = 0;
    while i < n
        invariant
            n == s@.len(),
            i <= n,
            r@.len() == i,
            forall|j: int| 0 <= j < i ==> r.deep_view()[j] == s.deep_view()[j],
        decreases n - i,
    {
        r.push(clone_status(&s[i]));
        i += 1;
    }
    proof {
        assert(r.deep_view() =~= s.deep_view());
    }
    r
}

impl Ingredient {
    /// The type-specific extractor for ingredient-shaped content: succeeds
    /// exactly when the assertion carries a decoded ingredient record.
    pub fn extract_assertion(a: &Assertion) -> (r: Option<Ingredient>)
        ensures
            match a@.content {
                AssertionContentV::Ingredient(iv) => r is Some && r->0@ == iv,
                _ => r is None,
            },
    {
        match &a.content {
            AssertionContent::Ingredient(i) => Some(clone_ingredient(i)),
            _ => None,
        }
    }
}

impl Thumbnail {
    /// The type-specific extractor for thumbnail-shaped content: succeeds
    /// exactly when the assertion carries a decoded thumbnail record.
    pub fn extract_assertion(a: &Assertion) -> (r: Option<Thumbnail>)
        ensures
            match a@.content {
                AssertionContentV::Thumbnail(tv) => r is Some && r->0@ == tv,
                _ => r is None,
            },
    {
        match &a.content {
            AssertionContent::Thumbnail(t) => Some(clone_thumbnail(t)),
            _ => None,
        }
    }
}

} // verus!
