//! End-to-end resolution scenarios over hand-built stores.

use manifest_resolver::error::Error;
use manifest_resolver::manifest::{ManifestEntry, ResolvedAssertion};
use manifest_resolver::manifest_store::get_manifest_store_data;
use manifest_resolver::model::{
    Assertion, AssertionContent, AssertionData, Claim, HashedUri, Ingredient, Store, Thumbnail,
    ValidationStatus,
};

fn huri(url: &str) -> HashedUri {
    HashedUri { url: url.to_string(), alg: None, hash: vec![] }
}

fn claim_with(label: &str, assertions: Vec<HashedUri>) -> Claim {
    Claim {
        label: label.to_string(),
        claim_generator: "make_test_images".to_string(),
        format: "image/jpeg".to_string(),
        title: Some("A.jpg".to_string()),
        instance_id: "xmp:iid:1".to_string(),
        signing_issuer: Some("C2PA Test Signing Cert".to_string()),
        signing_time: Some("2021-06-28T16:49:32+00:00".to_string()),
        assertions,
        credentials: vec![],
    }
}

fn pool_entry(claim_label: &str, assertion_label: &str, content: AssertionContent) -> (String, Assertion) {
    (
        format!("self#jumbf=/c2pa/{}/{}", claim_label, assertion_label),
        Assertion { label: assertion_label.to_string(), content },
    )
}

const CREATIVE_WORK: &str = "stds.schema-org.CreativeWork";
const CREATIVE_WORK_JSON: &str = "{\"@context\":\"https://schema.org\",\"@type\":\"CreativeWork\"}";

fn one_claim_store(provenance: Option<&str>) -> Store {
    let claim = claim_with("c1", vec![huri(CREATIVE_WORK)]);
    Store {
        claims: vec![claim],
        provenance: provenance.map(|s| s.to_string()),
        assertions: vec![pool_entry(
            "c1",
            CREATIVE_WORK,
            AssertionContent::Json(CREATIVE_WORK_JSON.to_string()),
        )],
    }
}

fn status(code: &str) -> ValidationStatus {
    ValidationStatus {
        code: code.to_string(),
        url: Some("Cose_Sign1".to_string()),
        explanation: Some("signature validated".to_string()),
    }
}

fn entry<'a>(
    result: &'a manifest_resolver::manifest_store::ManifestStoreResult,
    label: &str,
) -> &'a ManifestEntry {
    result.get_manifest(label).expect("entry should be present")
}

#[test]
fn user_assertion_survives_verbatim() {
    let store = one_claim_store(None);
    let result = get_manifest_store_data(&store, &[]).expect("store should resolve");
    assert!(result.active_manifest.is_none());
    assert_eq!(result.manifests.len(), 1);
    let e = entry(&result, "c1");
    assert_eq!(e.label, "c1");
    assert_eq!(e.assertions.len(), 1);
    assert_eq!(e.assertions[0].0, CREATIVE_WORK);
    match &e.assertions[0].1 {
        ResolvedAssertion::UserData(v) => {
            let expected: serde_json::Value = serde_json::from_str(CREATIVE_WORK_JSON).unwrap();
            assert_eq!(*v, expected);
        }
        _ => panic!("expected user data"),
    }
    assert!(e.errors.is_none());
    assert!(e.ingredients.is_empty());
    assert!(e.thumbnail.is_none());
    assert_eq!(e.claim_generator, "make_test_images");
    assert_eq!(e.format, "image/jpeg");
    assert_eq!(e.title.as_deref(), Some("A.jpg"));
    assert_eq!(e.instance_id, "xmp:iid:1");
    assert_eq!(e.signature.issuer.as_deref(), Some("C2PA Test Signing Cert"));
    assert_eq!(e.signature.time.as_deref(), Some("2021-06-28T16:49:32+00:00"));
}

#[test]
fn provenance_claim_carries_status() {
    let store = one_claim_store(Some("c1"));
    let log = vec![status("claimSignature.validated")];
    let result = get_manifest_store_data(&store, &log).expect("store should resolve");
    assert_eq!(result.active_manifest.as_deref(), Some("c1"));
    let e = entry(&result, "c1");
    let errors = e.errors.as_ref().expect("provenance claim must carry the status");
    assert_eq!(errors.len(), 1);
    assert_eq!(errors[0].code, "claimSignature.validated");
    assert_eq!(errors[0].url.as_deref(), Some("Cose_Sign1"));
    assert_eq!(errors[0].explanation.as_deref(), Some("signature validated"));
}

#[test]
fn errors_present_only_on_provenance_claim() {
    let c1 = claim_with("c1", vec![]);
    let c2 = claim_with("c2", vec![]);
    let store = Store {
        claims: vec![c1, c2],
        provenance: Some("c2".to_string()),
        assertions: vec![],
    };
    let log = vec![status("claimSignature.validated")];
    let result = get_manifest_store_data(&store, &log).expect("store should resolve");
    assert!(entry(&result, "c1").errors.is_none());
    assert!(entry(&result, "c2").errors.is_some());
}

#[test]
fn empty_store_resolves_to_empty_result() {
    let store = Store { claims: vec![], provenance: None, assertions: vec![] };
    let result = get_manifest_store_data(&store, &[]).expect("empty store must resolve");
    assert!(result.active_manifest.is_none());
    assert!(result.manifests.is_empty());
}

#[test]
fn dangling_reference_is_omitted() {
    let claim = claim_with("c1", vec![huri(CREATIVE_WORK), huri("c2pa.nowhere")]);
    let store = Store {
        claims: vec![claim],
        provenance: None,
        assertions: vec![pool_entry(
            "c1",
            CREATIVE_WORK,
            AssertionContent::Json(CREATIVE_WORK_JSON.to_string()),
        )],
    };
    let result = get_manifest_store_data(&store, &[]).expect("dangling reference is tolerated");
    let e = entry(&result, "c1");
    assert_eq!(e.assertions.len(), 1);
    assert_eq!(e.assertions[0].0, CREATIVE_WORK);
}

fn ingredient_record(thumbnail: Option<HashedUri>, manifest: Option<HashedUri>) -> Ingredient {
    Ingredient {
        title: "B.jpg".to_string(),
        format: "image/jpeg".to_string(),
        instance_id: "xmp:iid:2".to_string(),
        thumbnail,
        c2pa_manifest: manifest,
    }
}

#[test]
fn ingredient_without_thumbnail_reference_resolves_to_none() {
    let claim = claim_with("c1", vec![huri("c2pa.ingredient")]);
    let ing = ingredient_record(None, Some(huri("self#jumbf=/c2pa/c0")));
    let store = Store {
        claims: vec![claim],
        provenance: None,
        assertions: vec![pool_entry("c1", "c2pa.ingredient", AssertionContent::Ingredient(ing))],
    };
    let result = get_manifest_store_data(&store, &[]).expect("ingredient must resolve");
    let e = entry(&result, "c1");
    assert_eq!(e.ingredients.len(), 1);
    match &e.ingredients[0] {
        ResolvedAssertion::Ingredient(ri) => {
            assert!(ri.thumbnail.is_none());
            assert_eq!(ri.manifest_id.as_deref(), Some("c0"));
            assert_eq!(ri.ingredient.title, "B.jpg");
        }
        _ => panic!("expected an ingredient"),
    }
    // The ingredient assertion is filtered out of the generic map.
    assert!(e.assertions.is_empty());
}

#[test]
fn ingredient_with_dangling_thumbnail_reference_still_resolves() {
    let claim = claim_with("c1", vec![huri("c2pa.ingredient")]);
    let ing = ingredient_record(Some(huri("c2pa.thumbnail.ingredient.jpeg")), None);
    let store = Store {
        claims: vec![claim],
        provenance: None,
        assertions: vec![pool_entry("c1", "c2pa.ingredient", AssertionContent::Ingredient(ing))],
    };
    let result = get_manifest_store_data(&store, &[]).expect("dangling thumbnail is tolerated");
    let e = entry(&result, "c1");
    match &e.ingredients[0] {
        ResolvedAssertion::Ingredient(ri) => {
            assert!(ri.thumbnail.is_none());
            assert!(ri.manifest_id.is_none());
        }
        _ => panic!("expected an ingredient"),
    }
}

#[test]
fn ingredient_thumbnail_is_linked_through_the_pool() {
    let claim = claim_with("c1", vec![huri("c2pa.ingredient")]);
    let ing = ingredient_record(Some(huri("c2pa.thumbnail.ingredient.jpeg")), None);
    let thumb = Thumbnail { content_type: "image/jpeg".to_string(), data: vec![1, 2, 3] };
    let store = Store {
        claims: vec![claim],
        provenance: None,
        assertions: vec![
            pool_entry("c1", "c2pa.ingredient", AssertionContent::Ingredient(ing)),
            pool_entry(
                "c1",
                "c2pa.thumbnail.ingredient.jpeg",
                AssertionContent::Thumbnail(thumb),
            ),
        ],
    };
    let result = get_manifest_store_data(&store, &[]).expect("store should resolve");
    let e = entry(&result, "c1");
    match &e.ingredients[0] {
        ResolvedAssertion::Ingredient(ri) => {
            let t = ri.thumbnail.as_ref().expect("thumbnail should be linked");
            assert_eq!(t.content_type, "image/jpeg");
            assert_eq!(t.data, vec![1, 2, 3]);
        }
        _ => panic!("expected an ingredient"),
    }
    // The nested ingredient thumbnail is filtered out of the generic map.
    assert!(e.assertions.is_empty());
}

#[test]
fn undecodable_ingredient_fails_the_whole_store() {
    let claim = claim_with("c1", vec![huri("c2pa.ingredient")]);
    let store = Store {
        claims: vec![claim],
        provenance: None,
        assertions: vec![pool_entry(
            "c1",
            "c2pa.ingredient",
            AssertionContent::Json("{\"not\":\"an ingredient\"}".to_string()),
        )],
    };
    match get_manifest_store_data(&store, &[]) {
        Err(Error::ManifestConversion(msg)) => {
            assert!(msg.contains("could not process ingredient"));
        }
        _ => panic!("expected a manifest conversion error"),
    }
}

#[test]
fn undecodable_ingredient_fails_the_claim_with_ingredient_conversion() {
    let claim = claim_with("c1", vec![huri("c2pa.ingredient")]);
    let store = Store {
        claims: vec![claim],
        provenance: None,
        assertions: vec![pool_entry(
            "c1",
            "c2pa.ingredient",
            AssertionContent::Json("{\"not\":\"an ingredient\"}".to_string()),
        )],
    };
    match ManifestEntry::from_claim(&store.claims[0], &store, &[]) {
        Err(Error::IngredientConversion) => {}
        _ => panic!("expected an ingredient conversion error"),
    }
}

#[test]
fn claim_thumbnail_is_extracted_and_filtered() {
    let claim = claim_with("c1", vec![huri("c2pa.thumbnail.claim.jpeg"), huri(CREATIVE_WORK)]);
    let thumb = Thumbnail { content_type: "image/jpeg".to_string(), data: vec![9, 9] };
    let store = Store {
        claims: vec![claim],
        provenance: None,
        assertions: vec![
            pool_entry("c1", "c2pa.thumbnail.claim.jpeg", AssertionContent::Thumbnail(thumb)),
            pool_entry("c1", CREATIVE_WORK, AssertionContent::Json(CREATIVE_WORK_JSON.to_string())),
        ],
    };
    let result = get_manifest_store_data(&store, &[]).expect("store should resolve");
    let e = entry(&result, "c1");
    let t = e.thumbnail.as_ref().expect("claim thumbnail should be present");
    assert_eq!(t.data, vec![9, 9]);
    // No filtered family may appear among the map keys.
    for (key, _) in &e.assertions {
        assert!(!key.starts_with("c2pa.thumbnail.claim"));
        assert!(!key.starts_with("c2pa.thumbnail.ingredient"));
        assert!(!key.starts_with("c2pa.ingredient"));
    }
    assert_eq!(e.assertions.len(), 1);
}

#[test]
fn undecodable_claim_thumbnail_is_fatal() {
    let claim = claim_with("c1", vec![huri("c2pa.thumbnail.claim.jpeg")]);
    let store = Store {
        claims: vec![claim],
        provenance: None,
        assertions: vec![pool_entry(
            "c1",
            "c2pa.thumbnail.claim.jpeg",
            AssertionContent::Binary(vec![0]),
        )],
    };
    match ManifestEntry::from_claim(&store.claims[0], &store, &[]) {
        Err(Error::IngredientThumbnailExtraction) => {}
        _ => panic!("expected a thumbnail extraction error"),
    }
}

#[test]
fn undecodable_user_assertion_is_fatal_for_the_claim() {
    let claim = claim_with("c1", vec![huri(CREATIVE_WORK)]);
    let store = Store {
        claims: vec![claim],
        provenance: None,
        assertions: vec![pool_entry(
            "c1",
            CREATIVE_WORK,
            AssertionContent::Json("{not valid json".to_string()),
        )],
    };
    match ManifestEntry::from_claim(&store.claims[0], &store, &[]) {
        Err(Error::AssertionConversion(_)) => {}
        _ => panic!("expected an assertion conversion error"),
    }
}

#[test]
fn credentials_keep_only_json_payloads() {
    let mut claim = claim_with("c1", vec![]);
    claim.credentials = vec![
        AssertionData::Json("{\"id\":\"did:nppa:eb1bb9934d9896a374c384521410c7f14\"}".to_string()),
        AssertionData::Json("{broken".to_string()),
        AssertionData::Cbor(vec![0xa0]),
        AssertionData::Binary(vec![1, 2]),
    ];
    let store = Store { claims: vec![claim], provenance: None, assertions: vec![] };
    let result = get_manifest_store_data(&store, &[]).expect("store should resolve");
    let e = entry(&result, "c1");
    assert_eq!(e.credentials.len(), 1);
    let expected: serde_json::Value =
        serde_json::from_str("{\"id\":\"did:nppa:eb1bb9934d9896a374c384521410c7f14\"}").unwrap();
    assert_eq!(e.credentials[0], expected);
}

#[test]
fn direct_thumbnail_assertion_stays_in_the_map() {
    // A label in the thumbnail family, but in neither the claim nor the
    // ingredient sub-family, is classified in place as a thumbnail.
    let claim = claim_with("c1", vec![huri("c2pa.thumbnail_preview")]);
    let thumb = Thumbnail { content_type: "image/png".to_string(), data: vec![7] };
    let store = Store {
        claims: vec![claim],
        provenance: None,
        assertions: vec![pool_entry(
            "c1",
            "c2pa.thumbnail_preview",
            AssertionContent::Thumbnail(thumb),
        )],
    };
    let result = get_manifest_store_data(&store, &[]).expect("store should resolve");
    let e = entry(&result, "c1");
    assert_eq!(e.assertions.len(), 1);
    match &e.assertions[0].1 {
        ResolvedAssertion::Thumbnail(t) => assert_eq!(t.content_type, "image/png"),
        _ => panic!("expected a thumbnail"),
    }
    assert!(e.thumbnail.is_none());
}

#[test]
fn absolute_reference_bypasses_the_claim_prefix() {
    // A reference that is already absolute is looked up as it stands.
    let claim = claim_with("c1", vec![huri("self#jumbf=/c2pa/c9/stds.iptc")]);
    let store = Store {
        claims: vec![claim],
        provenance: None,
        assertions: vec![(
            "self#jumbf=/c2pa/c9/stds.iptc".to_string(),
            Assertion {
                label: "stds.iptc".to_string(),
                content: AssertionContent::Json("{\"k\":1}".to_string()),
            },
        )],
    };
    let result = get_manifest_store_data(&store, &[]).expect("store should resolve");
    let e = entry(&result, "c1");
    assert_eq!(e.assertions.len(), 1);
    assert_eq!(e.assertions[0].0, "stds.iptc");
}
