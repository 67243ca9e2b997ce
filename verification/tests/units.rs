//! Unit tests of the URI resolver, the label policy, the string helpers,
//! the extractors, and the error descriptions.

use manifest_resolver::error::Error;
use manifest_resolver::labels::{
    claim_thumbnail_label, ingredient_label, ingredient_thumbnail_label, is_filtered_label,
    thumbnail_label,
};
use manifest_resolver::manifest::ResolvedAssertion;
use manifest_resolver::model::{
    Assertion, AssertionContent, Ingredient, Store, Thumbnail,
};
use manifest_resolver::text::{str_eq, str_starts_with};
use manifest_resolver::uri::to_absolute_uri;

#[test]
fn relative_reference_is_joined_under_the_claim() {
    assert_eq!(
        to_absolute_uri("c1", "stds.schema-org.CreativeWork"),
        "self#jumbf=/c2pa/c1/stds.schema-org.CreativeWork"
    );
}

#[test]
fn absolute_reference_is_kept() {
    assert_eq!(
        to_absolute_uri("c1", "self#jumbf=/c2pa/c2/c2pa.thumbnail.claim.jpeg"),
        "self#jumbf=/c2pa/c2/c2pa.thumbnail.claim.jpeg"
    );
}

#[test]
fn manifest_label_is_the_last_path_component() {
    assert_eq!(Store::manifest_label_from_path("self#jumbf=/c2pa/c7"), "c7");
    assert_eq!(Store::manifest_label_from_path("plain-label"), "plain-label");
    assert_eq!(Store::manifest_label_from_path("a/b/c"), "c");
    assert_eq!(Store::manifest_label_from_path("trailing/"), "");
    assert_eq!(Store::manifest_label_from_path(""), "");
}

#[test]
fn label_constants_match_the_reserved_families() {
    assert_eq!(ingredient_label(), "c2pa.ingredient");
    assert_eq!(thumbnail_label(), "c2pa.thumbnail");
    assert_eq!(claim_thumbnail_label(), "c2pa.thumbnail.claim");
    assert_eq!(ingredient_thumbnail_label(), "c2pa.thumbnail.ingredient");
}

#[test]
fn filtering_covers_the_three_reserved_families() {
    assert!(is_filtered_label("c2pa.ingredient"));
    assert!(is_filtered_label("c2pa.ingredient__1"));
    assert!(is_filtered_label("c2pa.thumbnail.claim.jpeg"));
    assert!(is_filtered_label("c2pa.thumbnail.ingredient.jpeg"));
    assert!(!is_filtered_label("c2pa.thumbnail"));
    assert!(!is_filtered_label("stds.schema-org.CreativeWork"));
    assert!(!is_filtered_label(""));
}

#[test]
fn string_helpers_compare_by_characters() {
    assert!(str_eq("", ""));
    assert!(str_eq("abc", "abc"));
    assert!(!str_eq("abc", "abd"));
    assert!(!str_eq("abc", "abcd"));
    assert!(str_starts_with("c2pa.thumbnail.claim.jpeg", "c2pa.thumbnail"));
    assert!(str_starts_with("abc", ""));
    assert!(!str_starts_with("ab", "abc"));
    assert!(!str_starts_with("xbc", "ab"));
}

#[test]
fn extractors_succeed_only_on_their_shape() {
    let ingredient = Assertion {
        label: "c2pa.ingredient".to_string(),
        content: AssertionContent::Ingredient(Ingredient {
            title: "B.jpg".to_string(),
            format: "image/jpeg".to_string(),
            instance_id: "xmp:iid:2".to_string(),
            thumbnail: None,
            c2pa_manifest: None,
        }),
    };
    let thumbnail = Assertion {
        label: "c2pa.thumbnail.claim.jpeg".to_string(),
        content: AssertionContent::Thumbnail(Thumbnail {
            content_type: "image/jpeg".to_string(),
            data: vec![1],
        }),
    };
    assert!(Ingredient::extract_assertion(&ingredient).is_some());
    assert!(Ingredient::extract_assertion(&thumbnail).is_none());
    assert!(Thumbnail::extract_assertion(&thumbnail).is_some());
    assert!(Thumbnail::extract_assertion(&ingredient).is_none());
}

#[test]
fn user_assertion_decodes_json_text() {
    let a = Assertion {
        label: "stds.iptc".to_string(),
        content: AssertionContent::Json("{\"n\":41}".to_string()),
    };
    match ResolvedAssertion::from_user_assertion(&a) {
        Ok(ResolvedAssertion::UserData(v)) => {
            assert_eq!(v["n"], serde_json::Value::from(41u64));
        }
        _ => panic!("expected user data"),
    }
}

#[test]
fn user_assertion_rejects_invalid_json() {
    let a = Assertion {
        label: "stds.iptc".to_string(),
        content: AssertionContent::Json("{\"n\":".to_string()),
    };
    match ResolvedAssertion::from_user_assertion(&a) {
        Err(Error::AssertionConversion(_)) => {}
        _ => panic!("expected an assertion conversion error"),
    }
}

#[test]
fn user_assertion_rejects_binary_content() {
    let a = Assertion {
        label: "stds.iptc".to_string(),
        content: AssertionContent::Binary(vec![0xff]),
    };
    match ResolvedAssertion::from_user_assertion(&a) {
        Err(Error::AssertionConversion(_)) => {}
        _ => panic!("expected an assertion conversion error"),
    }
}

#[test]
fn pool_lookup_finds_the_first_match() {
    let store = Store {
        claims: vec![],
        provenance: None,
        assertions: vec![
            (
                "self#jumbf=/c2pa/c1/a".to_string(),
                Assertion {
                    label: "a".to_string(),
                    content: AssertionContent::Json("1".to_string()),
                },
            ),
            (
                "self#jumbf=/c2pa/c1/b".to_string(),
                Assertion {
                    label: "b".to_string(),
                    content: AssertionContent::Json("2".to_string()),
                },
            ),
        ],
    };
    let found = store.get_assertion_from_uri("self#jumbf=/c2pa/c1/b").expect("must be found");
    assert_eq!(found.label, "b");
    assert!(store.get_assertion_from_uri("self#jumbf=/c2pa/c1/c").is_none());
}

#[test]
fn error_descriptions_match_their_kind() {
    assert_eq!(Error::IngredientConversion.describe(), "could not process ingredient");
    assert_eq!(
        Error::IngredientThumbnailExtraction.describe(),
        "could not extract thumbnail from ingredient"
    );
    assert_eq!(
        Error::AssertionConversion("bad".to_string()).describe(),
        "could not process assertion: bad"
    );
    assert_eq!(
        Error::ManifestConversion("inner".to_string()).describe(),
        "could not convert the manifest to an object: inner"
    );
}
