//! Terminal errors of the resolution engine.
//!
//! Every error aborts the operation that raised it; nothing is retried.
//! Failures that the policy tolerates (dangling references, undecodable
//! nested thumbnails, non-JSON credential payloads) never surface here:
//! they degrade to an absent value instead.

use vstd::prelude::*;

verus! {

/// Spec-level shape of an [`Error`], with message text abstracted away.
pub ghost enum ErrorV {
    ManifestConversion,
    AssertionConversion,
    IngredientConversion,
    IngredientThumbnailExtraction,
}

/// What can go wrong while resolving a store.
#[derive(Debug)]
pub enum Error {
    /// A failure while resolving a whole store, carrying the originating
    /// error's description.
    ManifestConversion(String),
    /// A generic assertion in the claim's map failed to decode.
    AssertionConversion(String),
    /// An ingredient-labeled assertion failed to decode.
    IngredientConversion,
    /// A claim-level thumbnail was present but failed to decode.
    IngredientThumbnailExtraction,
}

impl View for Error {
    type V = ErrorV;

    open spec fn view(&self) -> ErrorV {
        match self {
            Error::ManifestConversion(_) => ErrorV::ManifestConversion,
            Error::AssertionConversion(_) => ErrorV::AssertionConversion,
            Error::IngredientConversion => ErrorV::IngredientConversion,
            Error::IngredientThumbnailExtraction => ErrorV::IngredientThumbnailExtraction,
        }
    }
}

impl Error {
    /// The description [`Error::describe`] returns.
    pub open spec fn spec_describe(&self) -> Seq<char> {
        match self {
            Error::ManifestConversion(s) => "could not convert the manifest to an object: "@
                + s@,
            Error::AssertionConversion(s) => "could not process assertion: "@ + s@,
            Error::IngredientConversion => "could not process ingredient"@,
            Error::IngredientThumbnailExtraction => "could not extract thumbnail from ingredient"@,
        }
    }

    /// A human-readable description of the error, used when an inner error
    /// is rewrapped at an outer stage.
    pub fn describe(&self) -> (r: String)
        ensures
            r@ == self.spec_describe(),
    {
        match self {
            Error::ManifestConversion(s) => {
                let mut m = "could not convert the manifest to an object: ".to_owned();
                m.append(s.as_str());
                m
            },
            Error::AssertionConversion(s) => {
                let mut m = "could not process assertion: ".to_owned();
                m.append(s.as_str());
                m
            },
            Error::IngredientConversion => "could not process ingredient".to_owned(),
            Error::IngredientThumbnailExtraction => "could not extract thumbnail from ingredient".to_owned(),
        }
    }
}

} // verus!
