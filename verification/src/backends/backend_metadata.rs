use vstd::prelude::*;

use super::BackendFeature;

verus! {

/// Metadata about a language backend: the language's name and what it can render.
pub trait BackendMetadata {
    /// The name of the language.
    fn language_name(&self) -> &'static str;

    /// The features this backend supports.
    fn supported_features(&self) -> &'static [BackendFeature];
}

} // verus!
