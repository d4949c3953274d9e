//! The container as a field of a search index's schema.

use vstd::prelude::*;
use crate::map::SerdeMap;
use crate::strategy::SerdeMapStrategy;

verus! {

impl<K, V, KS: SerdeMapStrategy<K>> SerdeMap<K, V, KS> {
    /// The field type that a schema declares for a container, whatever its
    /// keys and values: a structured object.
    #[inline(always)]
    pub fn to_typesense_type() -> (kind: &'static str)
        ensures
            kind@ == "object"@,
    {
        "object"
    }
}

} // verus!
