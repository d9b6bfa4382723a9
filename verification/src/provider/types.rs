//! Provider-independent voice description.

use vstd::prelude::*;

verus! {

/// A voice offered by a conversion provider.
#[derive(Debug, Clone)]
pub struct Voice {
    pub id: String,
    pub name: String,
    pub language: Option<String>,
    pub provider: String,
}

} // verus!
