//! Data model of browser extensions. The extension lifecycle runs in the
//! shell; the core only defines the manifest.

use vstd::prelude::*;

verus! {

/// What an extension declares about itself.
#[derive(Debug, Clone)]
pub struct ExtensionManifest {
    pub name: String,
    pub version: String,
    pub description: String,
    pub permissions: Vec<String>,
}

} // verus!
