//! The manifest and proxy-schema subcommands, as the command line exposes
//! them.

use vstd::prelude::*;

verus! {

/// Actions on manifests.
pub enum ManifestCommands {
    /// Get all manifests.
    List,
    /// Get information about one manifest.
    Get { id: String },
    /// Delete one manifest.
    Delete { id: String },
    /// Create a manifest interactively.
    Create,
}

/// Actions on proxy schemas.
pub enum ProxySchemaCommands {
    /// Get all proxy schemas of a manifest.
    List,
    /// Get information about one proxy schema.
    Get { id: String },
    /// Delete one proxy schema.
    Delete { id: String },
    /// Create a proxy schema interactively.
    Create,
}

} // verus!
