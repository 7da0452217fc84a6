//! Credential naming.
//!
//! API keys live in the operating system's credential vault, outside the
//! library; what belongs to the pipeline is the name a provider's key is
//! filed under, derived here.

use vstd::prelude::*;

verus! {

/// Names credential-vault entries for stored API keys.
pub struct CredentialStore {
}

impl CredentialStore {
    /// The vault target name of a provider's API key.
    pub open spec fn spec_target(provider: Seq<char>) -> Seq<char> {
        "Noodle/"@ + provider
    }

    /// Builds the vault target name a provider's key is filed under.
    pub fn target(provider: &str) -> (r: String)
        ensures
            r@ == Self::spec_target(provider@),
    {
        let mut r = String::from_str("Noodle/");
        r.append(provider);
        r
    }
}

} // verus!
