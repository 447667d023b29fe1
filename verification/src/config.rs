//! The run configuration handed to the decoding engine, including the opaque
//! handle for the external fingerprint-identification service.

use vstd::prelude::*;

verus! {

#[verifier::external_type_specification]
#[verifier::external_body]
pub struct ExIdentifier(lemmeknow::Identifier);

/// Relies on lemmeknow::Identifier's `Default` impl: it builds the
/// default-configured fingerprinting handle, which is carried through to the
/// decoding engine unmodified and never inspected here.
#[verifier::external_body]
pub(crate) fn identifier_default() -> lemmeknow::Identifier {
    lemmeknow::Identifier::default()
}

/// Immutable run configuration, created once per invocation.
pub struct Config {
    /// Number of verbosity flags supplied on the command line.
    pub verbose: u8,
    /// Default-constructed handle for the fingerprint-identification service.
    pub lemmeknow_config: lemmeknow::Identifier,
    /// Whether the interactive confirmation step downstream is enabled.
    pub human_checker_on: bool,
    /// Cracking timeout in seconds.
    pub timeout: u32,
    /// Whether results are returned programmatically instead of printed.
    pub api_mode: bool,
}

} // verus!
