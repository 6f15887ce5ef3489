use vstd::prelude::*;

verus! {

/// A descriptive record for the token: name, symbol, icon, decimal precision
/// and the version string of the token standard followed.
///
/// The ledger stores the record opaquely for its external collaborators and
/// never interprets a field of it.
#[derive(Debug)]
pub struct TokenMetadata {
    pub spec_version: String,
    pub name: String,
    pub symbol: String,
    pub icon: Option<String>,
    pub decimals: u8,
}

} // verus!
