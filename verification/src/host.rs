use vstd::prelude::*;

verus! {

/// The Soroban host environment, carried through to the arithmetic that runs on the host.
#[verifier::external_type_specification]
#[verifier::external_body]
pub struct ExEnv(soroban_sdk::Env);

/// A Soroban account or contract address; the library only carries it.
#[verifier::external_type_specification]
#[verifier::external_body]
pub struct ExAddress(soroban_sdk::Address);

/// A Soroban symbol (an asset ticker such as "BTC"); the library only carries it.
#[verifier::external_type_specification]
#[verifier::external_body]
pub struct ExSymbol(soroban_sdk::Symbol);

} // verus!
