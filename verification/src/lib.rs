//! A credential-issuance ledger program: issuers, compressed-ledger tree
//! segments, and delegated credential operations (mint, transfer, burn),
//! with deterministic derived addresses binding each record to its
//! controlling authority.

use vstd::prelude::*;

pub mod codec;
pub mod coordinator;
pub mod errors;
pub mod instruction;
pub mod laws;
pub mod ledger;
pub mod pda;
pub mod records;
pub mod registry;

verus! {

} // verus!
