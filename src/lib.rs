//! Construction and pre-signing of the peg-in confirm transaction of a
//! Bitcoin bridge: connectors derive taproot locking scripts and leaf
//! scripts, a transaction skeleton records what each input spends, signers
//! fill the signature slots of each input, and the finalizer assembles the
//! witnessed transaction once every slot is filled.
use vstd::prelude::*;

pub mod balance;
pub mod btc;
pub mod connector;
pub mod context;
pub mod peg_in_confirm;
pub mod script;
pub mod skeleton;
pub mod tx;

verus! {

} // verus!
