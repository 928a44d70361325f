//! The keys that the parties of the bridge hold, and the errors of the
//! library.
use vstd::prelude::*;

verus! {

/// The network that addresses are derived for.
#[derive(Clone, Copy, Debug, PartialEq, Eq, Structural)]
pub enum Network {
    Bitcoin,
    Testnet,
    Signet,
    Regtest,
}

/// A party whose signature a spending path can require.
#[derive(Clone, Copy, Debug, PartialEq, Eq, Structural)]
pub enum Role {
    Depositor,
    NOfN,
}

/// A key of the context, named so that a missing or malformed one can be
/// reported.
#[derive(Clone, Copy, Debug, PartialEq, Eq, Structural)]
pub enum ContextKey {
    NOfNPublicKey,
    NOfNTaprootPublicKey,
    DepositorTaprootPublicKey,
    NOfNKeypair,
    DepositorKeypair,
}

#[derive(Clone, Copy, Debug, PartialEq, Eq, Structural)]
pub enum BridgeError {
    /// A key that the operation needs is absent from the context.
    MissingKey(ContextKey),
    /// A key of the context has the wrong length.
    InvalidKey(ContextKey),
    /// The committed data is too long for a single push.
    InvalidCommitment,
    /// The inputs do not cover the fee and the outputs.
    InsufficientFunds,
    /// An output would carry no value.
    ZeroValueOutput,
    /// An output would carry more than a `u64` of satoshis.
    AmountOverflow,
    /// A connector has no leaf of that index.
    LeafIndexOutOfRange,
    /// The transaction has no input of that index.
    InputIndexOutOfRange,
    /// The taproot tree of a connector could not be built from its keys.
    InvalidSpendInfo,
    /// The signature hash or the signature of an input could not be made.
    SigningFailed,
    /// A signature slot is still empty.
    Incomplete,
    /// Two skeletons to merge differ in their body or their slots.
    Mismatch,
}

/// Length of a compressed public key.
pub const PUBLIC_KEY_LEN: usize = 33;

/// Length of an x-only (taproot) public key and of a secret key.
pub const KEY_LEN_32: usize = 32;

/// The keys of one signing session. Public keys are present for every
/// party; secret keys only for the roles that this party signs for.
#[derive(Clone, Debug)]
pub struct BridgeContext {
    pub network: Network,
    pub n_of_n_public_key: Option<Vec<u8>>,
    pub n_of_n_taproot_public_key: Option<Vec<u8>>,
    pub depositor_taproot_public_key: Option<Vec<u8>>,
    pub n_of_n_keypair: Option<Vec<u8>>,
    pub depositor_keypair: Option<Vec<u8>>,
}

pub open spec fn key_view(k: Option<Vec<u8>>) -> Option<Seq<u8>> {
    match k {
        Some(v) => Some(v@),
        None => None,
    }
}

impl BridgeContext {
    /// The secret key that signs for `role`, if this party holds it.
    pub open spec fn secret_for(&self, role: Role) -> Option<Seq<u8>> {
        match role {
            Role::Depositor => key_view(self.depositor_keypair),
            Role::NOfN => key_view(self.n_of_n_keypair),
        }
    }

    /// The context key that holds the secret of `role`.
    pub open spec fn secret_key_name(role: Role) -> ContextKey {
        match role {
            Role::Depositor => ContextKey::DepositorKeypair,
            Role::NOfN => ContextKey::NOfNKeypair,
        }
    }

    /// Looks up the secret key of `role`; fails when it is absent.
    pub fn keypair(&self, role: Role) -> (r: Result<&Vec<u8>, BridgeError>)
        ensures
            match r {
                Ok(k) => self.secret_for(role) == Some(k@),
                Err(e) => self.secret_for(role).is_none() && e == BridgeError::MissingKey(
                    Self::secret_key_name(role),
                ),
            },
    {
        let k = match role {
            Role::Depositor => &self.depositor_keypair,
            Role::NOfN => &self.n_of_n_keypair,
        };
        match k {
            Some(v) => Ok(v),
            None => Err(BridgeError::MissingKey(
                match role {
                    Role::Depositor => ContextKey::DepositorKeypair,
                    Role::NOfN => ContextKey::NOfNKeypair,
                },
            )),
        }
    }
}

} // verus!
