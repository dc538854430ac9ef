//! The on-chain emotional bridge contract, modelled as plain state.
//!
//! The deployed contract reads its caller, the block timestamp and its own
//! account from the ledger environment; here those environment values arrive
//! as arguments, and emitted events are returned to the caller, so every
//! state transition is a checked function of its inputs.

use vstd::prelude::*;

use crate::account::AccountId;

verus! {

/// Emotional metadata as the contract stores it: integer scales.
#[derive(Clone, Debug)]
pub struct EmotionalMetadata {
    /// Emotional positivity/negativity, -100 to 100.
    pub valence: i32,
    /// Emotional intensity, 0 to 100.
    pub arousal: u32,
    /// Sense of control, 0 to 100.
    pub dominance: u32,
    /// When the emotional data was captured.
    pub timestamp: u64,
    /// Human-readable emotional category.
    pub emotional_category: Vec<u8>,
}

/// Cross-chain bridge bookkeeping as the contract records it.
#[derive(Clone, Debug)]
pub struct BridgeInfo {
    pub source_chain: Vec<u8>,
    pub target_chain: Vec<u8>,
    pub source_contract: Vec<u8>,
    pub target_contract: Vec<u8>,
    pub bridge_status: Vec<u8>,
    pub bridge_timestamp: u64,
    pub emotional_preservation: u32,
    pub bridge_complexity: u32,
    pub cross_chain_emotional_sync: bool,
}

/// Event: emotional data was stored under a fresh token.
#[derive(Clone, Debug)]
pub struct EmotionalDataStored {
    pub token_id: u64,
    pub owner: AccountId,
    pub valence: i32,
    pub arousal: u32,
    pub emotional_category: Vec<u8>,
}

/// Event: a token was bridged to another chain.
#[derive(Clone, Debug)]
pub struct TokenBridged {
    pub token_id: u64,
    pub source_chain: Vec<u8>,
    pub target_chain: Vec<u8>,
    pub bridge_timestamp: u64,
    pub emotional_preservation: u32,
}

/// The contract's failure conditions.
#[derive(Clone, Copy, Debug, PartialEq, Eq, Structural)]
pub enum Error {
    TokenNotFound,
    BridgeNotFound,
    NotOwner,
    BridgeFailed,
    InvalidEmotionalData,
}

/// A snapshot of the contract's storage.
#[derive(Clone, Debug)]
pub struct ContractInfo {
    pub owner: AccountId,
    pub token_counter: u64,
    pub total_bridged: u64,
    pub version: Vec<u8>,
}

/// The contract's version label, the bytes of "1.0.0".
pub open spec fn contract_version() -> Seq<u8> {
    seq![49u8, 46u8, 48u8, 46u8, 48u8]
}

/// The fixed source-chain label of every bridge operation, the bytes of
/// "PolkadotRococo".
pub open spec fn source_chain_label() -> Seq<u8> {
    seq![80u8, 111u8, 108u8, 107u8, 97u8, 100u8, 111u8, 116u8, 82u8, 111u8, 99u8, 111u8, 99u8, 111u8]
}

/// The version label as owned bytes.
fn version_bytes() -> (v: Vec<u8>)
    ensures
        v@ == contract_version(),
{
    let mut v: Vec<u8> = Vec::new();
    v.push(49);
    v.push(46);
    v.push(48);
    v.push(46);
    v.push(48);
    proof {
        assert(v@ =~= contract_version());
    }
    v
}

/// The source-chain label as owned bytes.
fn source_chain_bytes() -> (v: Vec<u8>)
    ensures
        v@ == source_chain_label(),
{
    let mut v: Vec<u8> = Vec::new();
    v.push(80);
    v.push(111);
    v.push(108);
    v.push(107);
    v.push(97);
    v.push(100);
    v.push(111);
    v.push(116);
    v.push(82);
    v.push(111);
    v.push(99);
    v.push(111);
    v.push(99);
    v.push(111);
    proof {
        assert(v@ =~= source_chain_label());
    }
    v
}

/// The bridge contract's storage: an owner, a token counter, a bridged-token
/// counter and a version label.
pub struct EmotionalBridge {
    owner: AccountId,
    token_counter: u64,
    total_bridged: u64,
    version: Vec<u8>,
}

impl EmotionalBridge {
    /// The account that instantiated the contract.
    pub closed spec fn owner_spec(self) -> AccountId {
        self.owner
    }

    /// How many tokens have been stored; also the next token identifier.
    pub closed spec fn token_counter_spec(self) -> u64 {
        self.token_counter
    }

    /// How many tokens have been bridged.
    pub closed spec fn total_bridged_spec(self) -> u64 {
        self.total_bridged
    }

    /// The stored version label.
    pub closed spec fn version_spec(self) -> Seq<u8> {
        self.version@
    }

    /// Instantiate the contract: the caller becomes the owner, both
    /// counters start at zero.
    pub fn new(caller: AccountId) -> (c: EmotionalBridge)
        ensures
            c.owner_spec() == caller,
            c.token_counter_spec() == 0,
            c.total_bridged_spec() == 0,
            c.version_spec() == contract_version(),
    {
        EmotionalBridge { owner: caller, token_counter: 0, total_bridged: 0, version: version_bytes() }
    }

    /// Store one emotional reading: the current counter value becomes the
    /// fresh token's identifier, the counter advances by one, and the
    /// emitted event echoes the caller and the stored reading.
    pub fn store_emotional_data(
        &mut self,
        caller: AccountId,
        valence: i32,
        arousal: u32,
        dominance: u32,
        emotional_category: Vec<u8>,
        now: u64,
    ) -> (r: (u64, EmotionalDataStored))
        requires
            old(self).token_counter_spec() < u64::MAX,
        ensures
            r.0 == old(self).token_counter_spec(),
            final(self).token_counter_spec() == old(self).token_counter_spec() + 1,
            final(self).total_bridged_spec() == old(self).total_bridged_spec(),
            final(self).owner_spec() == old(self).owner_spec(),
            final(self).version_spec() == old(self).version_spec(),
            r.1.token_id == r.0,
            r.1.owner == caller,
            r.1.valence == valence,
            r.1.arousal == arousal,
            r.1.emotional_category == emotional_category,
    {
        let token_id = self.token_counter;
        self.token_counter = self.token_counter + 1;
        let event = EmotionalDataStored {
            token_id,
            owner: caller,
            valence,
            arousal,
            emotional_category,
        };
        // The deployed contract folds dominance and the block timestamp into
        // its stored reading; the observable transition is the counter and
        // the event.
        let _ = dominance;
        let _ = now;
        (token_id, event)
    }

    /// Bridge a stored token to another chain: the bridged-token counter
    /// advances by one and the emitted event names the fixed source chain,
    /// the requested target chain and the block timestamp. The contract
    /// refuses nothing, so the operation always succeeds.
    pub fn bridge_token(
        &mut self,
        token_id: u64,
        target_chain: Vec<u8>,
        target_contract: Vec<u8>,
        now: u64,
    ) -> (r: Result<TokenBridged, Error>)
        requires
            old(self).total_bridged_spec() < u64::MAX,
        ensures
            final(self).total_bridged_spec() == old(self).total_bridged_spec() + 1,
            final(self).token_counter_spec() == old(self).token_counter_spec(),
            final(self).owner_spec() == old(self).owner_spec(),
            final(self).version_spec() == old(self).version_spec(),
            r matches Ok(ev) && ev.token_id == token_id && ev.source_chain@
                == source_chain_label() && ev.target_chain == target_chain
                && ev.bridge_timestamp == now && ev.emotional_preservation == 95,
    {
        let _ = target_contract;
        self.total_bridged = self.total_bridged + 1;
        Ok(
            TokenBridged {
                token_id,
                source_chain: source_chain_bytes(),
                target_chain,
                bridge_timestamp: now,
                emotional_preservation: 95,
            },
        )
    }

    /// A snapshot of the contract's storage.
    pub fn get_contract_info(&self) -> (info: ContractInfo)
        ensures
            info.owner.bytes@ == self.owner_spec().bytes@,
            info.token_counter == self.token_counter_spec(),
            info.total_bridged == self.total_bridged_spec(),
            info.version@ == self.version_spec(),
    {
        let version = self.version.clone();
        proof {
            assert(version@ =~= self.version@);
        }
        ContractInfo {
            owner: self.owner.duplicate(),
            token_counter: self.token_counter,
            total_bridged: self.total_bridged,
            version,
        }
    }

    /// How many tokens have been stored.
    pub fn get_token_count(&self) -> (n: u64)
        ensures
            n == self.token_counter_spec(),
    {
        self.token_counter
    }

    /// How many tokens have been bridged.
    pub fn get_total_bridged(&self) -> (n: u64)
        ensures
            n == self.total_bridged_spec(),
    {
        self.total_bridged
    }
}

} // verus!
