//! Soulbound tokens: non-transferable creator identity and its reputation
//! bookkeeping.

use vstd::prelude::*;

use crate::account::AccountId;

verus! {

/// A non-transferable token bound to one account.
#[derive(Clone, Debug)]
pub struct SoulboundToken {
    pub owner: AccountId,
    pub token_id: u64,
    pub token_type: TokenType,
    pub metadata: Vec<u8>,
    pub issued_at: u64,
    pub is_revoked: bool,
}

/// What a soulbound token certifies.
#[derive(Clone, Copy, Debug, PartialEq, Eq, Structural)]
pub enum TokenType {
    CreatorIdentity,
    ReputationBadge,
    Achievement,
    Membership,
    Certification,
}

/// Reputation counters for a creator.
#[derive(Clone, Copy, Debug, PartialEq, Eq, Structural)]
pub struct ReputationData {
    pub score: u32,
    pub total_interactions: u32,
    pub badges: u32,
}

impl Default for ReputationData {
    /// Fresh reputation: every counter at zero.
    fn default() -> (r: ReputationData)
        ensures
            r.score == 0,
            r.total_interactions == 0,
            r.badges == 0,
    {
        ReputationData { score: 0, total_interactions: 0, badges: 0 }
    }
}

/// Achievements a creator can earn.
#[derive(Clone, Copy, Debug, PartialEq, Eq, Hash, Structural)]
pub enum Badge {
    Pioneer,
    Master,
    Collaborator,
    Innovator,
    EmotionalArtist,
    TechnicalExpert,
    CommunityLeader,
    TrendSetter,
}

/// The highest reputation score an update may reach.
pub open spec fn reputation_cap() -> int {
    10000
}

/// A signed delta applied to a score, saturating at the `u32` bounds.
pub open spec fn applied_score(score: u32, delta: int) -> int {
    if score + delta > u32::MAX {
        u32::MAX as int
    } else if score + delta < 0 {
        0
    } else {
        score + delta
    }
}

/// Issues soulbound tokens and maintains their reputation records.
pub struct SoulboundTokenClient {}

impl SoulboundTokenClient {
    /// Issue a new soulbound token to `owner`, stamped with the caller's
    /// clock reading and not revoked. The issuance time arrives as an
    /// argument, like the block timestamp of the bridge contract, so the
    /// whole token is a checked function of its inputs.
    pub fn new_soulbound_token(
        owner: AccountId,
        token_id: u64,
        token_type: TokenType,
        metadata: Vec<u8>,
        issued_at: u64,
    ) -> (t: SoulboundToken)
        ensures
            t.owner == owner,
            t.token_id == token_id,
            t.token_type == token_type,
            t.metadata == metadata,
            t.issued_at == issued_at,
            !t.is_revoked,
    {
        SoulboundToken { owner, token_id, token_type, metadata, issued_at, is_revoked: false }
    }

    /// Apply a signed delta to the reputation score, saturating at the
    /// `u32` bounds. A resulting score above the cap is refused and leaves
    /// the record untouched; otherwise the score is stored and the
    /// interaction counter advances by one.
    pub fn update_reputation(reputation: &mut ReputationData, score_delta: i32) -> (r: Result<
        (),
        &'static str,
    >)
        requires
            old(reputation).total_interactions < u32::MAX,
            score_delta > i32::MIN,
        ensures
            applied_score(old(reputation).score, score_delta as int) > reputation_cap() ==> (
            r matches Err(m) && m@ == "Reputation score too high"@ && *final(reputation) == *old(
                reputation,
            )),
            applied_score(old(reputation).score, score_delta as int) <= reputation_cap() ==> (
            r is Ok && final(reputation).score == applied_score(
                old(reputation).score,
                score_delta as int,
            ) && final(reputation).total_interactions == old(reputation).total_interactions + 1
                && final(reputation).badges == old(reputation).badges),
    {
        let new_score: u32 = if score_delta >= 0 {
            let d = score_delta as u32;
            if reputation.score > u32::MAX - d {
                u32::MAX
            } else {
                reputation.score + d
            }
        } else {
            let magnitude = (-(score_delta as i64)) as u32;
            if reputation.score < magnitude {
                0
            } else {
                reputation.score - magnitude
            }
        };
        if new_score > 10000 {
            return Err("Reputation score too high");
        }
        reputation.score = new_score;
        reputation.total_interactions = reputation.total_interactions + 1;
        Ok(())
    }

    /// Record a chain in a token's cross-chain provenance, unless the same
    /// chain is already listed.
    pub fn add_cross_chain_provenance(provenance: &mut Vec<String>, chain: String)
        ensures
            (exists|i: int|
                0 <= i < old(provenance)@.len() && (#[trigger] old(provenance)@[i])@ == chain@)
                ==> *final(provenance) == *old(provenance),
            !(exists|i: int|
                0 <= i < old(provenance)@.len() && (#[trigger] old(provenance)@[i])@ == chain@)
                ==> final(provenance)@ == old(provenance)@.push(chain),
    {
        let mut i: usize = 0;
        while i < provenance.len()
            invariant
                i <= provenance@.len(),
                *provenance == *old(provenance),
                forall|j: int| 0 <= j < i ==> (#[trigger] provenance@[j])@ != chain@,
            decreases provenance@.len() - i,
        {
            if provenance[i] == chain {
                return ;
            }
            i += 1;
        }
        provenance.push(chain);
    }
}

} // verus!
