//! Call-data encoders for the soulbound identity extrinsics.
//!
//! Each payload writes its own wire form: an ASCII call tag, then the fixed
//! account bytes and length-prefixed data, with all integers little-endian.

use vstd::prelude::*;

use crate::account::AccountId;
use crate::emotional_bridge::EmotionalMetadata;

verus! {

/// The little-endian bytes of a 32-bit integer.
pub open spec fn u32_le_bytes(n: u32) -> Seq<u8> {
    seq![
        (n % 256) as u8,
        ((n / 256) % 256) as u8,
        ((n / 65536) % 256) as u8,
        ((n / 16777216) % 256) as u8,
    ]
}

/// The little-endian bytes of a 64-bit integer.
pub open spec fn u64_le_bytes(n: u64) -> Seq<u8> {
    seq![
        (n % 256) as u8,
        ((n / 256) % 256) as u8,
        ((n / 65536) % 256) as u8,
        ((n / 16777216) % 256) as u8,
        ((n / 4294967296) % 256) as u8,
        ((n / 1099511627776) % 256) as u8,
        ((n / 281474976710656) % 256) as u8,
        ((n / 72057594037927936) % 256) as u8,
    ]
}

/// Append a byte sequence.
fn append_bytes(out: &mut Vec<u8>, src: &Vec<u8>)
    ensures
        final(out)@ == old(out)@ + src@,
{
    let mut i: usize = 0;
    while i < src.len()
        invariant
            i <= src@.len(),
            out@ == old(out)@ + src@.take(i as int),
        decreases src@.len() - i,
    {
        out.push(src[i]);
        proof {
            assert(out@ =~= old(out)@ + src@.take(i as int + 1));
        }
        i += 1;
    }
    proof {
        assert(old(out)@ + src@.take(src@.len() as int) =~= old(out)@ + src@);
    }
}

/// Append a 32-bit integer, little-endian.
fn push_u32_le(out: &mut Vec<u8>, n: u32)
    ensures
        final(out)@ == old(out)@ + u32_le_bytes(n),
{
    out.push((n % 256) as u8);
    out.push(((n / 256) % 256) as u8);
    out.push(((n / 65536) % 256) as u8);
    out.push(((n / 16777216) % 256) as u8);
    proof {
        assert(out@ =~= old(out)@ + u32_le_bytes(n));
    }
}

/// Append a 64-bit integer, little-endian.
fn push_u64_le(out: &mut Vec<u8>, n: u64)
    ensures
        final(out)@ == old(out)@ + u64_le_bytes(n),
{
    out.push((n % 256) as u8);
    out.push(((n / 256) % 256) as u8);
    out.push(((n / 65536) % 256) as u8);
    out.push(((n / 16777216) % 256) as u8);
    out.push(((n / 4294967296) % 256) as u8);
    out.push(((n / 1099511627776) % 256) as u8);
    out.push(((n / 281474976710656) % 256) as u8);
    out.push(((n / 72057594037927936) % 256) as u8);
    proof {
        assert(out@ =~= old(out)@ + u64_le_bytes(n));
    }
}

/// The ASCII bytes of the create-identity call tag.
pub open spec fn create_identity_tag() -> Seq<u8> {
    seq![
        99u8, 114u8, 101u8, 97u8, 116u8, 101u8, 95u8, 105u8, 100u8, 101u8, 110u8, 116u8, 105u8,
        116u8, 121u8,
    ]
}

/// The ASCII bytes of the update-emotional-metadata call tag.
pub open spec fn update_metadata_tag() -> Seq<u8> {
    seq![
        117u8, 112u8, 100u8, 97u8, 116u8, 101u8, 95u8, 101u8, 109u8, 111u8, 116u8, 105u8, 111u8,
        110u8, 97u8, 108u8, 95u8, 109u8, 101u8, 116u8, 97u8, 100u8, 97u8, 116u8, 97u8,
    ]
}

/// The create-identity tag as owned bytes, spelling "create_identity".
fn create_identity_tag_bytes() -> (v: Vec<u8>)
    ensures
        v@ == create_identity_tag(),
{
    let mut v: Vec<u8> = Vec::new();
    v.push(99);
    v.push(114);
    v.push(101);
    v.push(97);
    v.push(116);
    v.push(101);
    v.push(95);
    v.push(105);
    v.push(100);
    v.push(101);
    v.push(110);
    v.push(116);
    v.push(105);
    v.push(116);
    v.push(121);
    proof {
        assert(v@ =~= create_identity_tag());
    }
    v
}

/// The update tag as owned bytes, spelling "update_emotional_metadata".
fn update_metadata_tag_bytes() -> (v: Vec<u8>)
    ensures
        v@ == update_metadata_tag(),
{
    let mut v: Vec<u8> = Vec::new();
    v.push(117);
    v.push(112);
    v.push(100);
    v.push(97);
    v.push(116);
    v.push(101);
    v.push(95);
    v.push(101);
    v.push(109);
    v.push(111);
    v.push(116);
    v.push(105);
    v.push(111);
    v.push(110);
    v.push(97);
    v.push(108);
    v.push(95);
    v.push(109);
    v.push(101);
    v.push(116);
    v.push(97);
    v.push(100);
    v.push(97);
    v.push(116);
    v.push(97);
    proof {
        assert(v@ =~= update_metadata_tag());
    }
    v
}

/// The full call data of a create-identity payload: the tag, the owner's
/// account bytes, the data length as a little-endian 32-bit integer, and the
/// data itself.
pub open spec fn create_identity_call_data(owner: AccountId, identity_data: Seq<u8>) -> Seq<u8> {
    create_identity_tag() + owner.bytes@ + u32_le_bytes(identity_data.len() as u32) + identity_data
}

/// The full call data of an update payload: the tag, the token identifier as
/// a little-endian 64-bit integer, and a zero length.
pub open spec fn update_metadata_call_data(token_id: u64) -> Seq<u8> {
    update_metadata_tag() + u64_le_bytes(token_id) + u32_le_bytes(0)
}

/// Call payload that registers a soulbound identity.
#[derive(Clone, Debug)]
pub struct CreateIdentityExtrinsic {
    pub owner: AccountId,
    pub identity_data: Vec<u8>,
}

impl CreateIdentityExtrinsic {
    /// Append this payload's call data to `out`.
    pub fn encode_call_data_to(&self, out: &mut Vec<u8>)
        requires
            self.identity_data@.len() <= u32::MAX,
        ensures
            final(out)@ == old(out)@ + create_identity_call_data(self.owner, self.identity_data@),
    {
        let tag = create_identity_tag_bytes();
        append_bytes(out, &tag);
        append_bytes(out, &self.owner.bytes);
        push_u32_le(out, self.identity_data.len() as u32);
        append_bytes(out, &self.identity_data);
        proof {
            assert(out@ =~= old(out)@ + create_identity_call_data(
                self.owner,
                self.identity_data@,
            ));
        }
    }
}

/// Call payload that updates a token's emotional metadata. Only the token
/// identifier reaches the wire; the metadata itself travels through the
/// contract's own storage call.
#[derive(Clone, Debug)]
pub struct UpdateEmotionalMetadataExtrinsic {
    pub token_id: u64,
    pub emotional_data: EmotionalMetadata,
}

impl UpdateEmotionalMetadataExtrinsic {
    /// Append this payload's call data to `out`.
    pub fn encode_call_data_to(&self, out: &mut Vec<u8>)
        ensures
            final(out)@ == old(out)@ + update_metadata_call_data(self.token_id),
    {
        let tag = update_metadata_tag_bytes();
        append_bytes(out, &tag);
        push_u64_le(out, self.token_id);
        push_u32_le(out, 0);
        proof {
            assert(out@ =~= old(out)@ + update_metadata_call_data(self.token_id));
        }
    }
}

/// Builders for the soulbound identity extrinsics.
pub struct SoulboundExtrinsics {}

impl SoulboundExtrinsics {
    /// The payload that registers a soulbound identity for `owner`.
    pub fn create_identity(owner: AccountId, identity_data: Vec<u8>) -> (p:
        CreateIdentityExtrinsic)
        ensures
            p.owner == owner,
            p.identity_data == identity_data,
    {
        CreateIdentityExtrinsic { owner, identity_data }
    }

    /// The payload that updates the emotional metadata of one token.
    pub fn update_emotional_metadata(token_id: u64, emotional_data: EmotionalMetadata) -> (p:
        UpdateEmotionalMetadataExtrinsic)
        ensures
            p.token_id == token_id,
            p.emotional_data == emotional_data,
    {
        UpdateEmotionalMetadataExtrinsic { token_id, emotional_data }
    }
}

} // verus!
