//! Canonical byte encodings and SHA-256 digests.
//!
//! A settlement id is the SHA-256 digest of, in this order and without
//! separators: the remittance id (u64, big-endian), the sender and the agent
//! (XDR encodings), the amount and the fee (i128, big-endian) and the expiry
//! (u64, big-endian, 0 when absent). The status is not part of it. External
//! systems reproduce a settlement id from the same fields.

use vstd::prelude::*;

use crate::types::{Address, Remittance};

verus! {

/// The Soroban environment, through which the host computes digests.
#[verifier::external_type_specification]
#[verifier::external_body]
pub struct ExEnv(soroban_sdk::Env);

/// Version of the field ordering of settlement ids.
pub const HASH_SCHEMA_VERSION: u32 = 1;

/// The SHA-256 digest of `data`.
pub uninterp spec fn sha256_digest(data: Seq<u8>) -> Seq<u8>;

/// Computes the SHA-256 digest of `data` with `soroban_sdk::crypto::Crypto::sha256`
/// (the host's `compute_hash_sha256`). The contract claims only that the
/// digest is a function of the bytes hashed, named `sha256_digest`; the host
/// may abort the invocation when its resource budget is exhausted.
#[verifier::external_body]
pub(crate) fn sha256(env: &soroban_sdk::Env, data: &Vec<u8>) -> (digest: [u8; 32])
    ensures
        digest@ == sha256_digest(data@),
{
    env.crypto().sha256(&soroban_sdk::Bytes::from_slice(env, data.as_slice())).to_array()
}

/// The 4 big-endian bytes of `x`.
pub open spec fn u32_be(x: u32) -> Seq<u8> {
    seq![(x >> 24u32) as u8, (x >> 16u32) as u8, (x >> 8u32) as u8, x as u8]
}

/// The 8 big-endian bytes of `x`.
pub open spec fn u64_be(x: u64) -> Seq<u8> {
    seq![
        (x >> 56u64) as u8, (x >> 48u64) as u8, (x >> 40u64) as u8, (x >> 32u64) as u8,
        (x >> 24u64) as u8, (x >> 16u64) as u8, (x >> 8u64) as u8, x as u8,
    ]
}

/// The 16 big-endian bytes of `x` in two's complement.
pub open spec fn i128_be(x: i128) -> Seq<u8> {
    let u = x as u128;
    seq![
        (u >> 120u128) as u8, (u >> 112u128) as u8, (u >> 104u128) as u8, (u >> 96u128) as u8,
        (u >> 88u128) as u8, (u >> 80u128) as u8, (u >> 72u128) as u8, (u >> 64u128) as u8,
        (u >> 56u128) as u8, (u >> 48u128) as u8, (u >> 40u128) as u8, (u >> 32u128) as u8,
        (u >> 24u128) as u8, (u >> 16u128) as u8, (u >> 8u128) as u8, u as u8,
    ]
}

/// Appends the big-endian bytes of `x`.
pub fn push_u32_be(out: &mut Vec<u8>, x: u32)
    ensures
        final(out)@ == old(out)@ + u32_be(x),
{
    out.push((x >> 24u32) as u8);
    out.push((x >> 16u32) as u8);
    out.push((x >> 8u32) as u8);
    out.push(x as u8);
    assert(out@ =~= old(out)@ + u32_be(x));
}

/// Appends the big-endian bytes of `x`.
pub fn push_u64_be(out: &mut Vec<u8>, x: u64)
    ensures
        final(out)@ == old(out)@ + u64_be(x),
{
    out.push((x >> 56u64) as u8);
    out.push((x >> 48u64) as u8);
    out.push((x >> 40u64) as u8);
    out.push((x >> 32u64) as u8);
    out.push((x >> 24u64) as u8);
    out.push((x >> 16u64) as u8);
    out.push((x >> 8u64) as u8);
    out.push(x as u8);
    assert(out@ =~= old(out)@ + u64_be(x));
}

/// Appends the big-endian two's complement bytes of `x`.
pub fn push_i128_be(out: &mut Vec<u8>, x: i128)
    ensures
        final(out)@ == old(out)@ + i128_be(x),
{
    let u = x as u128;
    out.push((u >> 120u128) as u8);
    out.push((u >> 112u128) as u8);
    out.push((u >> 104u128) as u8);
    out.push((u >> 96u128) as u8);
    out.push((u >> 88u128) as u8);
    out.push((u >> 80u128) as u8);
    out.push((u >> 72u128) as u8);
    out.push((u >> 64u128) as u8);
    out.push((u >> 56u128) as u8);
    out.push((u >> 48u128) as u8);
    out.push((u >> 40u128) as u8);
    out.push((u >> 32u128) as u8);
    out.push((u >> 24u128) as u8);
    out.push((u >> 16u128) as u8);
    out.push((u >> 8u128) as u8);
    out.push(u as u8);
    assert(out@ =~= old(out)@ + i128_be(x));
}

/// The bytes hashed into a settlement id.
pub open spec fn settlement_id_preimage(
    remittance_id: u64,
    sender: Seq<u8>,
    agent: Seq<u8>,
    amount: i128,
    fee: i128,
    expiry: Option<u64>,
) -> Seq<u8> {
    u64_be(remittance_id) + sender + agent + i128_be(amount) + i128_be(fee) + u64_be(
        match expiry {
            Some(e) => e,
            None => 0,
        },
    )
}

/// The canonical byte encoding of an address: its XDR encoding.
pub fn address_to_bytes(address: &Address) -> (b: Vec<u8>)
    ensures
        b@ == address@,
{
    address.to_xdr_bytes()
}

/// The settlement id of a remittance with these fields: the SHA-256
/// digest of their canonical encoding (an absent expiry encodes as 0).
pub fn compute_settlement_id(
    env: &soroban_sdk::Env,
    remittance_id: u64,
    sender: &Address,
    agent: &Address,
    amount: i128,
    fee: i128,
    expiry: Option<u64>,
) -> (id: [u8; 32])
    ensures
        id@ == sha256_digest(settlement_id_preimage(remittance_id, sender@, agent@, amount, fee, expiry)),
{
    let mut buf: Vec<u8> = Vec::new();
    push_u64_be(&mut buf, remittance_id);
    let mut sender_bytes = address_to_bytes(sender);
    buf.append(&mut sender_bytes);
    let mut agent_bytes = address_to_bytes(agent);
    buf.append(&mut agent_bytes);
    push_i128_be(&mut buf, amount);
    push_i128_be(&mut buf, fee);
    let expiry_val: u64 = match expiry {
        Some(e) => e,
        None => 0,
    };
    push_u64_be(&mut buf, expiry_val);
    assert(buf@ =~= settlement_id_preimage(remittance_id, sender@, agent@, amount, fee, expiry));
    sha256(env, &buf)
}

/// The settlement id of `remittance`.
pub fn compute_settlement_id_from_remittance(env: &soroban_sdk::Env, remittance: &Remittance) -> (id: [u8; 32])
    ensures
        id@ == sha256_digest(
            settlement_id_preimage(
                remittance.id,
                remittance.sender@,
                remittance.agent@,
                remittance.amount,
                remittance.fee,
                remittance.expiry,
            ),
        ),
{
    compute_settlement_id(
        env,
        remittance.id,
        &remittance.sender,
        &remittance.agent,
        remittance.amount,
        remittance.fee,
        remittance.expiry,
    )
}

/// An absent expiry and an expiry of 0 give the same settlement id.
pub proof fn lemma_absent_expiry_is_zero(remittance_id: u64, sender: Seq<u8>, agent: Seq<u8>, amount: i128, fee: i128)
    ensures
        sha256_digest(settlement_id_preimage(remittance_id, sender, agent, amount, fee, None))
            == sha256_digest(settlement_id_preimage(remittance_id, sender, agent, amount, fee, Some(0))),
{
}

/// The status does not enter a settlement id: remittances that differ only
/// in status have the same settlement id.
pub proof fn lemma_settlement_id_ignores_status(a: crate::types::RemittanceView, b: crate::types::RemittanceView)
    requires
        a.id == b.id,
        a.sender == b.sender,
        a.agent == b.agent,
        a.amount == b.amount,
        a.fee == b.fee,
        a.expiry == b.expiry,
    ensures
        settlement_id_preimage(a.id, a.sender, a.agent, a.amount, a.fee, a.expiry)
            == settlement_id_preimage(b.id, b.sender, b.agent, b.amount, b.fee, b.expiry),
{
}

/// Distinct remittance ids give distinct hashed encodings, whatever the
/// other fields.
pub proof fn lemma_preimage_distinguishes_ids(
    id1: u64,
    id2: u64,
    sender: Seq<u8>,
    agent: Seq<u8>,
    amount: i128,
    fee: i128,
    expiry: Option<u64>,
)
    requires
        id1 != id2,
    ensures
        settlement_id_preimage(id1, sender, agent, amount, fee, expiry)
            != settlement_id_preimage(id2, sender, agent, amount, fee, expiry),
{
    let p1 = settlement_id_preimage(id1, sender, agent, amount, fee, expiry);
    let p2 = settlement_id_preimage(id2, sender, agent, amount, fee, expiry);
    assert(p1.take(8) =~= u64_be(id1));
    assert(p2.take(8) =~= u64_be(id2));
    assert(u64_be(id1) != u64_be(id2)) by {
        if u64_be(id1) == u64_be(id2) {
            assert(u64_be(id1)[0] == u64_be(id2)[0]);
            assert(u64_be(id1)[7] == u64_be(id2)[7]);
            assert(id1 == id2) by (bit_vector)
                requires
                    (id1 >> 56u64) as u8 == (id2 >> 56u64) as u8,
                    (id1 >> 48u64) as u8 == (id2 >> 48u64) as u8,
                    (id1 >> 40u64) as u8 == (id2 >> 40u64) as u8,
                    (id1 >> 32u64) as u8 == (id2 >> 32u64) as u8,
                    (id1 >> 24u64) as u8 == (id2 >> 24u64) as u8,
                    (id1 >> 16u64) as u8 == (id2 >> 16u64) as u8,
                    (id1 >> 8u64) as u8 == (id2 >> 8u64) as u8,
                    id1 as u8 == id2 as u8;
        }
    }
}

/// Two concatenations are equal part by part when their first parts, or
/// their second parts, have equal lengths.
pub proof fn lemma_concat_split(a1: Seq<u8>, b1: Seq<u8>, a2: Seq<u8>, b2: Seq<u8>)
    requires
        a1 + b1 == a2 + b2,
        a1.len() == a2.len() || b1.len() == b2.len(),
    ensures
        a1 == a2,
        b1 == b2,
{
    assert(a1.len() == a2.len());
    assert(a1 =~= (a1 + b1).subrange(0, a1.len() as int));
    assert(a2 =~= (a2 + b2).subrange(0, a2.len() as int));
    assert(b1 =~= (a1 + b1).subrange(a1.len() as int, (a1 + b1).len() as int));
    assert(b2 =~= (a2 + b2).subrange(a2.len() as int, (a2 + b2).len() as int));
}

/// Distinct numbers have distinct big-endian encodings.
pub proof fn lemma_u32_be_injective(x: u32, y: u32)
    ensures
        u32_be(x) == u32_be(y) ==> x == y,
{
    if u32_be(x) == u32_be(y) {
        assert(u32_be(x)[0] == u32_be(y)[0] && u32_be(x)[1] == u32_be(y)[1]);
        assert(u32_be(x)[2] == u32_be(y)[2] && u32_be(x)[3] == u32_be(y)[3]);
        assert(x == y) by (bit_vector)
            requires
                (x >> 24u32) as u8 == (y >> 24u32) as u8,
                (x >> 16u32) as u8 == (y >> 16u32) as u8,
                (x >> 8u32) as u8 == (y >> 8u32) as u8,
                x as u8 == y as u8;
    }
}

/// Distinct numbers have distinct big-endian encodings.
pub proof fn lemma_u64_be_injective(x: u64, y: u64)
    ensures
        u64_be(x) == u64_be(y) ==> x == y,
{
    if u64_be(x) == u64_be(y) {
        assert(u64_be(x)[0] == u64_be(y)[0] && u64_be(x)[1] == u64_be(y)[1]);
        assert(u64_be(x)[2] == u64_be(y)[2] && u64_be(x)[3] == u64_be(y)[3]);
        assert(u64_be(x)[4] == u64_be(y)[4] && u64_be(x)[5] == u64_be(y)[5]);
        assert(u64_be(x)[6] == u64_be(y)[6] && u64_be(x)[7] == u64_be(y)[7]);
        assert(x == y) by (bit_vector)
            requires
                (x >> 56u64) as u8 == (y >> 56u64) as u8,
                (x >> 48u64) as u8 == (y >> 48u64) as u8,
                (x >> 40u64) as u8 == (y >> 40u64) as u8,
                (x >> 32u64) as u8 == (y >> 32u64) as u8,
                (x >> 24u64) as u8 == (y >> 24u64) as u8,
                (x >> 16u64) as u8 == (y >> 16u64) as u8,
                (x >> 8u64) as u8 == (y >> 8u64) as u8,
                x as u8 == y as u8;
    }
}

/// Distinct numbers have distinct big-endian encodings.
pub proof fn lemma_i128_be_injective(x: i128, y: i128)
    ensures
        i128_be(x) == i128_be(y) ==> x == y,
{
    if i128_be(x) == i128_be(y) {
        let u = x as u128;
        let v = y as u128;
        assert(i128_be(x)[0] == i128_be(y)[0] && i128_be(x)[1] == i128_be(y)[1]);
        assert(i128_be(x)[2] == i128_be(y)[2] && i128_be(x)[3] == i128_be(y)[3]);
        assert(i128_be(x)[4] == i128_be(y)[4] && i128_be(x)[5] == i128_be(y)[5]);
        assert(i128_be(x)[6] == i128_be(y)[6] && i128_be(x)[7] == i128_be(y)[7]);
        assert(i128_be(x)[8] == i128_be(y)[8] && i128_be(x)[9] == i128_be(y)[9]);
        assert(i128_be(x)[10] == i128_be(y)[10] && i128_be(x)[11] == i128_be(y)[11]);
        assert(i128_be(x)[12] == i128_be(y)[12] && i128_be(x)[13] == i128_be(y)[13]);
        assert(i128_be(x)[14] == i128_be(y)[14] && i128_be(x)[15] == i128_be(y)[15]);
        assert(u == v) by (bit_vector)
            requires
                (u >> 120u128) as u8 == (v >> 120u128) as u8,
                (u >> 112u128) as u8 == (v >> 112u128) as u8,
                (u >> 104u128) as u8 == (v >> 104u128) as u8,
                (u >> 96u128) as u8 == (v >> 96u128) as u8,
                (u >> 88u128) as u8 == (v >> 88u128) as u8,
                (u >> 80u128) as u8 == (v >> 80u128) as u8,
                (u >> 72u128) as u8 == (v >> 72u128) as u8,
                (u >> 64u128) as u8 == (v >> 64u128) as u8,
                (u >> 56u128) as u8 == (v >> 56u128) as u8,
                (u >> 48u128) as u8 == (v >> 48u128) as u8,
                (u >> 40u128) as u8 == (v >> 40u128) as u8,
                (u >> 32u128) as u8 == (v >> 32u128) as u8,
                (u >> 24u128) as u8 == (v >> 24u128) as u8,
                (u >> 16u128) as u8 == (v >> 16u128) as u8,
                (u >> 8u128) as u8 == (v >> 8u128) as u8,
                u as u8 == v as u8;
        assert(x == y) by (bit_vector)
            requires
                x as u128 == y as u128;
    }
}

/// A settlement id's hashed bytes determine the settlement: among parties
/// whose encodings have the same lengths, equal bytes mean equal remittance
/// id, sender, agent, amount, fee and expiry (an absent expiry counting as 0).
pub proof fn lemma_settlement_preimage_determines_fields(
    id1: u64,
    sender1: Seq<u8>,
    agent1: Seq<u8>,
    amount1: i128,
    fee1: i128,
    expiry1: Option<u64>,
    id2: u64,
    sender2: Seq<u8>,
    agent2: Seq<u8>,
    amount2: i128,
    fee2: i128,
    expiry2: Option<u64>,
)
    requires
        sender1.len() == sender2.len(),
        agent1.len() == agent2.len(),
    ensures
        settlement_id_preimage(id1, sender1, agent1, amount1, fee1, expiry1) == settlement_id_preimage(
            id2,
            sender2,
            agent2,
            amount2,
            fee2,
            expiry2,
        ) ==> {
            &&& id1 == id2
            &&& sender1 == sender2
            &&& agent1 == agent2
            &&& amount1 == amount2
            &&& fee1 == fee2
            &&& (match expiry1 { Some(e) => e, None => 0 }) == (match expiry2 { Some(e) => e, None => 0 })
        },
{
    if settlement_id_preimage(id1, sender1, agent1, amount1, fee1, expiry1) == settlement_id_preimage(
        id2,
        sender2,
        agent2,
        amount2,
        fee2,
        expiry2,
    ) {
        let x1: u64 = match expiry1 { Some(e) => e, None => 0 };
        let x2: u64 = match expiry2 { Some(e) => e, None => 0 };
        lemma_concat_split(
            u64_be(id1) + sender1 + agent1 + i128_be(amount1) + i128_be(fee1),
            u64_be(x1),
            u64_be(id2) + sender2 + agent2 + i128_be(amount2) + i128_be(fee2),
            u64_be(x2),
        );
        lemma_u64_be_injective(x1, x2);
        lemma_concat_split(
            u64_be(id1) + sender1 + agent1 + i128_be(amount1),
            i128_be(fee1),
            u64_be(id2) + sender2 + agent2 + i128_be(amount2),
            i128_be(fee2),
        );
        lemma_i128_be_injective(fee1, fee2);
        lemma_concat_split(u64_be(id1) + sender1 + agent1, i128_be(amount1), u64_be(id2) + sender2 + agent2, i128_be(amount2));
        lemma_i128_be_injective(amount1, amount2);
        lemma_concat_split(u64_be(id1) + sender1, agent1, u64_be(id2) + sender2, agent2);
        lemma_concat_split(u64_be(id1), sender1, u64_be(id2), sender2);
        lemma_u64_be_injective(id1, id2);
    }
}

} // verus!
