//! Ethereum transaction envelopes and their wire encodings.
//!
//! Three envelope types are supported: legacy (type 0), access-list
//! (type 1) and dynamic-fee (type 2). The unsigned form of a legacy
//! envelope carries `[nonce, gas_price, gas, to, value, data, chain_id, 0, 0]`
//! for replay protection; typed envelopes carry a leading type byte and an
//! access list, and append `[v, r, s]` only once signed.

use vstd::prelude::*;
use crate::rlp::{
    rlp_append_bytes, rlp_append_uint, rlp_list, rlp_str, rlp_uint, rlp_wrap_list, push_all,
};

verus! {

/// Legacy envelope type id.
pub const LEGACY_TX_ID: u64 = 0;

/// Access-list envelope type id.
pub const ACCESSLISTS_TX_ID: u64 = 1;

/// Dynamic-fee envelope type id.
pub const EIP1559_TX_ID: u64 = 2;

/// One access-list entry: an address and the storage keys it touches.
#[derive(Debug, Clone)]
pub struct AccessItem {
    /// 20-byte account address.
    pub address: Vec<u8>,
    /// 32-byte storage keys.
    pub storage_keys: Vec<Vec<u8>>,
}

/// Mathematical view of an access-list entry.
#[verifier::ext_equal]
pub struct AccessItemV {
    pub address: Seq<u8>,
    pub storage_keys: Seq<Seq<u8>>,
}

impl View for AccessItem {
    type V = AccessItemV;

    open spec fn view(&self) -> AccessItemV {
        AccessItemV {
            address: self.address@,
            storage_keys: self.storage_keys@.map_values(|k: Vec<u8>| k@),
        }
    }
}

/// A transaction envelope ready for encoding and signing.
#[derive(Debug, Clone)]
pub struct TransactionParam {
    /// Recipient; `None` encodes as the empty string (contract creation).
    pub to: Option<Vec<u8>>,
    pub nonce: u128,
    pub gas: u128,
    /// Gas price for legacy and access-list envelopes; the max fee per gas
    /// for dynamic-fee envelopes.
    pub gas_price: u128,
    pub value: u128,
    pub data: Vec<u8>,
    /// Envelope type id; `None` means legacy.
    pub transaction_type: Option<u64>,
    pub access_list: Vec<AccessItem>,
    pub max_priority_fee_per_gas: u128,
}

/// Mathematical view of a transaction envelope.
#[verifier::ext_equal]
pub struct EnvelopeV {
    pub to: Option<Seq<u8>>,
    pub nonce: nat,
    pub gas: nat,
    pub gas_price: nat,
    pub value: nat,
    pub data: Seq<u8>,
    pub transaction_type: Option<u64>,
    pub access_list: Seq<AccessItemV>,
    pub max_priority_fee_per_gas: nat,
}

impl View for TransactionParam {
    type V = EnvelopeV;

    open spec fn view(&self) -> EnvelopeV {
        EnvelopeV {
            to: match self.to {
                Some(a) => Some(a@),
                None => None,
            },
            nonce: self.nonce as nat,
            gas: self.gas as nat,
            gas_price: self.gas_price as nat,
            value: self.value as nat,
            data: self.data@,
            transaction_type: self.transaction_type,
            access_list: self.access_list@.map_values(|it: AccessItem| it@),
            max_priority_fee_per_gas: self.max_priority_fee_per_gas as nat,
        }
    }
}

/// An ECDSA signature with its recovery value, as carried in a signed
/// envelope.
#[derive(Debug, Clone)]
pub struct Signature {
    pub v: u64,
    /// 32-byte big-endian `r`.
    pub r: Vec<u8>,
    /// 32-byte big-endian `s`.
    pub s: Vec<u8>,
}

/// Signature parts as specs speak of them: `v`, then the big-endian `r` and
/// `s` bytes.
pub type SigParts = (nat, Seq<u8>, Seq<u8>);

/// The signature parts carried by an optional reference.
pub open spec fn sig_parts_of(o: Option<&Signature>) -> Option<SigParts> {
    match o {
        Some(s) => Some(((s.v as nat, s.r@, s.s@))),
        None => None,
    }
}

/// `b` with its leading zero bytes removed: the minimal big-endian form of
/// the number `b` spells.
pub open spec fn spec_strip_zeros(b: Seq<u8>) -> Seq<u8>
    decreases b.len(),
{
    if b.len() == 0 {
        b
    } else if b[0] == 0 {
        spec_strip_zeros(b.drop_first())
    } else {
        b
    }
}

/// The three signature fields as appended to a signed envelope: `v` as an
/// integer, `r` and `s` as minimal big-endian integers.
pub open spec fn spec_sig_fields(sig: SigParts) -> Seq<u8> {
    rlp_uint(sig.0) + rlp_str(spec_strip_zeros(sig.1)) + rlp_str(spec_strip_zeros(sig.2))
}

/// The `to` field: the 20-byte address, or the empty string when absent.
pub open spec fn spec_to_field(to: Option<Seq<u8>>) -> Seq<u8> {
    match to {
        Some(a) => rlp_str(a),
        None => rlp_str(Seq::<u8>::empty()),
    }
}

/// The six fields shared by every envelope, in legacy order:
/// `nonce, gas_price, gas, to, value, data`.
pub open spec fn spec_legacy_fields(tx: EnvelopeV) -> Seq<u8> {
    rlp_uint(tx.nonce) + rlp_uint(tx.gas_price) + rlp_uint(tx.gas) + spec_to_field(tx.to)
        + rlp_uint(tx.value) + rlp_str(tx.data)
}

/// Concatenated encodings of a list of storage keys.
pub open spec fn spec_keys_payload(keys: Seq<Seq<u8>>) -> Seq<u8>
    decreases keys.len(),
{
    if keys.len() == 0 {
        Seq::<u8>::empty()
    } else {
        rlp_str(keys[0]) + spec_keys_payload(keys.drop_first())
    }
}

/// One access-list entry: the list `[address, [key, ...]]`.
pub open spec fn spec_access_item(it: AccessItemV) -> Seq<u8> {
    rlp_list(rlp_str(it.address) + rlp_list(spec_keys_payload(it.storage_keys)))
}

/// Concatenated encodings of the access-list entries.
pub open spec fn spec_access_list_payload(items: Seq<AccessItemV>) -> Seq<u8>
    decreases items.len(),
{
    if items.len() == 0 {
        Seq::<u8>::empty()
    } else {
        spec_access_item(items[0]) + spec_access_list_payload(items.drop_first())
    }
}

/// The signature fields of `sig` when present, replay-protection fields
/// `[chain_id, 0, 0]` otherwise.
pub open spec fn spec_legacy_tail(chain_id: u64, sig: Option<SigParts>) -> Seq<u8> {
    match sig {
        Some(s) => spec_sig_fields(s),
        None => rlp_uint(chain_id as nat) + rlp_uint(0) + rlp_uint(0),
    }
}

/// A legacy envelope: `[nonce, gas_price, gas, to, value, data]` followed by
/// either `[chain_id, 0, 0]` (unsigned) or `[v, r, s]` (signed).
pub open spec fn spec_encode_legacy(tx: EnvelopeV, chain_id: u64, sig: Option<SigParts>)
    -> Seq<u8> {
    rlp_list(spec_legacy_fields(tx) + spec_legacy_tail(chain_id, sig))
}

/// The signature fields when present, nothing otherwise (typed envelopes
/// carry no replay-protection placeholders).
pub open spec fn spec_typed_tail(sig: Option<SigParts>) -> Seq<u8> {
    match sig {
        Some(s) => spec_sig_fields(s),
        None => Seq::<u8>::empty(),
    }
}

/// The access-list envelope list (without its `0x01` prefix):
/// `[chain_id, nonce, gas_price, gas, to, value, data, access_list]`,
/// with `[v, r, s]` appended once signed.
pub open spec fn spec_access_list_body(tx: EnvelopeV, chain_id: u64, sig: Option<SigParts>)
    -> Seq<u8> {
    rlp_list(
        rlp_uint(chain_id as nat) + spec_legacy_fields(tx)
            + rlp_list(spec_access_list_payload(tx.access_list)) + spec_typed_tail(sig),
    )
}

/// The dynamic-fee envelope list (without its `0x02` prefix):
/// `[chain_id, nonce, max_priority_fee_per_gas, max_fee, gas, to, value,
/// data, access_list]`, with `[v, r, s]` appended once signed.
pub open spec fn spec_eip1559_body(tx: EnvelopeV, chain_id: u64, sig: Option<SigParts>)
    -> Seq<u8> {
    rlp_list(
        rlp_uint(chain_id as nat) + rlp_uint(tx.nonce) + rlp_uint(tx.max_priority_fee_per_gas)
            + rlp_uint(tx.gas_price) + rlp_uint(tx.gas) + spec_to_field(tx.to)
            + rlp_uint(tx.value) + rlp_str(tx.data)
            + rlp_list(spec_access_list_payload(tx.access_list)) + spec_typed_tail(sig),
    )
}

/// Whether the envelope type id is one of the three supported kinds.
pub open spec fn spec_tx_type_supported(tx: EnvelopeV) -> bool {
    tx.transaction_type is None || tx.transaction_type == Some(LEGACY_TX_ID)
        || tx.transaction_type == Some(ACCESSLISTS_TX_ID)
        || tx.transaction_type == Some(EIP1559_TX_ID)
}

/// Whether the envelope takes the legacy wire form.
pub open spec fn spec_is_legacy(tx: EnvelopeV) -> bool {
    tx.transaction_type is None || tx.transaction_type == Some(LEGACY_TX_ID)
}

/// The full wire bytes of an envelope: the legacy list, or the typed list
/// behind its type byte.
pub open spec fn spec_encode(tx: EnvelopeV, chain_id: u64, sig: Option<SigParts>) -> Seq<u8> {
    if spec_is_legacy(tx) {
        spec_encode_legacy(tx, chain_id, sig)
    } else if tx.transaction_type == Some(ACCESSLISTS_TX_ID) {
        seq![ACCESSLISTS_TX_ID as u8] + spec_access_list_body(tx, chain_id, sig)
    } else {
        seq![EIP1559_TX_ID as u8] + spec_eip1559_body(tx, chain_id, sig)
    }
}

/// Concatenation of byte sequences is associative.
proof fn lemma_concat_assoc(a: Seq<u8>, b: Seq<u8>, c: Seq<u8>)
    ensures
        (a + b) + c == a + (b + c),
{
    assert((a + b) + c =~= a + (b + c));
}

/// Removing a leading zero strips to the same minimal form.
proof fn lemma_strip_skip(b: Seq<u8>, i: int)
    requires
        0 <= i <= b.len(),
        forall|j: int| 0 <= j < i ==> b[j] == 0,
        i == b.len() || b[i] != 0,
    ensures
        spec_strip_zeros(b) == b.skip(i),
    decreases i,
{
    if i == 0 {
        assert(b.skip(0) =~= b);
    } else {
        assert(b.drop_first() =~= b.skip(1));
        lemma_strip_skip(b.drop_first(), i - 1);
        assert(b.drop_first().skip(i - 1) =~= b.skip(i));
    }
}

/// Leading zero bytes of `b` removed.
pub fn strip_leading_zeros(b: &[u8]) -> (r: &[u8])
    ensures
        r@ == spec_strip_zeros(b@),
{
    let mut i: usize = 0;
    while i < b.len() && b[i] == 0
        invariant
            i <= b@.len(),
            forall|j: int| 0 <= j < i ==> b@[j] == 0,
        decreases b@.len() - i,
    {
        i = i + 1;
    }
    proof {
        lemma_strip_skip(b@, i as int);
    }
    vstd::slice::slice_subrange(b, i, b.len())
}

/// Appends the signature fields `v, r, s` to `out`.
pub fn rlp_append_signature(out: &mut Vec<u8>, signature: &Signature)
    ensures
        final(out)@ == old(out)@ + spec_sig_fields((signature.v as nat, signature.r@, signature.s@)),
{
    let ghost s0 = old(out)@;
    rlp_append_uint(out, signature.v as u128);
    let ghost acc = rlp_uint(signature.v as nat);
    let r_min = strip_leading_zeros(signature.r.as_slice());
    rlp_append_bytes(out, r_min);
    proof {
        lemma_concat_assoc(s0, acc, rlp_str(spec_strip_zeros(signature.r@)));
    }
    let ghost acc = acc + rlp_str(spec_strip_zeros(signature.r@));
    let s_min = strip_leading_zeros(signature.s.as_slice());
    rlp_append_bytes(out, s_min);
    proof {
        lemma_concat_assoc(s0, acc, rlp_str(spec_strip_zeros(signature.s@)));
    }
}

/// Appends the six shared envelope fields in legacy order.
pub fn rlp_append_legacy(out: &mut Vec<u8>, tx: &TransactionParam)
    ensures
        final(out)@ == old(out)@ + spec_legacy_fields(tx@),
{
    let ghost s0 = old(out)@;
    rlp_append_uint(out, tx.nonce);
    let ghost acc = rlp_uint(tx.nonce as nat);
    rlp_append_uint(out, tx.gas_price);
    proof {
        lemma_concat_assoc(s0, acc, rlp_uint(tx.gas_price as nat));
    }
    let ghost acc = acc + rlp_uint(tx.gas_price as nat);
    rlp_append_uint(out, tx.gas);
    proof {
        lemma_concat_assoc(s0, acc, rlp_uint(tx.gas as nat));
    }
    let ghost acc = acc + rlp_uint(tx.gas as nat);
    match &tx.to {
        Some(a) => {
            rlp_append_bytes(out, a.as_slice());
        },
        None => {
            let empty: Vec<u8> = Vec::new();
            assert(empty@ =~= Seq::<u8>::empty());
            rlp_append_bytes(out, empty.as_slice());
        },
    }
    proof {
        lemma_concat_assoc(s0, acc, spec_to_field(tx@.to));
    }
    let ghost acc = acc + spec_to_field(tx@.to);
    rlp_append_uint(out, tx.value);
    proof {
        lemma_concat_assoc(s0, acc, rlp_uint(tx.value as nat));
    }
    let ghost acc = acc + rlp_uint(tx.value as nat);
    rlp_append_bytes(out, tx.data.as_slice());
    proof {
        lemma_concat_assoc(s0, acc, rlp_str(tx.data@));
    }
}

/// Appending one more key extends the concatenated key payload.
proof fn lemma_keys_payload_push(keys: Seq<Seq<u8>>, x: Seq<u8>)
    ensures
        spec_keys_payload(keys.push(x)) == spec_keys_payload(keys) + rlp_str(x),
    decreases keys.len(),
{
    let p = keys.push(x);
    if keys.len() == 0 {
        assert(p[0] == x);
        assert(p.drop_first() =~= Seq::<Seq<u8>>::empty());
        assert(spec_keys_payload(p) == rlp_str(x) + spec_keys_payload(p.drop_first()));
        assert(rlp_str(x) + Seq::<u8>::empty() =~= Seq::<u8>::empty() + rlp_str(x));
    } else {
        assert(p[0] == keys[0]);
        assert(p.drop_first() =~= keys.drop_first().push(x));
        lemma_keys_payload_push(keys.drop_first(), x);
        assert(rlp_str(keys[0]) + (spec_keys_payload(keys.drop_first()) + rlp_str(x)) =~= (
        rlp_str(keys[0]) + spec_keys_payload(keys.drop_first())) + rlp_str(x));
    }
}

/// Appending one more entry extends the concatenated access-list payload.
proof fn lemma_access_payload_push(items: Seq<AccessItemV>, x: AccessItemV)
    ensures
        spec_access_list_payload(items.push(x)) == spec_access_list_payload(items)
            + spec_access_item(x),
    decreases items.len(),
{
    let p = items.push(x);
    if items.len() == 0 {
        assert(p[0] == x);
        assert(p.drop_first() =~= Seq::<AccessItemV>::empty());
        assert(spec_access_list_payload(p) == spec_access_item(x) + spec_access_list_payload(
            p.drop_first(),
        ));
        assert(spec_access_item(x) + Seq::<u8>::empty() =~= Seq::<u8>::empty()
            + spec_access_item(x));
    } else {
        assert(p[0] == items[0]);
        assert(p.drop_first() =~= items.drop_first().push(x));
        lemma_access_payload_push(items.drop_first(), x);
        assert(spec_access_item(items[0]) + (spec_access_list_payload(items.drop_first())
            + spec_access_item(x)) =~= (spec_access_item(items[0]) + spec_access_list_payload(
            items.drop_first(),
        )) + spec_access_item(x));
    }
}

/// Appends the encoded access list of `tx` to `out`.
pub fn rlp_append_access_list(out: &mut Vec<u8>, tx: &TransactionParam)
    ensures
        final(out)@ == old(out)@ + rlp_list(spec_access_list_payload(tx@.access_list)),
{
    let ghost items = tx@.access_list;
    let mut payload: Vec<u8> = Vec::new();
    let n = tx.access_list.len();
    let mut i: usize = 0;
    while i < n
        invariant
            i <= n,
            n == tx.access_list@.len(),
            items == tx@.access_list,
            payload@ == spec_access_list_payload(items.take(i as int)),
        decreases n - i,
    {
        let it = &tx.access_list[i];
        assert(it@ == items[i as int]);
        let ghost keys = it@.storage_keys;
        let mut keys_payload: Vec<u8> = Vec::new();
        let m = it.storage_keys.len();
        let mut j: usize = 0;
        while j < m
            invariant
                j <= m,
                m == it.storage_keys@.len(),
                keys == it@.storage_keys,
                keys_payload@ == spec_keys_payload(keys.take(j as int)),
            decreases m - j,
        {
            rlp_append_bytes(&mut keys_payload, it.storage_keys[j].as_slice());
            proof {
                assert(keys[j as int] == it.storage_keys@[j as int]@);
                lemma_keys_payload_push(keys.take(j as int), keys[j as int]);
                assert(keys.take(j + 1) =~= keys.take(j as int).push(keys[j as int]));
            }
            j = j + 1;
        }
        assert(keys.take(m as int) =~= keys);
        let keys_list = rlp_wrap_list(keys_payload.as_slice());
        let mut item_payload: Vec<u8> = Vec::new();
        rlp_append_bytes(&mut item_payload, it.address.as_slice());
        push_all(&mut item_payload, keys_list.as_slice());
        let item = rlp_wrap_list(item_payload.as_slice());
        push_all(&mut payload, item.as_slice());
        proof {
            lemma_access_payload_push(items.take(i as int), items[i as int]);
            assert(items.take(i + 1) =~= items.take(i as int).push(items[i as int]));
        }
        i = i + 1;
    }
    assert(items.take(n as int) =~= items);
    let wrapped = rlp_wrap_list(payload.as_slice());
    push_all(out, wrapped.as_slice());
}

/// Encodes a legacy envelope, unsigned (with replay-protection fields) or
/// signed.
pub fn encode_legacy(tx: &TransactionParam, chain_id: u64, signature: Option<&Signature>)
    -> (r: Vec<u8>)
    ensures
        r@ == spec_encode_legacy(tx@, chain_id, sig_parts_of(signature)),
{
    let mut payload: Vec<u8> = Vec::new();
    rlp_append_legacy(&mut payload, tx);
    let ghost acc = spec_legacy_fields(tx@);
    match signature {
        Some(sig) => {
            rlp_append_signature(&mut payload, sig);
        },
        None => {
            rlp_append_uint(&mut payload, chain_id as u128);
            proof {
                lemma_concat_assoc(
                    Seq::<u8>::empty() + acc,
                    rlp_uint(chain_id as nat),
                    rlp_uint(0),
                );
            }
            rlp_append_uint(&mut payload, 0);
            proof {
                lemma_concat_assoc(
                    Seq::<u8>::empty() + acc,
                    rlp_uint(chain_id as nat) + rlp_uint(0),
                    rlp_uint(0),
                );
            }
            rlp_append_uint(&mut payload, 0);
        },
    }
    let ghost acc = acc + spec_legacy_tail(chain_id, sig_parts_of(signature));
    assert(payload@ =~= acc);
    rlp_wrap_list(payload.as_slice())
}

/// Encodes the access-list envelope body (the list behind the `0x01`
/// prefix).
pub fn encode_access_list_payload(
    tx: &TransactionParam,
    chain_id: u64,
    signature: Option<&Signature>,
) -> (r: Vec<u8>)
    ensures
        r@ == spec_access_list_body(tx@, chain_id, sig_parts_of(signature)),
{
    let mut payload: Vec<u8> = Vec::new();
    rlp_append_uint(&mut payload, chain_id as u128);
    let ghost acc = rlp_uint(chain_id as nat);
    rlp_append_legacy(&mut payload, tx);
    let ghost acc = acc + spec_legacy_fields(tx@);
    rlp_append_access_list(&mut payload, tx);
    let ghost acc = acc + rlp_list(spec_access_list_payload(tx@.access_list));
    match signature {
        Some(sig) => {
            rlp_append_signature(&mut payload, sig);
        },
        None => {},
    }
    let ghost acc = acc + spec_typed_tail(sig_parts_of(signature));
    assert(payload@ =~= acc);
    rlp_wrap_list(payload.as_slice())
}

/// Encodes the dynamic-fee envelope body (the list behind the `0x02`
/// prefix).
pub fn encode_eip1559_payload(
    tx: &TransactionParam,
    chain_id: u64,
    signature: Option<&Signature>,
) -> (r: Vec<u8>)
    ensures
        r@ == spec_eip1559_body(tx@, chain_id, sig_parts_of(signature)),
{
    let mut payload: Vec<u8> = Vec::new();
    let ghost s0 = Seq::<u8>::empty();
    rlp_append_uint(&mut payload, chain_id as u128);
    let ghost acc = rlp_uint(chain_id as nat);
    rlp_append_uint(&mut payload, tx.nonce);
    proof {
        lemma_concat_assoc(s0, acc, rlp_uint(tx.nonce as nat));
    }
    let ghost acc = acc + rlp_uint(tx.nonce as nat);
    rlp_append_uint(&mut payload, tx.max_priority_fee_per_gas);
    proof {
        lemma_concat_assoc(s0, acc, rlp_uint(tx.max_priority_fee_per_gas as nat));
    }
    let ghost acc = acc + rlp_uint(tx.max_priority_fee_per_gas as nat);
    rlp_append_uint(&mut payload, tx.gas_price);
    proof {
        lemma_concat_assoc(s0, acc, rlp_uint(tx.gas_price as nat));
    }
    let ghost acc = acc + rlp_uint(tx.gas_price as nat);
    rlp_append_uint(&mut payload, tx.gas);
    proof {
        lemma_concat_assoc(s0, acc, rlp_uint(tx.gas as nat));
    }
    let ghost acc = acc + rlp_uint(tx.gas as nat);
    match &tx.to {
        Some(a) => {
            rlp_append_bytes(&mut payload, a.as_slice());
        },
        None => {
            let empty: Vec<u8> = Vec::new();
            assert(empty@ =~= Seq::<u8>::empty());
            rlp_append_bytes(&mut payload, empty.as_slice());
        },
    }
    proof {
        lemma_concat_assoc(s0, acc, spec_to_field(tx@.to));
    }
    let ghost acc = acc + spec_to_field(tx@.to);
    rlp_append_uint(&mut payload, tx.value);
    proof {
        lemma_concat_assoc(s0, acc, rlp_uint(tx.value as nat));
    }
    let ghost acc = acc + rlp_uint(tx.value as nat);
    rlp_append_bytes(&mut payload, tx.data.as_slice());
    proof {
        lemma_concat_assoc(s0, acc, rlp_str(tx.data@));
    }
    let ghost acc = acc + rlp_str(tx.data@);
    rlp_append_access_list(&mut payload, tx);
    proof {
        lemma_concat_assoc(s0, acc, rlp_list(spec_access_list_payload(tx@.access_list)));
    }
    let ghost acc = acc + rlp_list(spec_access_list_payload(tx@.access_list));
    match signature {
        Some(sig) => {
            rlp_append_signature(&mut payload, sig);
            proof {
                lemma_concat_assoc(s0, acc, spec_sig_fields((sig.v as nat, sig.r@, sig.s@)));
            }
        },
        None => {},
    }
    let ghost acc = acc + spec_typed_tail(sig_parts_of(signature));
    assert(payload@ =~= acc);
    rlp_wrap_list(payload.as_slice())
}

/// Encodes an envelope to its full wire bytes, dispatching on the envelope
/// type and prefixing typed envelopes with their type byte.
pub fn encode(tx: &TransactionParam, chain_id: u64, signature: Option<&Signature>) -> (r: Vec<u8>)
    requires
        spec_tx_type_supported(tx@),
    ensures
        r@ == spec_encode(tx@, chain_id, sig_parts_of(signature)),
{
    let t = match tx.transaction_type {
        None => LEGACY_TX_ID,
        Some(t) => t,
    };
    if t == LEGACY_TX_ID {
        encode_legacy(tx, chain_id, signature)
    } else if t == ACCESSLISTS_TX_ID {
        let body = encode_access_list_payload(tx, chain_id, signature);
        let mut out: Vec<u8> = Vec::new();
        out.push(ACCESSLISTS_TX_ID as u8);
        push_all(&mut out, body.as_slice());
        assert(out@ =~= spec_encode(tx@, chain_id, sig_parts_of(signature)));
        out
    } else {
        let body = encode_eip1559_payload(tx, chain_id, signature);
        let mut out: Vec<u8> = Vec::new();
        out.push(EIP1559_TX_ID as u8);
        push_all(&mut out, body.as_slice());
        assert(out@ =~= spec_encode(tx@, chain_id, sig_parts_of(signature)));
        out
    }
}

} // verus!
