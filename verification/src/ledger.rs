//! The ledger: the authoritative store of networks, tokens, bridges,
//! transfer-status rows and transfers, with the three transactional
//! operations the coordinator builds on — `quote_transfer`,
//! `set_origin_hash` and `finalize`.
//!
//! Every row evolution is constrained by [`ledger_step`]: a transfer's
//! identity never changes, each transaction hash is written at most once,
//! and a terminal status is never left. `set_origin_hash` is the
//! single-writer lock: its conditional update succeeds at most once per
//! transfer.

use vstd::prelude::*;
use vstd::string::StringSliceAdditionalSpecFns;
use crate::amount::Amount;
use crate::error::BridgeError;

verus! {

/// A transfer's persisted lifecycle state.
#[derive(Clone, Copy, Debug, PartialEq, Eq, Structural)]
pub enum Status {
    Pending,
    Success,
    Fail,
}

/// What kind of asset a token row describes.
#[derive(Clone, Copy, Debug, PartialEq, Eq, Structural)]
pub enum AssetClass {
    Native,
    Erc20,
}

/// Maps the persisted asset-class code to the enumeration: `"0"` is the
/// native asset, `"1"` a token contract, anything else is unsupported.
pub fn asset_class_from_str(s: &str) -> (r: Result<AssetClass, BridgeError>)
    ensures
        r == Ok::<AssetClass, BridgeError>(AssetClass::Native) <==> s.spec_bytes() =~= seq![
            0x30u8,
        ],
        r == Ok::<AssetClass, BridgeError>(AssetClass::Erc20) <==> s.spec_bytes() =~= seq![
            0x31u8,
        ],
        r matches Err(e) ==> e == BridgeError::UnsupportedAsset,
{
    let b = s.as_bytes();
    if b.len() == 1 && b[0] == 0x30 {
        assert(s.spec_bytes() =~= seq![0x30u8]);
        Ok(AssetClass::Native)
    } else if b.len() == 1 && b[0] == 0x31 {
        assert(s.spec_bytes() =~= seq![0x31u8]);
        Ok(AssetClass::Erc20)
    } else {
        Err(BridgeError::UnsupportedAsset)
    }
}

/// A blockchain the bridge serves.
#[derive(Debug, Clone)]
pub struct Network {
    pub network_name: String,
    pub network_rpc: String,
    pub chain_id: u64,
    /// Decimals of the chain's native asset.
    pub decimal_value: u32,
    /// 20-byte bridge-owned account on this chain.
    pub bridge_address: Vec<u8>,
    /// Fee rate charged when this network is the destination.
    pub bridge_fee_rate: Amount,
    /// Minimum confirmation depth for deposits and releases on this chain.
    pub min_confirmations: u64,
}

/// A token the bridge moves, tied to its owning network.
#[derive(Debug, Clone)]
pub struct TokenAddress {
    pub network_id: usize,
    /// 20-byte contract address; `None` for the native asset.
    pub token_address: Option<Vec<u8>>,
    pub token_symbol: String,
    pub asset_type: AssetClass,
    /// Interface description, required for a token contract.
    pub abi_json: Option<String>,
}

/// A bridge endpoint row: the bridge-owned account on a destination
/// network and the fee rate it charges.
#[derive(Debug, Clone)]
pub struct Bridge {
    pub destination_network_id: usize,
    pub bridge_address: Vec<u8>,
    pub bridge_fee_rate: Amount,
}

/// One transfer's status row, with audit timestamps.
#[derive(Debug, Clone)]
pub struct TransactionStatus {
    pub status_name: Status,
    pub created_by: Option<u128>,
    pub created_at: u64,
    pub updated_at: u64,
}

/// A transfer row.
#[derive(Debug, Clone)]
pub struct Transaction {
    /// 20-byte depositor account on the origin chain.
    pub sender_address: Vec<u8>,
    /// 20-byte payout recipient on the destination chain.
    pub receiver_address: Vec<u8>,
    pub from_token_address: usize,
    pub to_token_address: usize,
    pub origin_network: usize,
    pub destin_network: usize,
    /// Base units of the from-token released on the destination side.
    pub transfer_amount: u128,
    /// Base units retained by the origin bridge.
    pub bridge_fee: u128,
    /// The transfer's status row.
    pub tx_status: usize,
    /// 32-byte deposit hash, set once on successful origin verification.
    pub origin_tx_hash: Option<Vec<u8>>,
    /// 32-byte release hash, set once after the destination broadcast.
    pub destin_tx_hash: Option<Vec<u8>>,
    pub created_by: u128,
    pub created_at: u64,
    pub updated_at: u64,
}

/// The fields of a transfer to be quoted.
#[derive(Debug, Clone)]
pub struct RequestInsertTx {
    pub sender_address: Vec<u8>,
    pub receiver_address: Vec<u8>,
    pub from_token_address: usize,
    pub to_token_address: usize,
    pub origin_network: usize,
    pub destin_network: usize,
    pub transfer_amount: u128,
    pub bridge_fee: u128,
    pub created_by: u128,
}

/// The durable store.
pub struct Ledger {
    pub networks: Vec<Network>,
    pub tokens: Vec<TokenAddress>,
    pub bridges: Vec<Bridge>,
    pub statuses: Vec<TransactionStatus>,
    pub transactions: Vec<Transaction>,
}

/// A network row is well-formed when its bridge account is a 20-byte
/// address.
pub open spec fn network_wf(n: Network) -> bool {
    n.bridge_address@.len() == 20
}

/// A token row is well-formed when it points into the network table, a
/// token contract comes with its address and interface, and the address is
/// 20 bytes.
pub open spec fn token_wf(t: TokenAddress, n_networks: nat) -> bool {
    &&& t.network_id < n_networks
    &&& (t.asset_type == AssetClass::Erc20 ==> t.token_address is Some && t.abi_json is Some)
    &&& (t.token_address matches Some(a) ==> a@.len() == 20)
}

impl Ledger {
    /// The current status of transfer `i`.
    pub open spec fn spec_status_of(self, i: int) -> Status {
        self.statuses@[self.transactions@[i].tx_status as int].status_name
    }

    /// A transfer row is well-formed: its references point into the other
    /// tables, its networks differ, its token rows live on its networks,
    /// its amount is positive, and its addresses and hashes have their
    /// wire sizes.
    pub open spec fn tx_wf(self, t: Transaction) -> bool {
        &&& t.origin_network < self.networks@.len()
        &&& t.destin_network < self.networks@.len()
        &&& t.origin_network != t.destin_network
        &&& t.from_token_address < self.tokens@.len()
        &&& t.to_token_address < self.tokens@.len()
        &&& self.tokens@[t.from_token_address as int].network_id == t.origin_network
        &&& self.tokens@[t.to_token_address as int].network_id == t.destin_network
        &&& t.tx_status < self.statuses@.len()
        &&& t.transfer_amount > 0
        &&& t.transfer_amount + t.bridge_fee <= u128::MAX
        &&& t.sender_address@.len() == 20
        &&& t.receiver_address@.len() == 20
        &&& (t.origin_tx_hash matches Some(h) ==> h@.len() == 32)
        &&& (t.destin_tx_hash matches Some(h) ==> h@.len() == 32)
    }

    /// The store invariant: every row is well-formed and every transfer
    /// owns its status row exclusively.
    pub open spec fn wf(self) -> bool {
        &&& forall|i: int|
            0 <= i < self.transactions@.len() ==> self.tx_wf(#[trigger] self.transactions@[i])
        &&& forall|i: int|
            0 <= i < self.tokens@.len() ==> token_wf(
                #[trigger] self.tokens@[i],
                self.networks@.len(),
            )
        &&& forall|i: int| 0 <= i < self.networks@.len() ==> network_wf(#[trigger] self.networks@[i])
        &&& forall|i: int, j: int|
            #![trigger self.transactions@[i], self.transactions@[j]]
            0 <= i < self.transactions@.len() && 0 <= j < self.transactions@.len() && i != j
                ==> self.transactions@[i].tx_status != self.transactions@[j].tx_status
    }

    /// Whether the conditional origin-hash update can succeed: the transfer
    /// exists, is pending, and has no origin hash yet. This is the
    /// single-writer lock of the broadcast pipeline.
    pub open spec fn spec_can_set_origin(self, id: int) -> bool {
        &&& 0 <= id < self.transactions@.len()
        &&& self.spec_status_of(id) == Status::Pending
        &&& self.transactions@[id].origin_tx_hash is None
    }

    /// Whether a transfer can still be finalized: it exists and is pending.
    pub open spec fn spec_can_finalize(self, id: int) -> bool {
        &&& 0 <= id < self.transactions@.len()
        &&& self.spec_status_of(id) == Status::Pending
    }
}

/// The fields of a transfer that never change once quoted.
pub open spec fn tx_same_identity(pre: Transaction, post: Transaction) -> bool {
    &&& post.sender_address@ == pre.sender_address@
    &&& post.receiver_address@ == pre.receiver_address@
    &&& post.from_token_address == pre.from_token_address
    &&& post.to_token_address == pre.to_token_address
    &&& post.origin_network == pre.origin_network
    &&& post.destin_network == pre.destin_network
    &&& post.transfer_amount == pre.transfer_amount
    &&& post.bridge_fee == pre.bridge_fee
    &&& post.tx_status == pre.tx_status
    &&& post.created_by == pre.created_by
    &&& post.created_at == pre.created_at
}

/// How one transfer may evolve under any ledger operation: its identity is
/// fixed, each hash is written at most once, and a terminal status is
/// never left.
pub open spec fn tx_evolves(
    pre: Transaction,
    post: Transaction,
    pre_status: Status,
    post_status: Status,
) -> bool {
    &&& tx_same_identity(pre, post)
    &&& (pre.origin_tx_hash is Some ==> post.origin_tx_hash == pre.origin_tx_hash)
    &&& (pre.destin_tx_hash is Some ==> post.destin_tx_hash == pre.destin_tx_hash)
    &&& (pre_status == Status::Success ==> post_status == Status::Success)
    &&& (pre_status == Status::Fail ==> post_status == Status::Fail)
}

/// The evolution relation every ledger operation respects: transfers are
/// only appended, and each existing transfer evolves by [`tx_evolves`].
pub open spec fn ledger_step(pre: Ledger, post: Ledger) -> bool {
    &&& pre.transactions@.len() <= post.transactions@.len()
    &&& forall|i: int|
        0 <= i < pre.transactions@.len() ==> tx_evolves(
            #[trigger] pre.transactions@[i],
            #[trigger] post.transactions@[i],
            pre.spec_status_of(i),
            post.spec_status_of(i),
        )
}

/// Statuses form the directed acyclic graph `PENDING -> {SUCCESS, FAIL}`:
/// under any sequence of ledger operations a transfer that has reached a
/// terminal status keeps it forever.
pub proof fn lemma_status_transitions_form_dag(pre: Ledger, post: Ledger, i: int)
    requires
        ledger_step(pre, post),
        0 <= i < pre.transactions@.len(),
        pre.spec_status_of(i) != Status::Pending,
    ensures
        post.spec_status_of(i) == pre.spec_status_of(i),
{
}

/// Transaction hashes are write-once: once an origin or destination hash
/// is set, no ledger operation changes it.
pub proof fn lemma_tx_hashes_write_once(pre: Ledger, post: Ledger, i: int)
    requires
        ledger_step(pre, post),
        0 <= i < pre.transactions@.len(),
    ensures
        pre.transactions@[i].origin_tx_hash is Some ==> post.transactions@[i].origin_tx_hash
            == pre.transactions@[i].origin_tx_hash,
        pre.transactions@[i].destin_tx_hash is Some ==> post.transactions@[i].destin_tx_hash
            == pre.transactions@[i].destin_tx_hash,
{
}

/// The evolution relation composes, so the two laws above hold across any
/// chain of ledger operations.
pub proof fn lemma_ledger_step_transitive(a: Ledger, b: Ledger, c: Ledger)
    requires
        ledger_step(a, b),
        ledger_step(b, c),
    ensures
        ledger_step(a, c),
{
    assert forall|i: int| 0 <= i < a.transactions@.len() implies tx_evolves(
        a.transactions@[i],
        c.transactions@[i],
        a.spec_status_of(i),
        c.spec_status_of(i),
    ) by {
        assert(tx_evolves(
            a.transactions@[i],
            b.transactions@[i],
            a.spec_status_of(i),
            b.spec_status_of(i),
        ));
        assert(tx_evolves(
            b.transactions@[i],
            c.transactions@[i],
            b.spec_status_of(i),
            c.spec_status_of(i),
        ));
    }
}

/// Every quoted transfer is valid: a positive amount, a non-negative fee,
/// and distinct origin and destination networks.
pub proof fn lemma_quoted_transfer_valid(l: Ledger, i: int)
    requires
        l.wf(),
        0 <= i < l.transactions@.len(),
    ensures
        l.transactions@[i].transfer_amount > 0,
        l.transactions@[i].bridge_fee >= 0,
        l.transactions@[i].origin_network != l.transactions@[i].destin_network,
{
}

/// The origin-hash lock latches: once the conditional update can no longer
/// succeed for a transfer, no ledger operation re-arms it. Together with
/// the exact success condition of `set_origin_hash` this gives the
/// single-writer guarantee: of any number of broadcast attempts on one
/// transfer, at most one passes the lock; every later one is refused.
pub proof fn lemma_set_origin_at_most_once(pre: Ledger, post: Ledger, id: int)
    requires
        ledger_step(pre, post),
        0 <= id < pre.transactions@.len(),
        !pre.spec_can_set_origin(id),
    ensures
        !post.spec_can_set_origin(id),
{
    assert(tx_evolves(
        pre.transactions@[id],
        post.transactions@[id],
        pre.spec_status_of(id),
        post.spec_status_of(id),
    ));
}

/// Replacing element `i` by removal and re-insertion is a point update.
proof fn lemma_remove_insert<T>(s: Seq<T>, i: int, x: T)
    requires
        0 <= i < s.len(),
    ensures
        s.remove(i).insert(i, x) =~= s.update(i, x),
{
}

impl Ledger {
    /// An empty store.
    pub fn new() -> (r: Ledger)
        ensures
            r.wf(),
            r.networks@.len() == 0,
            r.tokens@.len() == 0,
            r.bridges@.len() == 0,
            r.statuses@.len() == 0,
            r.transactions@.len() == 0,
    {
        Ledger {
            networks: Vec::new(),
            tokens: Vec::new(),
            bridges: Vec::new(),
            statuses: Vec::new(),
            transactions: Vec::new(),
        }
    }

    /// Adds a network row; returns its id.
    pub fn add_network(&mut self, n: Network) -> (id: usize)
        requires
            old(self).wf(),
            network_wf(n),
        ensures
            final(self).wf(),
            final(self).networks@ == old(self).networks@.push(n),
            final(self).tokens@ == old(self).tokens@,
            final(self).bridges@ == old(self).bridges@,
            final(self).statuses@ == old(self).statuses@,
            final(self).transactions@ == old(self).transactions@,
            id == old(self).networks@.len(),
            ledger_step(*old(self), *final(self)),
    {
        let id = self.networks.len();
        self.networks.push(n);
        id
    }

    /// Adds a token row; returns its id.
    pub fn add_token(&mut self, t: TokenAddress) -> (id: usize)
        requires
            old(self).wf(),
            token_wf(t, old(self).networks@.len()),
        ensures
            final(self).wf(),
            final(self).tokens@ == old(self).tokens@.push(t),
            final(self).networks@ == old(self).networks@,
            final(self).bridges@ == old(self).bridges@,
            final(self).statuses@ == old(self).statuses@,
            final(self).transactions@ == old(self).transactions@,
            id == old(self).tokens@.len(),
            ledger_step(*old(self), *final(self)),
    {
        let id = self.tokens.len();
        self.tokens.push(t);
        id
    }

    /// Adds a bridge row; returns its id.
    pub fn add_bridge(&mut self, b: Bridge) -> (id: usize)
        requires
            old(self).wf(),
            b.bridge_address@.len() == 20,
            b.destination_network_id < old(self).networks@.len(),
        ensures
            final(self).wf(),
            final(self).bridges@ == old(self).bridges@.push(b),
            final(self).networks@ == old(self).networks@,
            final(self).tokens@ == old(self).tokens@,
            final(self).statuses@ == old(self).statuses@,
            final(self).transactions@ == old(self).transactions@,
            id == old(self).bridges@.len(),
            ledger_step(*old(self), *final(self)),
    {
        let id = self.bridges.len();
        self.bridges.push(b);
        id
    }

    /// Quotes a transfer: inserts a pending status row and the transfer row
    /// referencing it, in one step. Returns the transfer id.
    pub fn quote_transfer(&mut self, req: RequestInsertTx, now: u64) -> (id: usize)
        requires
            old(self).wf(),
            req.origin_network < old(self).networks@.len(),
            req.destin_network < old(self).networks@.len(),
            req.origin_network != req.destin_network,
            req.from_token_address < old(self).tokens@.len(),
            req.to_token_address < old(self).tokens@.len(),
            old(self).tokens@[req.from_token_address as int].network_id == req.origin_network,
            old(self).tokens@[req.to_token_address as int].network_id == req.destin_network,
            req.transfer_amount > 0,
            req.transfer_amount + req.bridge_fee <= u128::MAX,
            req.sender_address@.len() == 20,
            req.receiver_address@.len() == 20,
        ensures
            final(self).wf(),
            ledger_step(*old(self), *final(self)),
            id == old(self).transactions@.len(),
            final(self).networks@ == old(self).networks@,
            final(self).tokens@ == old(self).tokens@,
            final(self).bridges@ == old(self).bridges@,
            final(self).statuses@.len() == old(self).statuses@.len() + 1,
            forall|i: int|
                0 <= i < old(self).statuses@.len() ==> final(self).statuses@[i] == old(self).statuses@[i],
            final(self).statuses@.last().status_name == Status::Pending,
            final(self).statuses@.last().created_by == Some(req.created_by),
            final(self).statuses@.last().created_at == now,
            final(self).transactions@.len() == old(self).transactions@.len() + 1,
            forall|i: int|
                0 <= i < old(self).transactions@.len() ==> final(self).transactions@[i] == old(self).transactions@[i],
            ({
                let t = final(self).transactions@.last();
                &&& t.sender_address@ == req.sender_address@
                &&& t.receiver_address@ == req.receiver_address@
                &&& t.from_token_address == req.from_token_address
                &&& t.to_token_address == req.to_token_address
                &&& t.origin_network == req.origin_network
                &&& t.destin_network == req.destin_network
                &&& t.transfer_amount == req.transfer_amount
                &&& t.bridge_fee == req.bridge_fee
                &&& t.created_by == req.created_by
                &&& t.tx_status == old(self).statuses@.len()
                &&& t.origin_tx_hash is None
                &&& t.destin_tx_hash is None
            }),
            final(self).spec_status_of(old(self).transactions@.len() as int) == Status::Pending,
    {
        let status_id = self.statuses.len();
        self.statuses.push(TransactionStatus {
            status_name: Status::Pending,
            created_by: Some(req.created_by),
            created_at: now,
            updated_at: now,
        });
        let id = self.transactions.len();
        self.transactions.push(Transaction {
            sender_address: req.sender_address,
            receiver_address: req.receiver_address,
            from_token_address: req.from_token_address,
            to_token_address: req.to_token_address,
            origin_network: req.origin_network,
            destin_network: req.destin_network,
            transfer_amount: req.transfer_amount,
            bridge_fee: req.bridge_fee,
            tx_status: status_id,
            origin_tx_hash: None,
            destin_tx_hash: None,
            created_by: req.created_by,
            created_at: now,
            updated_at: now,
        });
        proof {
            assert forall|i: int| 0 <= i < self.transactions@.len() implies self.tx_wf(
                #[trigger] self.transactions@[i],
            ) by {
                if i < old(self).transactions@.len() {
                    assert(old(self).tx_wf(old(self).transactions@[i]));
                }
            }
        }
        id
    }

    /// Looks a transfer up.
    pub fn get_transaction(&self, id: usize) -> (r: Result<&Transaction, BridgeError>)
        ensures
            r is Ok <==> id < self.transactions@.len(),
            r matches Ok(t) ==> *t == self.transactions@[id as int],
            r matches Err(e) ==> e == BridgeError::UnknownTransfer,
    {
        if id < self.transactions.len() {
            Ok(&self.transactions[id])
        } else {
            Err(BridgeError::UnknownTransfer)
        }
    }

    /// All transfers.
    pub fn get_all_tx(&self) -> (r: &Vec<Transaction>)
        ensures
            r@ == self.transactions@,
    {
        &self.transactions
    }

    /// Looks a network up.
    pub fn get_network_by_id(&self, id: usize) -> (r: Result<&Network, BridgeError>)
        ensures
            r is Ok <==> id < self.networks@.len(),
            r matches Ok(n) ==> *n == self.networks@[id as int],
            r matches Err(e) ==> e == BridgeError::UnknownNetwork,
    {
        if id < self.networks.len() {
            Ok(&self.networks[id])
        } else {
            Err(BridgeError::UnknownNetwork)
        }
    }

    /// All networks.
    pub fn get_all_networks(&self) -> (r: &Vec<Network>)
        ensures
            r@ == self.networks@,
    {
        &self.networks
    }

    /// Looks a token up.
    pub fn get_token_address_by_id(&self, id: usize) -> (r: Result<&TokenAddress, BridgeError>)
        ensures
            r is Ok <==> id < self.tokens@.len(),
            r matches Ok(t) ==> *t == self.tokens@[id as int],
            r matches Err(e) ==> e == BridgeError::UnknownToken,
    {
        if id < self.tokens.len() {
            Ok(&self.tokens[id])
        } else {
            Err(BridgeError::UnknownToken)
        }
    }

    /// The interface description of a token contract.
    pub fn get_token_abi_by_id(&self, id: usize) -> (r: Result<&String, BridgeError>)
        ensures
            r is Ok <==> (id < self.tokens@.len() && self.tokens@[id as int].abi_json is Some),
            r matches Ok(a) ==> Some(*a) == self.tokens@[id as int].abi_json,
            r matches Err(e) ==> e == BridgeError::UnknownToken,
    {
        if id < self.tokens.len() {
            match &self.tokens[id].abi_json {
                Some(a) => Ok(a),
                None => Err(BridgeError::UnknownToken),
            }
        } else {
            Err(BridgeError::UnknownToken)
        }
    }

    /// All tokens.
    pub fn get_all_token_address(&self) -> (r: &Vec<TokenAddress>)
        ensures
            r@ == self.tokens@,
    {
        &self.tokens
    }

    /// All bridge rows.
    pub fn get_all_bridge_info(&self) -> (r: &Vec<Bridge>)
        ensures
            r@ == self.bridges@,
    {
        &self.bridges
    }

    /// Looks a bridge row up.
    pub fn get_bridge_info(&self, id: usize) -> (r: Result<&Bridge, BridgeError>)
        ensures
            r is Ok <==> id < self.bridges@.len(),
            r matches Ok(b) ==> *b == self.bridges@[id as int],
            r matches Err(e) ==> e == BridgeError::UnknownNetwork,
    {
        if id < self.bridges.len() {
            Ok(&self.bridges[id])
        } else {
            Err(BridgeError::UnknownNetwork)
        }
    }

    /// Looks a status row up.
    pub fn get_transaction_status(&self, id: usize) -> (r: Result<&TransactionStatus, BridgeError>)
        ensures
            r is Ok <==> id < self.statuses@.len(),
            r matches Ok(s) ==> *s == self.statuses@[id as int],
            r matches Err(e) ==> e == BridgeError::LedgerError,
    {
        if id < self.statuses.len() {
            Ok(&self.statuses[id])
        } else {
            Err(BridgeError::LedgerError)
        }
    }

    /// All status rows.
    pub fn get_all_tx_status(&self) -> (r: &Vec<TransactionStatus>)
        ensures
            r@ == self.statuses@,
    {
        &self.statuses
    }

    /// The status row id of a transfer.
    pub fn get_tx_status(&self, id: usize) -> (r: Result<usize, BridgeError>)
        ensures
            r is Ok <==> id < self.transactions@.len(),
            r matches Ok(s) ==> s == self.transactions@[id as int].tx_status,
            r matches Err(e) ==> e == BridgeError::UnknownTransfer,
    {
        if id < self.transactions.len() {
            Ok(self.transactions[id].tx_status)
        } else {
            Err(BridgeError::UnknownTransfer)
        }
    }

    /// Changes a bridge row's fee rate.
    pub fn update_bridge_fee(&mut self, id: usize, bridge_fee_rate: Amount) -> (r: Result<
        (),
        BridgeError,
    >)
        requires
            old(self).wf(),
        ensures
            final(self).wf(),
            ledger_step(*old(self), *final(self)),
            r is Ok <==> id < old(self).bridges@.len(),
            r is Err ==> *final(self) == *old(self),
            r matches Err(e) ==> e == BridgeError::UnknownNetwork,
            r is Ok ==> {
                &&& final(self).networks@ == old(self).networks@
                &&& final(self).tokens@ == old(self).tokens@
                &&& final(self).statuses@ == old(self).statuses@
                &&& final(self).transactions@ == old(self).transactions@
                &&& final(self).bridges@.len() == old(self).bridges@.len()
                &&& forall|j: int|
                    0 <= j < old(self).bridges@.len() && j != id ==> final(self).bridges@[j]
                        == old(self).bridges@[j]
                &&& final(self).bridges@[id as int].bridge_fee_rate == bridge_fee_rate
                &&& final(self).bridges@[id as int].bridge_address@ == old(
                    self,
                ).bridges@[id as int].bridge_address@
                &&& final(self).bridges@[id as int].destination_network_id == old(
                    self,
                ).bridges@[id as int].destination_network_id
            },
    {
        if id >= self.bridges.len() {
            return Err(BridgeError::UnknownNetwork);
        }
        let mut row = self.bridges.remove(id);
        row.bridge_fee_rate = bridge_fee_rate;
        self.bridges.insert(id, row);
        proof {
            lemma_remove_insert(old(self).bridges@, id as int, self.bridges@[id as int]);
            assert(self.bridges@ =~= old(self).bridges@.update(
                id as int,
                self.bridges@[id as int],
            ));
        }
        Ok(())
    }

    /// Changes a bridge row's account address.
    pub fn update_bridge_address(&mut self, id: usize, new_address: Vec<u8>) -> (r: Result<
        (),
        BridgeError,
    >)
        requires
            old(self).wf(),
            new_address@.len() == 20,
        ensures
            final(self).wf(),
            ledger_step(*old(self), *final(self)),
            r is Ok <==> id < old(self).bridges@.len(),
            r is Err ==> *final(self) == *old(self),
            r matches Err(e) ==> e == BridgeError::UnknownNetwork,
            r is Ok ==> {
                &&& final(self).networks@ == old(self).networks@
                &&& final(self).tokens@ == old(self).tokens@
                &&& final(self).statuses@ == old(self).statuses@
                &&& final(self).transactions@ == old(self).transactions@
                &&& final(self).bridges@.len() == old(self).bridges@.len()
                &&& forall|j: int|
                    0 <= j < old(self).bridges@.len() && j != id ==> final(self).bridges@[j]
                        == old(self).bridges@[j]
                &&& final(self).bridges@[id as int].bridge_address@ == new_address@
                &&& final(self).bridges@[id as int].bridge_fee_rate == old(
                    self,
                ).bridges@[id as int].bridge_fee_rate
                &&& final(self).bridges@[id as int].destination_network_id == old(
                    self,
                ).bridges@[id as int].destination_network_id
            },
    {
        if id >= self.bridges.len() {
            return Err(BridgeError::UnknownNetwork);
        }
        let mut row = self.bridges.remove(id);
        row.bridge_address = new_address;
        self.bridges.insert(id, row);
        proof {
            lemma_remove_insert(old(self).bridges@, id as int, self.bridges@[id as int]);
            assert(self.bridges@ =~= old(self).bridges@.update(
                id as int,
                self.bridges@[id as int],
            ));
        }
        Ok(())
    }

    /// The conditional origin-hash update: records the verified deposit
    /// hash, succeeding exactly when the transfer exists, is pending, and
    /// has no origin hash yet. This is the single-writer lock.
    pub fn set_origin_hash(&mut self, id: usize, hash: Vec<u8>, now: u64) -> (r: Result<
        (),
        BridgeError,
    >)
        requires
            old(self).wf(),
            hash@.len() == 32,
        ensures
            final(self).wf(),
            ledger_step(*old(self), *final(self)),
            r is Ok <==> old(self).spec_can_set_origin(id as int),
            r is Err ==> *final(self) == *old(self),
            r matches Err(e) ==> (if id >= old(self).transactions@.len() {
                e == BridgeError::UnknownTransfer
            } else {
                e == BridgeError::IllegalTransition
            }),
            r is Ok ==> {
                &&& final(self).networks@ == old(self).networks@
                &&& final(self).tokens@ == old(self).tokens@
                &&& final(self).bridges@ == old(self).bridges@
                &&& final(self).statuses@ == old(self).statuses@
                &&& final(self).transactions@.len() == old(self).transactions@.len()
                &&& forall|j: int|
                    0 <= j < old(self).transactions@.len() && j != id ==> final(self).transactions@[j] == old(self).transactions@[j]
                &&& ({
                    let t = final(self).transactions@[id as int];
                    &&& t.origin_tx_hash matches Some(h) && h@ == hash@
                    &&& t.destin_tx_hash == old(self).transactions@[id as int].destin_tx_hash
                    &&& t.updated_at == now
                    &&& tx_same_identity(old(self).transactions@[id as int], t)
                })
                &&& !final(self).spec_can_set_origin(id as int)
            },
    {
        if id >= self.transactions.len() {
            return Err(BridgeError::UnknownTransfer);
        }
        let status_row = self.transactions[id].tx_status;
        let is_pending = match self.statuses[status_row].status_name {
            Status::Pending => true,
            _ => false,
        };
        if !is_pending || self.transactions[id].origin_tx_hash.is_some() {
            return Err(BridgeError::IllegalTransition);
        }
        let mut row = self.transactions.remove(id);
        row.origin_tx_hash = Some(hash);
        row.updated_at = now;
        self.transactions.insert(id, row);
        proof {
            lemma_remove_insert(
                old(self).transactions@,
                id as int,
                self.transactions@[id as int],
            );
            assert(self.transactions@ =~= old(self).transactions@.update(
                id as int,
                self.transactions@[id as int],
            ));
            assert forall|i: int| 0 <= i < self.transactions@.len() implies self.tx_wf(
                #[trigger] self.transactions@[i],
            ) by {
                assert(old(self).tx_wf(old(self).transactions@[i]));
            }
        }
        Ok(())
    }

    /// The atomic terminal transition: records the destination hash (when
    /// given and not yet set) and moves the status to a terminal value.
    /// Succeeds exactly when the transfer exists and is still pending.
    pub fn finalize(
        &mut self,
        id: usize,
        destination_hash: Option<Vec<u8>>,
        new_status: Status,
        now: u64,
    ) -> (r: Result<(), BridgeError>)
        requires
            old(self).wf(),
            new_status != Status::Pending,
            destination_hash matches Some(h) ==> h@.len() == 32,
        ensures
            final(self).wf(),
            ledger_step(*old(self), *final(self)),
            r is Ok <==> old(self).spec_can_finalize(id as int),
            r is Err ==> *final(self) == *old(self),
            r matches Err(e) ==> (if id >= old(self).transactions@.len() {
                e == BridgeError::UnknownTransfer
            } else {
                e == BridgeError::AlreadyFinalized
            }),
            r is Ok ==> {
                &&& final(self).networks@ == old(self).networks@
                &&& final(self).tokens@ == old(self).tokens@
                &&& final(self).bridges@ == old(self).bridges@
                &&& final(self).transactions@.len() == old(self).transactions@.len()
                &&& forall|j: int|
                    0 <= j < old(self).transactions@.len() && j != id ==> final(self).transactions@[j] == old(self).transactions@[j]
                &&& forall|j: int|
                    0 <= j < old(self).transactions@.len() && j != id ==> final(self).spec_status_of(j) == old(self).spec_status_of(j)
                &&& final(self).spec_status_of(id as int) == new_status
                &&& ({
                    let t = final(self).transactions@[id as int];
                    let pre = old(self).transactions@[id as int];
                    &&& tx_same_identity(pre, t)
                    &&& t.origin_tx_hash == pre.origin_tx_hash
                    &&& (match pre.destin_tx_hash {
                        Some(_) => t.destin_tx_hash == pre.destin_tx_hash,
                        None => t.destin_tx_hash == destination_hash,
                    })
                })
                &&& !final(self).spec_can_finalize(id as int)
            },
    {
        if id >= self.transactions.len() {
            return Err(BridgeError::UnknownTransfer);
        }
        let status_row = self.transactions[id].tx_status;
        let is_pending = match self.statuses[status_row].status_name {
            Status::Pending => true,
            _ => false,
        };
        if !is_pending {
            return Err(BridgeError::AlreadyFinalized);
        }
        let mut srow = self.statuses.remove(status_row);
        srow.status_name = new_status;
        srow.updated_at = now;
        self.statuses.insert(status_row, srow);
        proof {
            lemma_remove_insert(old(self).statuses@, status_row as int, self.statuses@[status_row as int]);
            assert(self.statuses@ =~= old(self).statuses@.update(
                status_row as int,
                self.statuses@[status_row as int],
            ));
        }
        if self.transactions[id].destin_tx_hash.is_none() {
            let ghost mid = *self;
            let mut row = self.transactions.remove(id);
            row.destin_tx_hash = destination_hash;
            row.updated_at = now;
            self.transactions.insert(id, row);
            proof {
                lemma_remove_insert(
                    mid.transactions@,
                    id as int,
                    self.transactions@[id as int],
                );
                assert(self.transactions@ =~= mid.transactions@.update(
                    id as int,
                    self.transactions@[id as int],
                ));
            }
        }
        proof {
            assert forall|i: int| 0 <= i < self.transactions@.len() implies self.tx_wf(
                #[trigger] self.transactions@[i],
            ) by {
                assert(old(self).tx_wf(old(self).transactions@[i]));
            }
        }
        Ok(())
    }
}

} // verus!
