//! Block templates made of the answer to `getblocktemplate`.

use crate::block::{
    check_work, encode_compact_size, encode_header, encode_output, expand_target, read_block_hash,
    read_transaction, read_txid, read_wtxid, script_pushing, BlockHeader, DecodedTransaction,
    WorkFault,
};
use crate::encoding::{decode_hex, encode_hex, read_hex_number};
use crate::hashing::{extend_bytes, same_hash, sha256d};
use crate::merkle::{apply_merkle_path, coinbase_merkle_path, extend_nodes, merkle_root};
use crate::number::wrap_to_i64;
use crate::text::labelled;
use crate::work::TxOut;
use vstd::prelude::*;
use vstd::string::StringExecFns;

verus! {

/// The greatest weight of a block.
pub const MAX_BLOCK_WEIGHT: u64 = 4_000_000;

/// The least weight that is kept free for the coinbase.
pub const MIN_BLOCK_RESERVED_WEIGHT: u64 = 2_000;

/// The weight of a block header.
pub const HEADER_WEIGHT: u64 = 320;

/// The greatest length of a coinbase script.
pub const MAX_COINBASE_SCRIPT: usize = 100;

/// One transaction of the answer to `getblocktemplate`.
#[derive(Clone, Debug)]
pub struct GetBlockTemplateTransaction {
    /// The transaction in hexadecimal notation.
    pub data: String,
    pub txid: String,
    /// The witness transaction identifier.
    pub hash: String,
    pub weight: Option<u64>,
}

/// The answer to `getblocktemplate`.
#[derive(Clone, Debug)]
pub struct GetBlockTemplate {
    pub version: i32,
    pub previousblockhash: String,
    pub transactions: Vec<GetBlockTemplateTransaction>,
    /// Bytes in hexadecimal notation that the coinbase script has to hold.
    pub coinbase_flags: String,
    pub coinbasevalue: u64,
    pub longpollid: Option<String>,
    pub mintime: u32,
    pub curtime: u32,
    /// The target in compact form, in hexadecimal notation.
    pub bits: String,
    pub height: u64,
}

/// The weight of a transaction: the one that is given, or four for each byte, none if the
/// transaction is not hexadecimal. Weights beyond 64 bits count as the greatest number.
pub open spec fn weight_of(tx: GetBlockTemplateTransaction) -> int {
    match tx.weight {
        Some(weight) => weight as int,
        None => if crate::encoding::is_hex(tx.data@) {
            capped(4 * (tx.data@.len() as int / 2))
        } else {
            0
        },
    }
}

/// `n`, or the greatest 64-bit number if it is less.
pub open spec fn capped(n: int) -> int {
    if n > u64::MAX {
        u64::MAX as int
    } else {
        n
    }
}

/// The weight of all transactions together.
pub open spec fn total_weight(txs: Seq<GetBlockTemplateTransaction>) -> int
    decreases txs.len(),
{
    if txs.len() == 0 {
        0
    } else {
        total_weight(txs.drop_last()) + weight_of(txs.last())
    }
}

/// Whether a header and transactions stay within a budget.
pub open spec fn within_budget(txs: Seq<GetBlockTemplateTransaction>, budget: int) -> bool {
    capped(HEADER_WEIGHT + total_weight(txs)) <= budget
}

/// Whether `count` transactions are as many as the budget admits, taken from the front.
pub open spec fn is_selection(
    txs: Seq<GetBlockTemplateTransaction>,
    budget: int,
    count: int,
) -> bool {
    &&& 0 <= count <= txs.len()
    &&& count > 0 ==> within_budget(txs.take(count), budget)
    &&& count < txs.len() ==> !within_budget(txs.take(count + 1), budget)
}

/// How many transactions the budget admits, taken from the front.
pub open spec fn selected_count(txs: Seq<GetBlockTemplateTransaction>, budget: int) -> int {
    choose|count: int| is_selection(txs, budget, count)
}

/// A transaction weighs nothing less than zero, and more of them weigh no less.
proof fn lemma_weight_grows(txs: Seq<GetBlockTemplateTransaction>, fewer: int, more: int)
    requires
        0 <= fewer <= more <= txs.len(),
    ensures
        0 <= total_weight(txs.take(fewer)) <= total_weight(txs.take(more)),
    decreases more,
{
    if fewer < more {
        lemma_weight_grows(txs, fewer, more - 1);
        assert(txs.take(more).drop_last() =~= txs.take(more - 1));
    } else if more > 0 {
        lemma_weight_grows(txs, more - 1, more - 1);
        assert(txs.take(more).drop_last() =~= txs.take(more - 1));
    }
}

/// There is only one selection.
pub proof fn selection_is_unique(
    txs: Seq<GetBlockTemplateTransaction>,
    budget: int,
    count: int,
)
    requires
        is_selection(txs, budget, count),
    ensures
        selected_count(txs, budget) == count,
{
    let other = selected_count(txs, budget);
    if other < count {
        lemma_weight_grows(txs, other + 1, count);
    }
    if count < other {
        lemma_weight_grows(txs, count + 1, other);
    }
}

/// Transactions are left out only where not all of them fit.
pub proof fn transactions_are_left_out_only_when_needed(
    txs: Seq<GetBlockTemplateTransaction>,
    budget: int,
    count: int,
)
    requires
        is_selection(txs, budget, count),
    ensures
        within_budget(txs, budget) ==> count == txs.len(),
{
    if within_budget(txs, budget) && count < txs.len() {
        lemma_weight_grows(txs, count + 1, txs.len() as int);
        assert(txs.take(txs.len() as int) =~= txs);
    }
}

/// How many transactions are kept, from the front, so that they fit the budget with the header.
pub fn select_transaction_prefix(
    transactions: &[GetBlockTemplateTransaction],
    budget: u64,
) -> (count: usize)
    ensures
        is_selection(transactions@, budget as int, count as int),
        count == selected_count(transactions@, budget as int),
{
    let mut used: u64 = HEADER_WEIGHT;
    let mut index: usize = 0;
    assert(transactions@.take(0) =~= Seq::<GetBlockTemplateTransaction>::empty());
    while index < transactions.len()
        invariant
            index <= transactions@.len(),
            used == capped(HEADER_WEIGHT + total_weight(transactions@.take(index as int))),
            index > 0 ==> within_budget(transactions@.take(index as int), budget as int),
            total_weight(transactions@.take(index as int)) >= 0,
        decreases transactions@.len() - index,
    {
        let weight = transaction_weight(&transactions[index]);
        proof {
            assert(transactions@.take(index + 1).drop_last() =~= transactions@.take(index as int));
            lemma_weight_grows(transactions@, index as int, index + 1);
        }
        let sum = used.saturating_add(weight);
        if sum > budget {
            proof {
                selection_is_unique(transactions@, budget as int, index as int);
            }
            return index;
        }
        used = sum;
        index = index + 1;
    }
    proof {
        selection_is_unique(transactions@, budget as int, index as int);
    }
    index
}

/// The weight of a transaction.
fn transaction_weight(tx: &GetBlockTemplateTransaction) -> (weight: u64)
    ensures
        weight == weight_of(*tx),
{
    match tx.weight {
        Some(weight) => weight,
        None => match decode_hex(tx.data.as_str()) {
            Ok(bytes) => {
                let len = bytes.len() as u64;
                match len.checked_mul(4) {
                    Some(weight) => weight,
                    None => u64::MAX,
                }
            },
            Err(_) => 0,
        },
    }
}

/// The script of the output that commits to the witnesses of a block: a standard prefix and the
/// double SHA-256 digest of the witness root and 32 zero bytes. The coinbase itself counts with
/// zero bytes in the tree.
pub open spec fn commitment_script(wtxids: Seq<Seq<u8>>) -> Seq<u8> {
    seq![0x6au8, 0x24u8, 0xaau8, 0x21u8, 0xa9u8, 0xedu8] + crate::hashing::sha256d_digest(
        crate::merkle::tree_root(seq![crate::merkle::zero_node()] + wtxids)
            + crate::merkle::zero_node(),
    )
}

/// The output that commits to the witnesses of a block; it is worth nothing.
pub fn witness_commitment_output(wtxids: &[[u8; 32]]) -> (output: TxOut)
    ensures
        output@ == (crate::work::Output {
            value: 0,
            script: commitment_script(crate::merkle::node_bytes(wtxids@)),
        }),
{
    let mut leaves: Vec<[u8; 32]> = Vec::new();
    let zeros = [0u8; 32];
    leaves.push(zeros);
    extend_nodes(&mut leaves, wtxids);
    assert(zeros@ =~= crate::merkle::zero_node());
    assert(crate::merkle::node_bytes(leaves@) =~= seq![crate::merkle::zero_node()]
        + crate::merkle::node_bytes(wtxids@));
    let root = merkle_root(leaves);
    let mut preimage: Vec<u8> = Vec::new();
    extend_bytes(&mut preimage, &root);
    extend_bytes(&mut preimage, &zeros);
    assert(preimage@ =~= root@ + zeros@);
    let commitment = sha256d(preimage.as_slice());
    let mut script: Vec<u8> = Vec::new();
    script.push(0x6a);
    script.push(0x24);
    script.push(0xaa);
    script.push(0x21);
    script.push(0xa9);
    script.push(0xed);
    extend_bytes(&mut script, &commitment);
    assert(script@ =~= commitment_script(crate::merkle::node_bytes(wtxids@)));
    TxOut { value: 0, script_pubkey: script }
}

/// What is wrong with a transaction of a template, when reading its bytes came out as `fault`
/// and its identifier as `txid`.
pub open spec fn reading_complaint(
    tx: GetBlockTemplateTransaction,
    fault: Option<Seq<char>>,
    txid: Seq<u8>,
    wtxid: Seq<u8>,
) -> Option<Seq<char>> {
    match fault {
        Some(message) => Some("invalid GBT transaction: "@ + message),
        None => if !crate::block::is_hash_text(tx.txid@) {
            Some("invalid GBT txid: "@ + crate::block::txid_error(tx.txid@))
        } else if !crate::block::is_hash_text(tx.hash@) {
            Some("invalid GBT wtxid: "@ + crate::block::wtxid_error(tx.hash@))
        } else if txid != crate::block::hash_of_text(tx.txid@) || wtxid
            != crate::block::hash_of_text(tx.hash@) {
            Some("GBT transaction "@ + tx.txid@ + " hash mismatch"@)
        } else {
            None
        },
    }
}

/// What is wrong with a transaction of a template.
pub open spec fn transaction_complaint(tx: GetBlockTemplateTransaction) -> Option<Seq<char>> {
    let bytes = crate::encoding::hex_bytes(tx.data@);
    if !crate::encoding::is_hex(tx.data@) {
        Some("invalid GBT transaction hex: "@ + crate::encoding::hex_error(tx.data@))
    } else {
        reading_complaint(
            tx,
            crate::block::transaction_fault(bytes),
            crate::block::transaction_id(bytes),
            crate::hashing::sha256d_digest(bytes),
        )
    }
}

/// The first complaint about transactions, from the front.
pub open spec fn first_complaint(txs: Seq<GetBlockTemplateTransaction>) -> Option<Seq<char>>
    decreases txs.len(),
{
    if txs.len() == 0 {
        None
    } else if first_complaint(txs.drop_last()) is Some {
        first_complaint(txs.drop_last())
    } else {
        transaction_complaint(txs.last())
    }
}

/// Holds a transaction that was read against what the template says of it.
pub fn admit_transaction(
    tx: &GetBlockTemplateTransaction,
    read: Result<DecodedTransaction, String>,
) -> (admitted: Result<DecodedTransaction, String>)
    ensures
        ({
            let complaint = match read {
                Ok(t) => reading_complaint(*tx, None, t.txid@, t.wtxid@),
                Err(message) => Some("invalid GBT transaction: "@ + message@),
            };
            match admitted {
                Ok(t) => complaint is None && read == Ok::<DecodedTransaction, String>(t),
                Err(message) => complaint == Some(message@),
            }
        }),
{
    let transaction = match read {
        Ok(transaction) => transaction,
        Err(reason) => return Err(labelled("invalid GBT transaction: ", reason.as_str())),
    };
    let txid = match read_txid(tx.txid.as_str()) {
        Ok(txid) => txid,
        Err(reason) => return Err(labelled("invalid GBT txid: ", reason.as_str())),
    };
    let wtxid = match read_wtxid(tx.hash.as_str()) {
        Ok(wtxid) => wtxid,
        Err(reason) => return Err(labelled("invalid GBT wtxid: ", reason.as_str())),
    };
    if !same_hash(&transaction.txid, &txid) || !same_hash(&transaction.wtxid, &wtxid) {
        let mut message = labelled("GBT transaction ", tx.txid.as_str());
        message.append(" hash mismatch");
        return Err(message);
    }
    Ok(transaction)
}

/// The bytes of transactions.
pub open spec fn all_bytes(transactions: Seq<Vec<u8>>) -> Seq<Seq<u8>> {
    transactions.map_values(|bytes: Vec<u8>| bytes@)
}

/// The identifiers of transactions.
pub open spec fn all_txids(transactions: Seq<Seq<u8>>) -> Seq<Seq<u8>> {
    transactions.map_values(|bytes: Seq<u8>| crate::block::transaction_id(bytes))
}

/// The witness identifiers of transactions.
pub open spec fn all_wtxids(transactions: Seq<Seq<u8>>) -> Seq<Seq<u8>> {
    transactions.map_values(|bytes: Seq<u8>| crate::hashing::sha256d_digest(bytes))
}

/// The transactions that the data of a template hold.
pub open spec fn all_data(txs: Seq<GetBlockTemplateTransaction>) -> Seq<Seq<u8>> {
    txs.map_values(|tx: GetBlockTemplateTransaction| crate::encoding::hex_bytes(tx.data@))
}

/// A template to mine on.
#[derive(Clone, Debug)]
pub struct RpcTemplate {
    pub id: u64,
    pub prev_hash: [u8; 32],
    pub version: u32,
    pub curtime: u32,
    pub mintime: u32,
    /// The target in compact form.
    pub bits: u32,
    /// The target, the lowest byte first.
    pub target: [u8; 32],
    pub coinbase_prefix: Vec<u8>,
    pub coinbase_value: u64,
    /// Outputs that every coinbase has to have.
    pub required_outputs: Vec<TxOut>,
    /// The transactions behind the coinbase.
    pub transaction_bytes: Vec<Vec<u8>>,
    /// The Merkle path of the coinbase.
    pub merkle_path: Vec<[u8; 32]>,
}

/// An [`RpcTemplate`] with its bytes as sequences.
pub ghost struct Template {
    pub id: u64,
    pub prev_hash: Seq<u8>,
    pub version: u32,
    pub curtime: u32,
    pub mintime: u32,
    pub bits: u32,
    pub target: Seq<u8>,
    pub coinbase_prefix: Seq<u8>,
    pub coinbase_value: u64,
    pub required_outputs: Seq<crate::work::Output>,
    pub transactions: Seq<Seq<u8>>,
    pub merkle_path: Seq<Seq<u8>>,
}

impl View for RpcTemplate {
    type V = Template;

    open spec fn view(&self) -> Template {
        Template {
            id: self.id,
            prev_hash: self.prev_hash@,
            version: self.version,
            curtime: self.curtime,
            mintime: self.mintime,
            bits: self.bits,
            target: self.target@,
            coinbase_prefix: self.coinbase_prefix@,
            coinbase_value: self.coinbase_value,
            required_outputs: crate::work::outputs_of(self.required_outputs@),
            transactions: all_bytes(self.transaction_bytes@),
            merkle_path: crate::merkle::node_bytes(self.merkle_path@),
        }
    }
}

impl Template {
    /// Whether the template is consistent: its target is that of its bits, its Merkle path is
    /// that of a coinbase in front of its transactions, the one output it requires commits to
    /// their witnesses, and the coinbase script it starts is not too long.
    pub open spec fn wf(self) -> bool {
        &&& self.target == crate::block::target_bytes(self.bits)
        &&& self.merkle_path == crate::merkle::coinbase_path(all_txids(self.transactions))
        &&& self.required_outputs == seq![
            crate::work::Output { value: 0, script: commitment_script(all_wtxids(self.transactions)) },
        ]
        &&& self.coinbase_prefix.len() <= MAX_COINBASE_SCRIPT
    }
}

/// The weight that transactions may take when the coinbase may need `additional` bytes more.
pub open spec fn transaction_budget(additional: u32) -> int {
    let reserved = if 4 * additional < MIN_BLOCK_RESERVED_WEIGHT {
        MIN_BLOCK_RESERVED_WEIGHT as int
    } else {
        4 * additional
    };
    if reserved > MAX_BLOCK_WEIGHT {
        0
    } else {
        MAX_BLOCK_WEIGHT - reserved
    }
}

/// The transactions of an answer that are mined.
pub open spec fn kept_transactions(gbt: GetBlockTemplate, additional: u32) -> Seq<
    GetBlockTemplateTransaction,
> {
    gbt.transactions@.take(selected_count(gbt.transactions@, transaction_budget(additional)))
}

/// What the coinbase script starts with: the height of the block and the flags of the node.
pub open spec fn script_prefix(gbt: GetBlockTemplate) -> Seq<u8> {
    crate::block::push_number(crate::number::wrapped(gbt.height as int))
        + crate::encoding::hex_bytes(gbt.coinbase_flags@)
}

/// Why an answer gives no template.
pub open spec fn template_complaint(gbt: GetBlockTemplate, additional: u32) -> Option<Seq<char>> {
    if !crate::block::is_hash_text(gbt.previousblockhash@) {
        Some(
            "invalid GBT previousblockhash: "@ + crate::block::block_hash_error(
                gbt.previousblockhash@,
            ),
        )
    } else if !crate::encoding::is_hex_number(gbt.bits@) {
        Some("invalid GBT bits: "@ + crate::encoding::hex_number_error(gbt.bits@))
    } else if first_complaint(kept_transactions(gbt, additional)) is Some {
        first_complaint(kept_transactions(gbt, additional))
    } else if !crate::encoding::is_hex(gbt.coinbase_flags@) {
        Some("invalid GBT coinbaseaux.flags: "@ + crate::encoding::hex_error(gbt.coinbase_flags@))
    } else if script_prefix(gbt).len() > MAX_COINBASE_SCRIPT {
        Some("GBT coinbase script prefix exceeds consensus limit"@)
    } else {
        None
    }
}

/// `n` as an unsigned number with the same 32 bits.
pub open spec fn unsigned_bits(n: i32) -> u32 {
    if n >= 0 {
        n as u32
    } else {
        (n + 0x1_0000_0000) as u32
    }
}

/// The template that an answer gives.
pub open spec fn built_template(id: u64, gbt: GetBlockTemplate, additional: u32) -> Template {
    let bits = crate::encoding::digits_value(crate::encoding::number_digits(gbt.bits@)) as u32;
    let transactions = all_data(kept_transactions(gbt, additional));
    Template {
        id,
        prev_hash: crate::block::hash_of_text(gbt.previousblockhash@),
        version: unsigned_bits(gbt.version),
        curtime: gbt.curtime,
        mintime: gbt.mintime,
        bits,
        target: crate::block::target_bytes(bits),
        coinbase_prefix: script_prefix(gbt),
        coinbase_value: gbt.coinbasevalue,
        required_outputs: seq![
            crate::work::Output { value: 0, script: commitment_script(all_wtxids(transactions)) },
        ],
        transactions,
        merkle_path: crate::merkle::coinbase_path(all_txids(transactions)),
    }
}

/// The transactions of a template and their identifiers.
struct ReadTransactions {
    bytes: Vec<Vec<u8>>,
    txids: Vec<[u8; 32]>,
    wtxids: Vec<[u8; 32]>,
}

/// Reads the first `count` transactions of a template.
fn read_transactions(transactions: &Vec<GetBlockTemplateTransaction>, count: usize) -> (read:
    Result<ReadTransactions, String>)
    requires
        count <= transactions@.len(),
    ensures
        match read {
            Ok(r) => {
                let data = all_data(transactions@.take(count as int));
                &&& first_complaint(transactions@.take(count as int)) is None
                &&& all_bytes(r.bytes@) == data
                &&& crate::merkle::node_bytes(r.txids@) == all_txids(data)
                &&& crate::merkle::node_bytes(r.wtxids@) == all_wtxids(data)
            },
            Err(message) => first_complaint(transactions@.take(count as int)) == Some(message@),
        },
{
    let mut bytes: Vec<Vec<u8>> = Vec::new();
    let mut txids: Vec<[u8; 32]> = Vec::new();
    let mut wtxids: Vec<[u8; 32]> = Vec::new();
    let mut i: usize = 0;
    let ghost kept = transactions@.take(count as int);
    assert(kept.take(0) =~= Seq::<GetBlockTemplateTransaction>::empty());
    while i < count
        invariant
            i <= count <= transactions@.len(),
            kept == transactions@.take(count as int),
            first_complaint(kept.take(i as int)) is None,
            bytes@.len() == i,
            txids@.len() == i,
            wtxids@.len() == i,
            forall|k: int|
                0 <= k < i ==> (#[trigger] bytes@[k])@ == crate::encoding::hex_bytes(kept[k].data@),
            forall|k: int|
                0 <= k < i ==> (#[trigger] txids@[k])@ == crate::block::transaction_id(
                    crate::encoding::hex_bytes(kept[k].data@),
                ),
            forall|k: int|
                0 <= k < i ==> (#[trigger] wtxids@[k])@ == crate::hashing::sha256d_digest(
                    crate::encoding::hex_bytes(kept[k].data@),
                ),
        decreases count - i,
    {
        let tx = &transactions[i];
        proof {
            assert(kept[i as int] == *tx);
            assert(kept.take(i + 1).drop_last() =~= kept.take(i as int));
        }
        let data = match decode_hex(tx.data.as_str()) {
            Ok(data) => data,
            Err(reason) => {
                proof {
                    lemma_first_complaint(kept, i as int);
                }
                return Err(labelled("invalid GBT transaction hex: ", reason.as_str()));
            },
        };
        let read = read_transaction(data.as_slice());
        match admit_transaction(tx, read) {
            Ok(transaction) => {
                bytes.push(transaction.encoding);
                txids.push(transaction.txid);
                wtxids.push(transaction.wtxid);
            },
            Err(message) => {
                proof {
                    lemma_first_complaint(kept, i as int);
                }
                return Err(message);
            },
        }
        i = i + 1;
    }
    proof {
        let data = all_data(kept);
        assert(kept.take(i as int) =~= kept);
        assert(all_bytes(bytes@) =~= data);
        assert(crate::merkle::node_bytes(txids@) =~= all_txids(data));
        assert(crate::merkle::node_bytes(wtxids@) =~= all_wtxids(data));
    }
    Ok(ReadTransactions { bytes, txids, wtxids })
}

/// The first complaint is that about the first transaction that has one.
proof fn lemma_first_complaint(txs: Seq<GetBlockTemplateTransaction>, at: int)
    requires
        0 <= at < txs.len(),
        first_complaint(txs.take(at)) is None,
        transaction_complaint(txs[at]) is Some,
    ensures
        first_complaint(txs) == transaction_complaint(txs[at]),
    decreases txs.len(),
{
    assert(txs.take(at + 1).drop_last() =~= txs.take(at));
    if at + 1 == txs.len() {
        assert(txs.take(at + 1) =~= txs);
    } else {
        assert(txs.drop_last().take(at) =~= txs.take(at));
        lemma_first_complaint(txs.drop_last(), at);
    }
}

/// What the coinbase script starts with.
fn coinbase_script_prefix(gbt: &GetBlockTemplate) -> (prefix: Result<Vec<u8>, String>)
    requires
        gbt.height != 0x8000_0000_0000_0000,
    ensures
        match prefix {
            Ok(p) => crate::encoding::is_hex(gbt.coinbase_flags@) && p@ == script_prefix(*gbt)
                && p@.len() <= MAX_COINBASE_SCRIPT,
            Err(message) => if !crate::encoding::is_hex(gbt.coinbase_flags@) {
                message@ == "invalid GBT coinbaseaux.flags: "@ + crate::encoding::hex_error(
                    gbt.coinbase_flags@,
                )
            } else {
                script_prefix(*gbt).len() > MAX_COINBASE_SCRIPT && message@
                    == "GBT coinbase script prefix exceeds consensus limit"@
            },
        },
{
    let mut prefix = script_pushing(wrap_to_i64(gbt.height as u128));
    match decode_hex(gbt.coinbase_flags.as_str()) {
        Ok(flags) => {
            extend_bytes(&mut prefix, flags.as_slice());
        },
        Err(reason) => {
            return Err(labelled("invalid GBT coinbaseaux.flags: ", reason.as_str()));
        },
    }
    assert(prefix@ =~= script_prefix(*gbt));
    if prefix.len() > MAX_COINBASE_SCRIPT {
        return Err("GBT coinbase script prefix exceeds consensus limit".to_owned());
    }
    Ok(prefix)
}

/// The solution of a template that the pool found.
#[derive(Clone, Debug)]
pub struct SubmitSolution {
    pub template_id: u64,
    pub version: u32,
    pub header_timestamp: u32,
    pub header_nonce: u32,
    pub coinbase_tx: Vec<u8>,
}

/// A block that was solved.
#[derive(Clone, Debug)]
pub struct SolvedBlock {
    pub header: BlockHeader,
    /// The transactions, the coinbase first.
    pub transactions: Vec<Vec<u8>>,
}

/// A [`SolvedBlock`] with its bytes as sequences.
pub ghost struct Solved {
    pub header: crate::block::HeaderFields,
    pub transactions: Seq<Seq<u8>>,
}

impl View for SolvedBlock {
    type V = Solved;

    open spec fn view(&self) -> Solved {
        Solved { header: self.header@, transactions: all_bytes(self.transactions@) }
    }
}

/// Byte strings one behind the other.
pub open spec fn concatenated(parts: Seq<Seq<u8>>) -> Seq<u8>
    decreases parts.len(),
{
    if parts.len() == 0 {
        Seq::empty()
    } else {
        concatenated(parts.drop_last()) + parts.last()
    }
}

/// The bytes of a block: its header, the number of its transactions, and the transactions.
pub open spec fn block_bytes(block: Solved) -> Seq<u8> {
    crate::block::header_bytes(block.header) + crate::encoding::compact_size(
        block.transactions.len(),
    ) + concatenated(block.transactions)
}

impl SolvedBlock {
    /// The block in hexadecimal notation, as `submitblock` takes it.
    pub fn to_hex(&self) -> (text: String)
        ensures
            text@ == crate::encoding::hex_text(block_bytes(self@)),
    {
        let mut bytes = encode_header(&self.header);
        extend_bytes(&mut bytes, encode_compact_size(self.transactions.len() as u64).as_slice());
        let ghost front = bytes@;
        let ghost parts = all_bytes(self.transactions@);
        let mut i: usize = 0;
        assert(parts.take(0) =~= Seq::<Seq<u8>>::empty());
        assert(bytes@ =~= front + concatenated(parts.take(0)));
        while i < self.transactions.len()
            invariant
                i <= self.transactions@.len(),
                parts == all_bytes(self.transactions@),
                bytes@ == front + concatenated(parts.take(i as int)),
            decreases self.transactions@.len() - i,
        {
            extend_bytes(&mut bytes, self.transactions[i].as_slice());
            assert(parts.take(i + 1).drop_last() =~= parts.take(i as int));
            assert(bytes@ =~= front + concatenated(parts.take(i + 1)));
            i = i + 1;
        }
        assert(parts.take(i as int) =~= parts);
        assert(bytes@ =~= block_bytes(self@));
        encode_hex(bytes.as_slice())
    }
}

/// The header of a solution whose coinbase has the identifier `coinbase`.
pub open spec fn solution_fields(
    template: Template,
    solution: SubmitSolution,
    coinbase: Seq<u8>,
) -> crate::block::HeaderFields {
    crate::block::HeaderFields {
        version: solution.version,
        prev_hash: template.prev_hash,
        merkle_root: crate::merkle::climb(coinbase, template.merkle_path),
        time: solution.header_timestamp,
        bits: template.bits,
        nonce: solution.header_nonce,
    }
}

/// The message for a header without proof of work.
pub open spec fn work_message(fault: WorkFault) -> Seq<char> {
    match fault {
        WorkFault::BadTarget =>
            "SV2 solution does not meet network target: block target incorrect"@,
        WorkFault::BadProofOfWork =>
            "SV2 solution does not meet network target: block target correct but not attained"@,
    }
}

/// The block of a solution, or the message that tells why there is none.
pub open spec fn solved_block(template: Template, solution: SubmitSolution) -> Result<
    Solved,
    Seq<char>,
> {
    match crate::block::transaction_fault(solution.coinbase_tx@) {
        Some(message) => Err("invalid solved coinbase transaction: "@ + message),
        None => {
            let header = solution_fields(
                template,
                solution,
                crate::block::transaction_id(solution.coinbase_tx@),
            );
            match crate::block::work_fault(header, template.target) {
                Some(fault) => Err(work_message(fault)),
                None => Ok(
                    Solved {
                        header,
                        transactions: seq![solution.coinbase_tx@] + template.transactions,
                    },
                ),
            }
        },
    }
}

/// A solved block of a consistent template holds its transactions behind the coinbase, its header
/// commits to all of them, and its hash does not exceed the target of its bits.
pub proof fn solved_block_commits_to_its_transactions(template: Template, solution: SubmitSolution)
    requires
        template.wf(),
        solved_block(template, solution) is Ok,
    ensures
        ({
            let block = solved_block(template, solution)->Ok_0;
            &&& block.transactions == seq![solution.coinbase_tx@] + template.transactions
            &&& block.header.merkle_root == crate::merkle::tree_root(all_txids(block.transactions))
            &&& block.header.prev_hash == template.prev_hash
            &&& crate::encoding::little_endian_value(
                crate::hashing::sha256d_digest(crate::block::header_bytes(block.header)),
            ) <= crate::encoding::little_endian_value(
                crate::block::target_bytes(block.header.bits),
            )
        }),
{
    let block = solved_block(template, solution)->Ok_0;
    let coinbase = crate::block::transaction_id(solution.coinbase_tx@);
    crate::merkle::coinbase_path_reconstructs_root(coinbase, all_txids(template.transactions));
    assert(all_txids(block.transactions) =~= seq![coinbase] + all_txids(template.transactions));
}

/// A solution of a consistent template is never refused for the target it is held to.
pub proof fn consistent_template_has_its_target(template: Template, solution: SubmitSolution)
    requires
        template.wf(),
    ensures
        solved_block(template, solution) != Err::<Solved, Seq<char>>(
            work_message(WorkFault::BadTarget),
        ),
{
    let wrong = work_message(WorkFault::BadTarget);
    let missed = work_message(WorkFault::BadProofOfWork);
    reveal_strlit("SV2 solution does not meet network target: block target incorrect");
    reveal_strlit(
        "SV2 solution does not meet network target: block target correct but not attained",
    );
    reveal_strlit("invalid solved coinbase transaction: ");
    assert(wrong.len() != missed.len());
    if let Some(message) = crate::block::transaction_fault(solution.coinbase_tx@) {
        let text = "invalid solved coinbase transaction: "@ + message;
        assert(text[0] != wrong[0]);
    }
}

/// A new template in the words of the Template Distribution Protocol.
#[derive(Clone, Debug)]
pub struct NewTemplate {
    pub template_id: u64,
    pub future_template: bool,
    pub version: u32,
    pub coinbase_tx_version: u32,
    pub coinbase_prefix: Vec<u8>,
    pub coinbase_tx_input_sequence: u32,
    pub coinbase_tx_value_remaining: u64,
    pub coinbase_tx_outputs_count: u32,
    pub coinbase_tx_outputs: Vec<u8>,
    pub coinbase_tx_locktime: u32,
    pub merkle_path: Vec<[u8; 32]>,
}

/// A [`NewTemplate`] with its bytes as sequences.
pub ghost struct Announcement {
    pub template_id: u64,
    pub future_template: bool,
    pub version: u32,
    pub coinbase_tx_version: u32,
    pub coinbase_prefix: Seq<u8>,
    pub coinbase_tx_input_sequence: u32,
    pub coinbase_tx_value_remaining: u64,
    pub coinbase_tx_outputs_count: u32,
    pub coinbase_tx_outputs: Seq<u8>,
    pub coinbase_tx_locktime: u32,
    pub merkle_path: Seq<Seq<u8>>,
}

impl View for NewTemplate {
    type V = Announcement;

    open spec fn view(&self) -> Announcement {
        Announcement {
            template_id: self.template_id,
            future_template: self.future_template,
            version: self.version,
            coinbase_tx_version: self.coinbase_tx_version,
            coinbase_prefix: self.coinbase_prefix@,
            coinbase_tx_input_sequence: self.coinbase_tx_input_sequence,
            coinbase_tx_value_remaining: self.coinbase_tx_value_remaining,
            coinbase_tx_outputs_count: self.coinbase_tx_outputs_count,
            coinbase_tx_outputs: self.coinbase_tx_outputs@,
            coinbase_tx_locktime: self.coinbase_tx_locktime,
            merkle_path: crate::merkle::node_bytes(self.merkle_path@),
        }
    }
}

impl NewTemplate {
    /// Whether each part fits its field of the message.
    pub open spec fn fits(self) -> bool {
        &&& self.coinbase_prefix@.len() <= 255
        &&& self.coinbase_tx_outputs@.len() <= 0xffff
        &&& self.merkle_path@.len() <= 255
    }

    /// Whether this announces a template. The coinbase has version two, the greatest sequence
    /// number and no lock time.
    pub open spec fn announces(self, template: Template, future_template: bool) -> bool {
        &&& self.template_id == template.id
        &&& self.future_template == future_template
        &&& self.version == template.version
        &&& self.coinbase_tx_version == 2
        &&& self.coinbase_prefix@ == template.coinbase_prefix
        &&& self.coinbase_tx_input_sequence == u32::MAX
        &&& self.coinbase_tx_value_remaining == template.coinbase_value
        &&& self.coinbase_tx_outputs_count == template.required_outputs.len()
        &&& self.coinbase_tx_outputs@ == crate::block::joined_outputs(template.required_outputs)
        &&& self.coinbase_tx_locktime == 0
        &&& crate::merkle::node_bytes(self.merkle_path@) == template.merkle_path
    }
}

/// A chain tip in the words of the Template Distribution Protocol.
#[derive(Clone, Debug)]
pub struct SetNewPrevHash {
    pub template_id: u64,
    pub prev_hash: [u8; 32],
    pub header_timestamp: u32,
    pub n_bits: u32,
    pub target: [u8; 32],
}

/// A [`SetNewPrevHash`] with its bytes as sequences.
pub ghost struct Activation {
    pub template_id: u64,
    pub prev_hash: Seq<u8>,
    pub header_timestamp: u32,
    pub n_bits: u32,
    pub target: Seq<u8>,
}

impl View for SetNewPrevHash {
    type V = Activation;

    open spec fn view(&self) -> Activation {
        Activation {
            template_id: self.template_id,
            prev_hash: self.prev_hash@,
            header_timestamp: self.header_timestamp,
            n_bits: self.n_bits,
            target: self.target@,
        }
    }
}

impl SetNewPrevHash {
    /// Whether this activates a template. The timestamp is the current time of the template, or
    /// the least time of the chain if that is later.
    pub open spec fn activates(self, template: Template) -> bool {
        &&& self.template_id == template.id
        &&& self.prev_hash@ == template.prev_hash
        &&& self.header_timestamp == if template.curtime < template.mintime {
            template.mintime
        } else {
            template.curtime
        }
        &&& self.n_bits == template.bits
        &&& self.target@ == template.target
    }
}

/// Why a template cannot be announced: a part of it is too long for its message.
pub open spec fn announcement_complaint(template: Template) -> Option<Seq<char>> {
    if template.coinbase_prefix.len() > 255 {
        Some("coinbase prefix exceeds SV2 B0255"@)
    } else if crate::block::joined_outputs(template.required_outputs).len() > 0xffff {
        Some("required coinbase outputs exceed SV2 B064K"@)
    } else if template.merkle_path.len() > 255 {
        Some("coinbase merkle path exceeds SV2 Seq0255"@)
    } else {
        None
    }
}

/// A copy of bytes.
pub(crate) fn copy_bytes(bytes: &Vec<u8>) -> (copy: Vec<u8>)
    ensures
        copy@ == bytes@,
{
    let mut copy: Vec<u8> = Vec::new();
    extend_bytes(&mut copy, bytes.as_slice());
    assert(copy@ =~= bytes@);
    copy
}

impl RpcTemplate {
    /// Makes a template of an answer to `getblocktemplate`. The transactions at its end are left
    /// out where the coinbase, which may need `additional` bytes more, would not fit otherwise.
    pub fn from_gbt(id: u64, gbt: &GetBlockTemplate, additional: u32) -> (template: Result<
        RpcTemplate,
        String,
    >)
        requires
            gbt.height != 0x8000_0000_0000_0000,
        ensures
            match template {
                Ok(t) => template_complaint(*gbt, additional) is None && t@ == built_template(
                    id,
                    *gbt,
                    additional,
                ) && t@.wf(),
                Err(message) => template_complaint(*gbt, additional) == Some(message@),
            },
    {
        let prev_hash = match read_block_hash(gbt.previousblockhash.as_str()) {
            Ok(hash) => hash,
            Err(reason) => {
                return Err(labelled("invalid GBT previousblockhash: ", reason.as_str()));
            },
        };
        let bits = match read_hex_number(gbt.bits.as_str()) {
            Ok(bits) => bits,
            Err(reason) => return Err(labelled("invalid GBT bits: ", reason.as_str())),
        };
        let target = expand_target(bits);
        let wanted = additional as u64 * 4;
        let reserved = if wanted < MIN_BLOCK_RESERVED_WEIGHT {
            MIN_BLOCK_RESERVED_WEIGHT
        } else {
            wanted
        };
        let budget = MAX_BLOCK_WEIGHT.saturating_sub(reserved);
        let count = select_transaction_prefix(gbt.transactions.as_slice(), budget);
        let read = match read_transactions(&gbt.transactions, count) {
            Ok(read) => read,
            Err(message) => return Err(message),
        };
        let commitment = witness_commitment_output(read.wtxids.as_slice());
        let coinbase_prefix = match coinbase_script_prefix(gbt) {
            Ok(prefix) => prefix,
            Err(message) => return Err(message),
        };
        let version = if gbt.version >= 0 {
            gbt.version as u32
        } else {
            (gbt.version as i64 + 0x1_0000_0000) as u32
        };
        let merkle_path = coinbase_merkle_path(read.txids.as_slice());
        let mut required_outputs: Vec<TxOut> = Vec::new();
        required_outputs.push(commitment);
        let template = RpcTemplate {
            id,
            prev_hash,
            version,
            curtime: gbt.curtime,
            mintime: gbt.mintime,
            bits,
            target,
            coinbase_prefix,
            coinbase_value: gbt.coinbasevalue,
            required_outputs,
            transaction_bytes: read.bytes,
            merkle_path,
        };
        assert(template@.required_outputs =~= built_template(id, *gbt, additional).required_outputs);
        Ok(template)
    }

    /// Announces the template.
    pub fn new_template(&self, future_template: bool) -> (message: Result<NewTemplate, String>)
        requires
            self.required_outputs@.len() <= u32::MAX,
        ensures
            match message {
                Ok(m) => announcement_complaint(self@) is None && m.fits() && m.announces(
                    self@,
                    future_template,
                ),
                Err(complaint) => announcement_complaint(self@) == Some(complaint@),
            },
    {
        let mut outputs: Vec<u8> = Vec::new();
        let ghost required = crate::work::outputs_of(self.required_outputs@);
        let mut i: usize = 0;
        assert(required.take(0) =~= Seq::<crate::work::Output>::empty());
        while i < self.required_outputs.len()
            invariant
                i <= self.required_outputs@.len(),
                required == crate::work::outputs_of(self.required_outputs@),
                outputs@ == crate::block::joined_outputs(required.take(i as int)),
            decreases self.required_outputs@.len() - i,
        {
            extend_bytes(&mut outputs, encode_output(&self.required_outputs[i]).as_slice());
            assert(required.take(i + 1).drop_last() =~= required.take(i as int));
            i = i + 1;
        }
        assert(required.take(i as int) =~= required);
        if self.coinbase_prefix.len() > 255 {
            return Err("coinbase prefix exceeds SV2 B0255".to_owned());
        }
        if outputs.len() > 0xffff {
            return Err("required coinbase outputs exceed SV2 B064K".to_owned());
        }
        if self.merkle_path.len() > 255 {
            return Err("coinbase merkle path exceeds SV2 Seq0255".to_owned());
        }
        let mut merkle_path: Vec<[u8; 32]> = Vec::new();
        extend_nodes(&mut merkle_path, self.merkle_path.as_slice());
        assert(merkle_path@ =~= self.merkle_path@);
        Ok(
            NewTemplate {
                template_id: self.id,
                future_template,
                version: self.version,
                coinbase_tx_version: 2,
                coinbase_prefix: copy_bytes(&self.coinbase_prefix),
                coinbase_tx_input_sequence: u32::MAX,
                coinbase_tx_value_remaining: self.coinbase_value,
                coinbase_tx_outputs_count: self.required_outputs.len() as u32,
                coinbase_tx_outputs: outputs,
                coinbase_tx_locktime: 0,
                merkle_path,
            },
        )
    }

    /// Activates the template.
    pub fn set_new_prev_hash(&self) -> (message: SetNewPrevHash)
        ensures
            message.activates(self@),
    {
        SetNewPrevHash {
            template_id: self.id,
            prev_hash: self.prev_hash,
            header_timestamp: if self.curtime < self.mintime {
                self.mintime
            } else {
                self.curtime
            },
            n_bits: self.bits,
            target: self.target,
        }
    }

    /// The header of a solution whose coinbase has the identifier `coinbase`.
    pub fn solution_header(&self, solution: &SubmitSolution, coinbase: [u8; 32]) -> (header:
        BlockHeader)
        ensures
            header@ == solution_fields(self@, *solution, coinbase@),
    {
        BlockHeader {
            version: solution.version,
            prev_hash: self.prev_hash,
            merkle_root: apply_merkle_path(coinbase, self.merkle_path.as_slice()),
            time: solution.header_timestamp,
            bits: self.bits,
            nonce: solution.header_nonce,
        }
    }

    /// The block with the given header and coinbase, when its proof of work was found as `fault`
    /// says.
    pub fn conclude_block(
        &self,
        header: BlockHeader,
        coinbase: Vec<u8>,
        fault: Option<WorkFault>,
    ) -> (block: Result<SolvedBlock, String>)
        ensures
            match block {
                Ok(b) => fault is None && b@ == (Solved {
                    header: header@,
                    transactions: seq![coinbase@] + self@.transactions,
                }),
                Err(message) => fault is Some && message@ == work_message(fault->0),
            },
    {
        match fault {
            Some(WorkFault::BadTarget) => Err(
                "SV2 solution does not meet network target: block target incorrect".to_owned(),
            ),
            Some(WorkFault::BadProofOfWork) => Err(
                "SV2 solution does not meet network target: block target correct but not attained".to_owned(),
            ),
            None => {
                let ghost expected = seq![coinbase@] + self@.transactions;
                let mut transactions: Vec<Vec<u8>> = Vec::new();
                transactions.push(coinbase);
                let mut i: usize = 0;
                while i < self.transaction_bytes.len()
                    invariant
                        i <= self.transaction_bytes@.len(),
                        transactions@.len() == i + 1,
                        expected == seq![coinbase@] + self@.transactions,
                        forall|k: int|
                            0 <= k <= i ==> (#[trigger] transactions@[k])@ == expected[k],
                    decreases self.transaction_bytes@.len() - i,
                {
                    transactions.push(copy_bytes(&self.transaction_bytes[i]));
                    assert(expected[i + 1] == self.transaction_bytes@[i as int]@);
                    i = i + 1;
                }
                assert(all_bytes(transactions@) =~= expected);
                Ok(SolvedBlock { header, transactions })
            },
        }
    }

    /// The block of a solution.
    pub fn solution_block(&self, solution: &SubmitSolution) -> (block: Result<SolvedBlock, String>)
        ensures
            match block {
                Ok(b) => solved_block(self@, *solution) == Ok::<Solved, Seq<char>>(b@),
                Err(message) => solved_block(self@, *solution) == Err::<Solved, Seq<char>>(
                    message@,
                ),
            },
    {
        let coinbase = match read_transaction(solution.coinbase_tx.as_slice()) {
            Ok(coinbase) => coinbase,
            Err(reason) => {
                return Err(labelled("invalid solved coinbase transaction: ", reason.as_str()));
            },
        };
        let header = self.solution_header(solution, coinbase.txid);
        let fault = check_work(&header, self.target);
        self.conclude_block(header, coinbase.encoding, fault)
    }
}

/// A transaction weighs what the node says it does. Where the node says nothing it weighs four for
/// each of its bytes, and one whose bytes cannot be read weighs nothing.
pub proof fn transactions_weigh_what_the_node_says(tx: GetBlockTemplateTransaction)
    ensures
        tx.weight is Some ==> weight_of(tx) == tx.weight->0,
        tx.weight is None && !crate::encoding::is_hex(tx.data@) ==> weight_of(tx) == 0,
        tx.weight is None && crate::encoding::is_hex(tx.data@) && 2 * tx.data@.len() <= u64::MAX
            ==> weight_of(tx) == 4 * crate::encoding::hex_bytes(tx.data@).len(),
        0 <= weight_of(tx) <= u64::MAX,
{
}

/// The weights of transactions add up.
pub proof fn weights_add_up(
    a: Seq<GetBlockTemplateTransaction>,
    b: Seq<GetBlockTemplateTransaction>,
)
    ensures
        total_weight(a + b) == total_weight(a) + total_weight(b),
        b.len() == 1 ==> total_weight(b) == weight_of(b[0]),
        b.len() == 0 ==> total_weight(b) == 0,
    decreases b.len(),
{
    if b.len() == 0 {
        assert(a + b =~= a);
    } else {
        weights_add_up(a, b.drop_last());
        assert((a + b).drop_last() =~= a + b.drop_last());
        if b.len() == 1 {
            assert(b.drop_last() =~= Seq::<GetBlockTemplateTransaction>::empty());
        }
    }
}

/// The transactions that are kept stay within the budget together with a header of 320, and the
/// next one would not.
pub proof fn kept_transactions_fill_the_budget(
    txs: Seq<GetBlockTemplateTransaction>,
    budget: int,
    count: int,
)
    requires
        is_selection(txs, budget, count),
        budget < u64::MAX,
    ensures
        0 <= count <= txs.len(),
        count > 0 ==> 320 + total_weight(txs.take(count)) <= budget,
        count < txs.len() ==> 320 + total_weight(txs.take(count + 1)) > budget,
{
}

/// Transactions may weigh four million less the weight that is kept free: four for each byte that
/// the coinbase may need more, and at least two thousand.
pub proof fn budgets_leave_room_for_the_coinbase(additional: u32)
    ensures
        additional <= 500 ==> transaction_budget(additional) == 3_998_000,
        500 <= additional <= 1_000_000 ==> transaction_budget(additional) + 4 * additional
            == 4_000_000,
        additional > 1_000_000 ==> transaction_budget(additional) == 0,
{
}

/// The script that commits to witnesses is a fixed prefix of six bytes and the digest of the root of
/// a tree and 32 zero bytes. The leaves of the tree are 32 zero bytes, for the coinbase, and the
/// witness identifiers behind them.
pub proof fn commitments_hold_the_root_of_the_witnesses(
    wtxids: Seq<Seq<u8>>,
    leaves: Seq<Seq<u8>>,
    zeros: Seq<u8>,
)
    requires
        zeros.len() == 32,
        forall|k: int| 0 <= k < 32 ==> #[trigger] zeros[k] == 0,
        leaves.len() == wtxids.len() + 1,
        leaves[0] == zeros,
        forall|k: int| 0 <= k < wtxids.len() ==> leaves[k + 1] == #[trigger] wtxids[k],
    ensures
        ({
            let script = commitment_script(wtxids);
            &&& script[0] == 0x6a
            &&& script[1] == 0x24
            &&& script[2] == 0xaa
            &&& script[3] == 0x21
            &&& script[4] == 0xa9
            &&& script[5] == 0xed
            &&& script.skip(6) == crate::hashing::sha256d_digest(
                crate::merkle::tree_root(leaves) + zeros,
            )
        }),
{
    assert(zeros =~= crate::merkle::zero_node());
    let expected = seq![crate::merkle::zero_node()] + wtxids;
    assert forall|k: int| 0 <= k < leaves.len() implies leaves[k] == expected[k] by {
        if k > 0 {
            assert(leaves[k - 1 + 1] == wtxids[k - 1]);
        }
    }
    assert(leaves =~= expected);
    let digest = crate::hashing::sha256d_digest(crate::merkle::tree_root(leaves) + zeros);
    assert(commitment_script(wtxids).skip(6) =~= digest);
}

/// There is nothing to complain of transactions if and only if there is nothing to complain of each.
/// Otherwise the complaint is that about the first one that has any.
pub proof fn the_first_bad_transaction_is_complained_of(
    txs: Seq<GetBlockTemplateTransaction>,
)
    ensures
        first_complaint(txs) is None <==> forall|k: int|
            0 <= k < txs.len() ==> transaction_complaint(#[trigger] txs[k]) is None,
        first_complaint(txs) is Some ==> exists|at: int|
            {
                &&& 0 <= at < txs.len()
                &&& first_complaint(txs) == transaction_complaint(#[trigger] txs[at])
                &&& forall|k: int|
                    0 <= k < at ==> transaction_complaint(#[trigger] txs[k]) is None
            },
    decreases txs.len(),
{
    if txs.len() > 0 {
        let front = txs.drop_last();
        the_first_bad_transaction_is_complained_of(front);
        if first_complaint(front) is Some {
            let at = choose|at: int|
                {
                    &&& 0 <= at < front.len()
                    &&& first_complaint(front) == transaction_complaint(#[trigger] front[at])
                    &&& forall|k: int|
                        0 <= k < at ==> transaction_complaint(#[trigger] front[k]) is None
                };
            assert(front[at] == txs[at]);
            assert forall|k: int| 0 <= k < at implies transaction_complaint(
                #[trigger] txs[k],
            ) is None by {
                assert(front[k] == txs[k]);
            }
        } else {
            assert forall|k: int| 0 <= k < txs.len() - 1 implies transaction_complaint(
                #[trigger] txs[k],
            ) is None by {
                assert(front[k] == txs[k]);
            }
            assert(txs[txs.len() - 1] == txs.last());
        }
    }
}

/// A transaction of a template is good if and only if its data are the bytes of a transaction with
/// the two identifiers that the node gives for it. Otherwise the complaint names the first thing
/// that is wrong.
pub proof fn transactions_fail_for_the_first_reason(tx: GetBlockTemplateTransaction)
    ensures
        ({
            let complaint = transaction_complaint(tx);
            let bytes = crate::encoding::hex_bytes(tx.data@);
            let fault = crate::block::transaction_fault(bytes);
            let hex = crate::encoding::is_hex(tx.data@);
            let named = tx.txid@.len() == 64 && crate::encoding::is_hex(tx.txid@);
            let hashed = tx.hash@.len() == 64 && crate::encoding::is_hex(tx.hash@);
            let same = crate::encoding::hex_bytes(tx.txid@).reverse()
                == crate::block::transaction_id(bytes) && crate::encoding::hex_bytes(
                tx.hash@,
            ).reverse() == crate::hashing::sha256d_digest(bytes);
            &&& complaint is None <==> hex && fault is None && named && hashed && same
            &&& !hex ==> complaint == Some(
                "invalid GBT transaction hex: "@ + crate::encoding::hex_error(tx.data@),
            )
            &&& hex && fault is Some ==> complaint == Some(
                "invalid GBT transaction: "@ + fault->0,
            )
            &&& hex && fault is None && !named ==> complaint == Some(
                "invalid GBT txid: "@ + crate::block::txid_error(tx.txid@),
            )
            &&& hex && fault is None && named && !hashed ==> complaint == Some(
                "invalid GBT wtxid: "@ + crate::block::wtxid_error(tx.hash@),
            )
            &&& hex && fault is None && named && hashed && !same ==> complaint == Some(
                "GBT transaction "@ + tx.txid@ + " hash mismatch"@,
            )
        }),
{
}

/// An answer gives a template unless its previous block, its bits, a transaction that would be mined
/// or its flags cannot be read, or the coinbase script would start with more than a hundred bytes;
/// the complaint names the first of these.
pub proof fn templates_fail_for_the_first_reason(
    id: u64,
    gbt: GetBlockTemplate,
    additional: u32,
    template: Result<RpcTemplate, String>,
)
    requires
        call_ensures(RpcTemplate::from_gbt, (id, &gbt, additional), template),
    ensures
        ({
            let complaint = match template {
                Ok(_) => None,
                Err(message) => Some(message@),
            };
            let hash = gbt.previousblockhash@.len() == 64 && crate::encoding::is_hex(
                gbt.previousblockhash@,
            );
            let bits = crate::encoding::is_hex_number(gbt.bits@);
            let bad = first_complaint(kept_transactions(gbt, additional));
            let flags = crate::encoding::is_hex(gbt.coinbase_flags@);
            let short = script_prefix(gbt).len() <= 100;
            &&& complaint is None <==> hash && bits && bad is None && flags && short
            &&& !hash ==> complaint == Some(
                "invalid GBT previousblockhash: "@ + crate::block::block_hash_error(
                    gbt.previousblockhash@,
                ),
            )
            &&& hash && !bits ==> complaint == Some(
                "invalid GBT bits: "@ + crate::encoding::hex_number_error(gbt.bits@),
            )
            &&& hash && bits && bad is Some ==> complaint == bad
            &&& hash && bits && bad is None && !flags ==> complaint == Some(
                "invalid GBT coinbaseaux.flags: "@ + crate::encoding::hex_error(
                    gbt.coinbase_flags@,
                ),
            )
            &&& hash && bits && bad is None && flags && !short ==> complaint == Some(
                "GBT coinbase script prefix exceeds consensus limit"@,
            )
        }),
{
}

/// A template holds what the answer says: the block below it, its times, bits and value, and its
/// version with the same 32 bits. Its transactions are those of the answer from the front, byte for
/// byte and in the same order.
pub proof fn templates_hold_what_the_node_answers(
    id: u64,
    gbt: GetBlockTemplate,
    additional: u32,
    template: RpcTemplate,
    count: int,
    k: int,
)
    requires
        call_ensures(RpcTemplate::from_gbt, (id, &gbt, additional), Ok(template)),
        is_selection(gbt.transactions@, transaction_budget(additional), count),
    ensures
        template.id == id,
        template.prev_hash@ == crate::encoding::hex_bytes(gbt.previousblockhash@).reverse(),
        (template.version - gbt.version) % 0x1_0000_0000 == 0,
        template.curtime == gbt.curtime,
        template.mintime == gbt.mintime,
        template.coinbase_value == gbt.coinbasevalue,
        template.bits == crate::encoding::digits_value(
            crate::encoding::number_digits(gbt.bits@),
        ) as u32,
        template.target@ == crate::block::target_bytes(template.bits),
        template.transaction_bytes@.len() == count,
        0 <= k < count ==> template.transaction_bytes@[k]@ == crate::encoding::hex_bytes(
            gbt.transactions@[k].data@,
        ),
        template.coinbase_prefix@ == crate::block::push_number(
            crate::number::wrapped(gbt.height as int),
        ) + crate::encoding::hex_bytes(gbt.coinbase_flags@),
        template.required_outputs@.len() == 1,
        template.required_outputs@[0].value == 0,
        template.required_outputs@[0].script_pubkey@ == commitment_script(
            all_wtxids(all_bytes(template.transaction_bytes@)),
        ),
{
    selection_is_unique(gbt.transactions@, transaction_budget(additional), count);
    let kept = kept_transactions(gbt, additional);
    let listed = all_bytes(template.transaction_bytes@);
    assert(listed == all_data(kept));
    assert(listed.len() == template.transaction_bytes@.len());
    if 0 <= k < count {
        assert(listed[k] == template.transaction_bytes@[k]@);
        assert(all_data(kept)[k] == crate::encoding::hex_bytes(kept[k].data@));
    }
    let outputs = crate::work::outputs_of(template.required_outputs@);
    assert(outputs.len() == template.required_outputs@.len());
    assert(outputs[0] == template.required_outputs@[0]@);
}

/// The identifiers of transactions are those of each, in their order.
pub proof fn identifiers_are_those_of_each_transaction(transactions: Seq<Vec<u8>>, k: int)
    requires
        0 <= k < transactions.len(),
    ensures
        all_txids(all_bytes(transactions)).len() == transactions.len(),
        all_wtxids(all_bytes(transactions)).len() == transactions.len(),
        all_txids(all_bytes(transactions))[k] == crate::block::transaction_id(transactions[k]@),
        all_wtxids(all_bytes(transactions))[k] == crate::hashing::sha256d_digest(transactions[k]@),
{
}

/// With the Merkle path of a template the identifier of any coinbase leads to the root of the tree
/// of the coinbase and all transactions of the template.
pub proof fn template_paths_lead_to_the_root(
    id: u64,
    gbt: GetBlockTemplate,
    additional: u32,
    template: RpcTemplate,
    coinbase: Seq<u8>,
    leaves: Seq<Seq<u8>>,
)
    requires
        call_ensures(RpcTemplate::from_gbt, (id, &gbt, additional), Ok(template)),
        leaves.len() == template.transaction_bytes@.len() + 1,
        leaves[0] == coinbase,
        forall|k: int|
            0 <= k < template.transaction_bytes@.len() ==> leaves[k + 1]
                == crate::block::transaction_id((#[trigger] template.transaction_bytes@[k])@),
    ensures
        crate::merkle::climb(coinbase, crate::merkle::node_bytes(template.merkle_path@))
            == crate::merkle::tree_root(leaves),
{
    let txids = all_txids(all_bytes(template.transaction_bytes@));
    crate::merkle::coinbase_path_reconstructs_root(coinbase, txids);
    let expected = seq![coinbase] + txids;
    assert forall|k: int| 0 <= k < leaves.len() implies leaves[k] == expected[k] by {
        if k > 0 {
            let bytes = template.transaction_bytes@[k - 1];
            assert(leaves[k - 1 + 1] == crate::block::transaction_id(bytes@));
            assert(txids[k - 1] == crate::block::transaction_id(bytes@));
        }
    }
    assert(leaves =~= expected);
}

/// Byte strings one behind the other keep their order: each stands behind those before it.
pub proof fn joined_bytes_keep_their_order(parts: Seq<Seq<u8>>, k: int)
    requires
        0 <= k < parts.len(),
    ensures
        ({
            let from = concatenated(parts.take(k)).len() as int;
            let to = concatenated(parts.take(k + 1)).len() as int;
            &&& to == from + parts[k].len()
            &&& to <= concatenated(parts).len()
            &&& concatenated(parts).subrange(from, to) == parts[k]
        }),
        concatenated(parts.take(0)).len() == 0,
    decreases parts.len(),
{
    assert(parts.take(k + 1).drop_last() =~= parts.take(k));
    if k + 1 < parts.len() {
        let front = parts.drop_last();
        joined_bytes_keep_their_order(front, k);
        assert(front.take(k) =~= parts.take(k));
        assert(front.take(k + 1) =~= parts.take(k + 1));
        let from = concatenated(parts.take(k)).len() as int;
        let to = concatenated(parts.take(k + 1)).len() as int;
        assert(concatenated(parts).subrange(from, to) =~= concatenated(front).subrange(from, to));
    } else {
        assert(parts.take(k + 1) =~= parts);
        assert(concatenated(parts).subrange(
            concatenated(parts.take(k)).len() as int,
            concatenated(parts).len() as int,
        ) =~= parts[k]);
    }
}

/// A block in bytes is its header, the number of its transactions and the transactions, with
/// nothing between them or behind.
pub proof fn blocks_hold_their_transactions(block: SolvedBlock, k: int)
    requires
        0 <= k < block.transactions@.len(),
    ensures
        ({
            let bytes = block_bytes(block@);
            let count = crate::encoding::compact_size(block.transactions@.len());
            let parts = all_bytes(block.transactions@);
            let start = 80 + count.len();
            let from = start + concatenated(parts.take(k)).len();
            &&& bytes.take(80) == crate::block::header_bytes(block.header@)
            &&& bytes.subrange(80, start as int) == count
            &&& bytes.subrange(from as int, (from + block.transactions@[k]@.len()) as int)
                == block.transactions@[k]@
            &&& k + 1 == block.transactions@.len() ==> bytes.len() == from
                + block.transactions@[k]@.len()
        }),
{
    let bytes = block_bytes(block@);
    let header = crate::block::header_bytes(block.header@);
    let count = crate::encoding::compact_size(block.transactions@.len());
    let parts = all_bytes(block.transactions@);
    crate::encoding::little_endian_round_trip(block.header.version as nat, 4);
    crate::encoding::little_endian_round_trip(block.header.time as nat, 4);
    crate::encoding::little_endian_round_trip(block.header.bits as nat, 4);
    crate::encoding::little_endian_round_trip(block.header.nonce as nat, 4);
    assert(header.len() == 80);
    joined_bytes_keep_their_order(parts, k);
    let start = 80 + count.len();
    let inner = concatenated(parts.take(k)).len() as int;
    let from = start + inner;
    let size = parts[k].len() as int;
    assert(parts[k] == block.transactions@[k]@);
    assert(bytes.take(80) =~= header);
    assert(bytes.subrange(80, start as int) =~= count);
    assert(bytes.subrange(from, from + size) =~= concatenated(parts).subrange(inner, inner + size));
    if k + 1 == parts.len() {
        assert(parts.take(k + 1) =~= parts);
    }
}

/// The message that announces a template holds the template's own parts. The coinbase that it asks
/// for has version two, the greatest sequence number and no lock time, may spend the value of the
/// template, and has the outputs that the template requires, as many as are counted.
pub proof fn announcements_hold_the_template(
    message: NewTemplate,
    template: RpcTemplate,
    future_template: bool,
    k: int,
)
    requires
        call_ensures(RpcTemplate::new_template, (&template, future_template), Ok(message)),
    ensures
        message.template_id == template.id,
        message.future_template == future_template,
        message.version == template.version,
        message.coinbase_tx_version == 2,
        message.coinbase_prefix@ == template.coinbase_prefix@,
        message.coinbase_tx_input_sequence == 0xffff_ffff,
        message.coinbase_tx_value_remaining == template.coinbase_value,
        message.coinbase_tx_outputs_count == template.required_outputs@.len(),
        message.coinbase_tx_outputs@ == crate::block::joined_outputs(
            crate::work::outputs_of(template.required_outputs@),
        ),
        message.coinbase_tx_locktime == 0,
        message.merkle_path@.len() == template.merkle_path@.len(),
        0 <= k < template.merkle_path@.len() ==> message.merkle_path@[k]@
            == template.merkle_path@[k]@,
{
    let told = crate::merkle::node_bytes(message.merkle_path@);
    let path = crate::merkle::node_bytes(template.merkle_path@);
    assert(told.len() == message.merkle_path@.len());
    assert(path.len() == template.merkle_path@.len());
    if 0 <= k < path.len() {
        assert(told[k] == message.merkle_path@[k]@);
        assert(path[k] == template.merkle_path@[k]@);
    }
}

/// The message that activates a template holds its block below, bits and target. The time is not
/// before the current time of the template nor before the least time of the chain, and it is one of
/// the two.
pub proof fn activations_hold_the_tip(message: SetNewPrevHash, template: RpcTemplate)
    requires
        call_ensures(RpcTemplate::set_new_prev_hash, (&template,), message),
    ensures
        message.template_id == template.id,
        message.prev_hash@ == template.prev_hash@,
        message.n_bits == template.bits,
        message.target@ == template.target@,
        message.header_timestamp >= template.curtime,
        message.header_timestamp >= template.mintime,
        message.header_timestamp == template.curtime || message.header_timestamp
            == template.mintime,
{
}

/// A template can be announced if and only if its prefix has at most 255 bytes, its outputs at most
/// 65535 and its path at most 255 hashes; the complaint names the first that is too long.
pub proof fn announcements_fail_for_the_first_reason(
    template: RpcTemplate,
    future_template: bool,
    message: Result<NewTemplate, String>,
)
    requires
        call_ensures(RpcTemplate::new_template, (&template, future_template), message),
    ensures
        ({
            let complaint = match message {
                Ok(_) => None,
                Err(text) => Some(text@),
            };
            let prefix = template.coinbase_prefix@.len() <= 0xff;
            let outputs = crate::block::joined_outputs(
                crate::work::outputs_of(template.required_outputs@),
            ).len() <= 0xffff;
            let path = template.merkle_path@.len() <= 0xff;
            &&& complaint is None <==> prefix && outputs && path
            &&& !prefix ==> complaint == Some("coinbase prefix exceeds SV2 B0255"@)
            &&& prefix && !outputs ==> complaint == Some(
                "required coinbase outputs exceed SV2 B064K"@,
            )
            &&& prefix && outputs && !path ==> complaint == Some(
                "coinbase merkle path exceeds SV2 Seq0255"@,
            )
        }),
{
    assert(crate::merkle::node_bytes(template.merkle_path@).len() == template.merkle_path@.len());
}

/// The block of a solution has the version, the time and the nonce of the solution, the bits and the
/// block below of the template, and the Merkle root to which the coinbase of the solution leads. Its
/// transactions are the coinbase and those of the template behind it, in their order.
pub proof fn solved_blocks_hold_solution_and_template(
    template: RpcTemplate,
    solution: SubmitSolution,
    block: SolvedBlock,
    k: int,
)
    requires
        call_ensures(RpcTemplate::solution_block, (&template, &solution), Ok(block)),
    ensures
        block.header.version == solution.version,
        block.header.time == solution.header_timestamp,
        block.header.nonce == solution.header_nonce,
        block.header.bits == template.bits,
        block.header.prev_hash@ == template.prev_hash@,
        block.header.merkle_root@ == crate::merkle::climb(
            crate::block::transaction_id(solution.coinbase_tx@),
            crate::merkle::node_bytes(template.merkle_path@),
        ),
        block.transactions@.len() == template.transaction_bytes@.len() + 1,
        block.transactions@[0]@ == solution.coinbase_tx@,
        0 <= k < template.transaction_bytes@.len() ==> block.transactions@[k + 1]@
            == template.transaction_bytes@[k]@,
{
    let listed = all_bytes(block.transactions@);
    assert(listed.len() == block.transactions@.len());
    assert(listed[0] == block.transactions@[0]@);
    if 0 <= k < template.transaction_bytes@.len() {
        assert(listed[k + 1] == block.transactions@[k + 1]@);
        assert(all_bytes(template.transaction_bytes@)[k] == template.transaction_bytes@[k]@);
    }
}

/// A solution gives a block if and only if its coinbase is a transaction and the header has proof of
/// work for the target of the template; otherwise the message names the first of these that fails.
pub proof fn solutions_fail_for_the_first_reason(
    template: RpcTemplate,
    solution: SubmitSolution,
    header: BlockHeader,
    block: Result<SolvedBlock, String>,
)
    requires
        call_ensures(RpcTemplate::solution_block, (&template, &solution), block),
        header.version == solution.version,
        header.time == solution.header_timestamp,
        header.nonce == solution.header_nonce,
        header.bits == template.bits,
        header.prev_hash@ == template.prev_hash@,
        header.merkle_root@ == crate::merkle::climb(
            crate::block::transaction_id(solution.coinbase_tx@),
            crate::merkle::node_bytes(template.merkle_path@),
        ),
    ensures
        ({
            let fault = crate::block::transaction_fault(solution.coinbase_tx@);
            let target = crate::block::target_bytes(template.bits) == template.target@;
            let hash = crate::hashing::sha256d_digest(crate::block::header_bytes(header@));
            let met = crate::encoding::little_endian_value(hash)
                <= crate::encoding::little_endian_value(template.target@);
            &&& block is Ok <==> fault is None && target && met
            &&& fault is Some ==> block->Err_0@
                == "invalid solved coinbase transaction: "@ + fault->0
            &&& fault is None && !target ==> block->Err_0@
                == "SV2 solution does not meet network target: block target incorrect"@
            &&& fault is None && target && !met ==> block->Err_0@
                == "SV2 solution does not meet network target: block target correct but not attained"@
        }),
{
    let coinbase = crate::block::transaction_id(solution.coinbase_tx@);
    assert(header@ == solution_fields(template@, solution, coinbase));
}

/// A transaction that could be read is taken over as it is, if it has the identifiers that the node
/// gives for it.
pub proof fn admitted_transactions_have_their_identifiers(
    tx: GetBlockTemplateTransaction,
    read: Result<DecodedTransaction, String>,
    admitted: Result<DecodedTransaction, String>,
)
    requires
        call_ensures(admit_transaction, (&tx, read), admitted),
    ensures
        admitted is Ok ==> {
            &&& admitted == read
            &&& crate::encoding::hex_bytes(tx.txid@).reverse() == read->Ok_0.txid@
            &&& crate::encoding::hex_bytes(tx.hash@).reverse() == read->Ok_0.wtxid@
        },
        read is Err ==> admitted is Err && admitted->Err_0@ == "invalid GBT transaction: "@
            + read->Err_0@,
        read is Ok && admitted is Err ==> {
            ||| !crate::block::is_hash_text(tx.txid@)
            ||| !crate::block::is_hash_text(tx.hash@)
            ||| crate::encoding::hex_bytes(tx.txid@).reverse() != read->Ok_0.txid@
            ||| crate::encoding::hex_bytes(tx.hash@).reverse() != read->Ok_0.wtxid@
        },
{
}

/// A block has the header and the coinbase that it is concluded with, and the transactions of the
/// template behind the coinbase; without proof of work there is none.
pub proof fn concluded_blocks_hold_header_and_coinbase(
    template: RpcTemplate,
    header: BlockHeader,
    coinbase: Vec<u8>,
    fault: Option<WorkFault>,
    block: Result<SolvedBlock, String>,
    k: int,
)
    requires
        call_ensures(RpcTemplate::conclude_block, (&template, header, coinbase, fault), block),
    ensures
        block is Ok <==> fault is None,
        block is Ok ==> {
            let list = block->Ok_0.transactions@;
            &&& block->Ok_0.header@ == header@
            &&& list.len() == template.transaction_bytes@.len() + 1
            &&& list[0]@ == coinbase@
            &&& 0 <= k < template.transaction_bytes@.len() ==> list[k + 1]@
                == template.transaction_bytes@[k]@
        },
{
    if block is Ok {
        let list = block->Ok_0.transactions@;
        let views = all_bytes(list);
        assert(views.len() == list.len());
        assert(views[0] == list[0]@);
        if 0 <= k < template.transaction_bytes@.len() {
            assert(views[k + 1] == list[k + 1]@);
            assert(all_bytes(template.transaction_bytes@)[k] == template.transaction_bytes@[k]@);
        }
    }
}

/// A block that is written out can be read again: the digits are those of its header, the number of
/// its transactions, and the transactions in their order.
pub proof fn written_blocks_hold_their_transactions(block: SolvedBlock, text: String, k: int)
    requires
        call_ensures(SolvedBlock::to_hex, (&block,), text),
        0 <= k < block.transactions@.len(),
    ensures
        ({
            let bytes = crate::encoding::hex_bytes(text@);
            let count = crate::encoding::compact_size(block.transactions@.len());
            let before = concatenated(all_bytes(block.transactions@).take(k)).len();
            let from = 80 + count.len() + before;
            &&& bytes.take(80) == crate::block::header_bytes(block.header@)
            &&& bytes.subrange(80, (80 + count.len()) as int) == count
            &&& bytes.subrange(from as int, (from + block.transactions@[k]@.len()) as int)
                == block.transactions@[k]@
            &&& k + 1 == block.transactions@.len() ==> bytes.len() == from
                + block.transactions@[k]@.len()
        }),
{
    crate::encoding::hex_round_trip(block_bytes(block@));
    blocks_hold_their_transactions(block, k);
}

/// A block without transactions is its header and the number zero.
pub proof fn empty_blocks_are_headers(block: SolvedBlock)
    requires
        block.transactions@.len() == 0,
    ensures
        block_bytes(block@) == crate::block::header_bytes(block.header@)
            + crate::encoding::compact_size(0),
{
    assert(all_bytes(block.transactions@).len() == 0);
    assert(block_bytes(block@) =~= crate::block::header_bytes(block.header@)
        + crate::encoding::compact_size(0));
}

} // verus!
