//! Block headers, proof of work, transactions and scripts, as the `bitcoin` crate has them.
//!
//! A hash is a string of 32 bytes in the order in which it is hashed further. Its text is the
//! hexadecimal notation of the same bytes in the opposite order.

use crate::work::TxOut;
use std::str::FromStr;
use stratum_apps::stratum_core::bitcoin::absolute::LockTime;
use stratum_apps::stratum_core::bitcoin::block;
use stratum_apps::stratum_core::bitcoin::consensus::{deserialize, serialize};
use stratum_apps::stratum_core::bitcoin::hashes::{sha256d, Hash as BitcoinHash};
use stratum_apps::stratum_core::bitcoin::script::Builder;
use stratum_apps::stratum_core::bitcoin::transaction;
use stratum_apps::stratum_core::bitcoin::{
    Amount, BlockHash, CompactTarget, OutPoint, ScriptBuf, Sequence, Target, Transaction, TxIn,
    Txid, VarInt, Witness, Wtxid,
};
use vstd::prelude::*;

verus! {

/// A block header.
#[derive(Clone, Copy, Debug, PartialEq, Eq)]
pub struct BlockHeader {
    pub version: u32,
    pub prev_hash: [u8; 32],
    pub merkle_root: [u8; 32],
    pub time: u32,
    /// The target in compact form.
    pub bits: u32,
    pub nonce: u32,
}

/// A [`BlockHeader`] with its hashes as sequences of bytes.
pub ghost struct HeaderFields {
    pub version: u32,
    pub prev_hash: Seq<u8>,
    pub merkle_root: Seq<u8>,
    pub time: u32,
    pub bits: u32,
    pub nonce: u32,
}

impl View for BlockHeader {
    type V = HeaderFields;

    open spec fn view(&self) -> HeaderFields {
        HeaderFields {
            version: self.version,
            prev_hash: self.prev_hash@,
            merkle_root: self.merkle_root@,
            time: self.time,
            bits: self.bits,
            nonce: self.nonce,
        }
    }
}

/// The eighty bytes of a header.
pub open spec fn header_bytes(header: HeaderFields) -> Seq<u8> {
    crate::encoding::little_endian(header.version as nat, 4) + header.prev_hash
        + header.merkle_root + crate::encoding::little_endian(header.time as nat, 4)
        + crate::encoding::little_endian(header.bits as nat, 4) + crate::encoding::little_endian(
        header.nonce as nat,
        4,
    )
}

/// Calls `consensus::serialize` on the header. Claimed: the six fields follow each other, each
/// number in four bytes with the lowest first.
#[verifier::external_body]
pub(crate) fn encode_header(header: &BlockHeader) -> (bytes: Vec<u8>)
    ensures
        bytes@ == header_bytes(header@),
{
    serialize(
        &block::Header {
            version: block::Version::from_consensus(header.version as i32),
            prev_blockhash: BlockHash::from_byte_array(header.prev_hash),
            merkle_root: sha256d::Hash::from_byte_array(header.merkle_root).into(),
            time: header.time,
            bits: CompactTarget::from_consensus(header.bits),
            nonce: header.nonce,
        },
    )
}

/// The mantissa of a target in compact form: the three low bytes, of which an exponent below
/// three drops as many as are missing.
pub open spec fn compact_mantissa(bits: u32) -> int {
    let exponent = bits as int / 0x100_0000;
    let low = bits as int % 0x100_0000;
    if exponent >= 3 {
        low
    } else if exponent == 2 {
        low / 0x100
    } else if exponent == 1 {
        low / 0x1_0000
    } else {
        0
    }
}

/// The bytes of a target, the lowest first. The mantissa stands as many bytes up as the exponent
/// exceeds three, counted modulo the 32 bytes; what is beyond the last byte is lost. A mantissa
/// with its sign bit set stands for zero.
pub open spec fn target_bytes(bits: u32) -> Seq<u8> {
    let exponent = bits as int / 0x100_0000;
    let mantissa = compact_mantissa(bits);
    let shift = if exponent <= 3 {
        0
    } else {
        (exponent - 3) % 32
    };
    Seq::new(
        32,
        |i: int|
            if mantissa <= 0x7f_ffff && shift <= i < shift + 3 {
                crate::encoding::little_endian(mantissa as nat, 3)[i - shift]
            } else {
                0u8
            },
    )
}

/// Calls `Target::from_compact` and hands the bytes of the target out, the lowest first. Claimed:
/// they are the mantissa, shifted by the exponent.
#[verifier::external_body]
pub(crate) fn expand_target(bits: u32) -> (target: [u8; 32])
    ensures
        target@ == target_bytes(bits),
{
    Target::from_compact(CompactTarget::from_consensus(bits)).to_le_bytes()
}

/// Why a header has no proof of work for a target.
#[derive(Clone, Copy, Debug, PartialEq, Eq, Structural)]
pub enum WorkFault {
    /// The header's own target is another one.
    BadTarget,
    /// The hash of the header exceeds the target.
    BadProofOfWork,
}

/// What is wrong with the proof of work of a header.
pub open spec fn work_fault(header: HeaderFields, target: Seq<u8>) -> Option<WorkFault> {
    if target_bytes(header.bits) != target {
        Some(WorkFault::BadTarget)
    } else if crate::encoding::little_endian_value(
        crate::hashing::sha256d_digest(header_bytes(header)),
    ) > crate::encoding::little_endian_value(target) {
        Some(WorkFault::BadProofOfWork)
    } else {
        None
    }
}

/// Calls `Header::validate_pow`. Claimed: the header's own target is compared with `target`
/// first, then the double SHA-256 digest of the header's bytes with the target, both taken as
/// numbers with the lowest byte first.
#[verifier::external_body]
pub(crate) fn check_work(header: &BlockHeader, target: [u8; 32]) -> (fault: Option<WorkFault>)
    ensures
        fault == work_fault(header@, target@),
{
    let outside = block::Header {
        version: block::Version::from_consensus(header.version as i32),
        prev_blockhash: BlockHash::from_byte_array(header.prev_hash),
        merkle_root: sha256d::Hash::from_byte_array(header.merkle_root).into(),
        time: header.time,
        bits: CompactTarget::from_consensus(header.bits),
        nonce: header.nonce,
    };
    match outside.validate_pow(Target::from_le_bytes(target)) {
        Ok(_) => None,
        Err(block::ValidationError::BadTarget) => Some(WorkFault::BadTarget),
        Err(_) => Some(WorkFault::BadProofOfWork),
    }
}

/// Whether a text is the hexadecimal notation of 32 bytes.
pub open spec fn is_hash_text(text: Seq<char>) -> bool {
    text.len() == 64 && crate::encoding::is_hex(text)
}

/// The hash that a text stands for.
pub open spec fn hash_of_text(text: Seq<char>) -> Seq<u8> {
    crate::encoding::hex_bytes(text).reverse()
}

/// The text of a hash.
pub open spec fn hash_text(hash: Seq<u8>) -> Seq<char> {
    crate::encoding::hex_text(hash.reverse())
}

/// Reading the text of a hash gives the hash back.
pub proof fn hash_text_round_trip(hash: Seq<u8>)
    requires
        hash.len() == 32,
    ensures
        is_hash_text(hash_text(hash)),
        hash_of_text(hash_text(hash)) == hash,
{
    crate::encoding::hex_round_trip(hash.reverse());
    assert(hash.reverse().reverse() =~= hash);
}

/// What `BlockHash::from_str` reports of a text that stands for no hash.
pub uninterp spec fn block_hash_error(text: Seq<char>) -> Seq<char>;

/// Calls `BlockHash::from_str`. Claimed: 64 hexadecimal digits give the hash, and any other text
/// an error whose message depends on the text alone.
#[verifier::external_body]
pub(crate) fn read_block_hash(text: &str) -> (hash: Result<[u8; 32], String>)
    ensures
        match hash {
            Ok(h) => is_hash_text(text@) && h@ == hash_of_text(text@),
            Err(message) => !is_hash_text(text@) && message@ == block_hash_error(text@),
        },
{
    match BlockHash::from_str(text) {
        Ok(hash) => Ok(hash.to_byte_array()),
        Err(error) => Err(error.to_string()),
    }
}

/// What `Txid::from_str` reports of a text that stands for no transaction identifier.
pub uninterp spec fn txid_error(text: Seq<char>) -> Seq<char>;

/// Calls `Txid::from_str`. Claimed: 64 hexadecimal digits give the identifier, and any other text
/// an error whose message depends on the text alone.
#[verifier::external_body]
pub(crate) fn read_txid(text: &str) -> (txid: Result<[u8; 32], String>)
    ensures
        match txid {
            Ok(h) => is_hash_text(text@) && h@ == hash_of_text(text@),
            Err(message) => !is_hash_text(text@) && message@ == txid_error(text@),
        },
{
    match Txid::from_str(text) {
        Ok(txid) => Ok(txid.to_byte_array()),
        Err(error) => Err(error.to_string()),
    }
}

/// What `Wtxid::from_str` reports of a text that stands for no witness transaction identifier.
pub uninterp spec fn wtxid_error(text: Seq<char>) -> Seq<char>;

/// Calls `Wtxid::from_str`. Claimed: 64 hexadecimal digits give the identifier, and any other
/// text an error whose message depends on the text alone.
#[verifier::external_body]
pub(crate) fn read_wtxid(text: &str) -> (wtxid: Result<[u8; 32], String>)
    ensures
        match wtxid {
            Ok(h) => is_hash_text(text@) && h@ == hash_of_text(text@),
            Err(message) => !is_hash_text(text@) && message@ == wtxid_error(text@),
        },
{
    match Wtxid::from_str(text) {
        Ok(wtxid) => Ok(wtxid.to_byte_array()),
        Err(error) => Err(error.to_string()),
    }
}

/// Calls `BlockHash::to_string`. Claimed: the text is the hexadecimal notation of the bytes in
/// the opposite order.
#[verifier::external_body]
pub(crate) fn block_hash_text(hash: [u8; 32]) -> (text: String)
    ensures
        text@ == hash_text(hash@),
{
    BlockHash::from_byte_array(hash).to_string()
}

/// A transaction that was read from its bytes.
#[derive(Clone, Debug)]
pub struct DecodedTransaction {
    /// The identifier, which leaves witnesses out.
    pub txid: [u8; 32],
    /// The identifier that takes witnesses in.
    pub wtxid: [u8; 32],
    /// The bytes of the transaction.
    pub encoding: Vec<u8>,
}

/// What `consensus::deserialize` reports of bytes that are no transaction; `None` if they are one.
pub uninterp spec fn transaction_fault(bytes: Seq<u8>) -> Option<Seq<char>>;

/// The identifier of the transaction that `bytes` encode, as `Transaction::compute_txid` gives it.
pub uninterp spec fn transaction_id(bytes: Seq<u8>) -> Seq<u8>;

/// Reads a transaction with `consensus::deserialize`, takes its identifiers with
/// `Transaction::compute_txid` and `Transaction::compute_wtxid`, and writes it again with
/// `consensus::serialize`. Claimed: whether the bytes are a transaction, the message if they are
/// none, and the identifier depend on the bytes alone; the witness identifier is the double
/// SHA-256 digest of the bytes; and writing gives back the bytes that were read, since the crate
/// accepts no encoding but the one it writes.
#[verifier::external_body]
pub(crate) fn read_transaction(bytes: &[u8]) -> (read: Result<DecodedTransaction, String>)
    ensures
        match read {
            Ok(t) => {
                &&& transaction_fault(bytes@) is None
                &&& t.txid@ == transaction_id(bytes@)
                &&& t.wtxid@ == crate::hashing::sha256d_digest(bytes@)
                &&& t.encoding@ == bytes@
            },
            Err(message) => transaction_fault(bytes@) == Some(message@),
        },
{
    let outcome: Result<Transaction, _> = deserialize(bytes);
    match outcome {
        Ok(transaction) => Ok(
            DecodedTransaction {
                txid: transaction.compute_txid().to_byte_array(),
                wtxid: transaction.compute_wtxid().to_byte_array(),
                encoding: serialize(&transaction),
            },
        ),
        Err(error) => Err(error.to_string()),
    }
}

/// The bytes of a number without zeros at the high end, the lowest first.
pub open spec fn minimal_bytes(n: nat) -> Seq<u8>
    decreases n,
{
    if n < 256 {
        seq![n as u8]
    } else {
        seq![(n % 256) as u8] + minimal_bytes(n / 256)
    }
}

/// A number other than zero as script data: its magnitude, with the sign in the highest bit of
/// the last byte, for which a byte is added if the bit is taken.
pub open spec fn script_number(n: int) -> Seq<u8> {
    let magnitude = minimal_bytes(if n < 0 { -n } else { n } as nat);
    let sign = if n < 0 { 0x80int } else { 0int };
    if magnitude.last() >= 0x80 {
        magnitude.push(sign as u8)
    } else {
        magnitude.update(magnitude.len() - 1, (magnitude.last() + sign) as u8)
    }
}

/// The script that pushes a number: one operation for the numbers from -1 to 16, or else the
/// length of its data and the data.
pub open spec fn push_number(n: int) -> Seq<u8> {
    if n == 0 {
        seq![0u8]
    } else if n == -1 || 1 <= n <= 16 {
        seq![(0x50 + n) as u8]
    } else {
        seq![script_number(n).len() as u8] + script_number(n)
    }
}

/// Calls `Builder::push_int` on an empty script. Claimed: the script pushes the number as
/// [`push_number`] says. The least 64-bit number does not fit the eight bytes that the crate sets
/// aside.
#[verifier::external_body]
pub(crate) fn script_pushing(n: i64) -> (script: Vec<u8>)
    requires
        n > i64::MIN,
    ensures
        script@ == push_number(n as int),
{
    Builder::new().push_int(n).into_script().into_bytes()
}

/// Calls `consensus::serialize` on a `VarInt`. Claimed: the bytes are those of Bitcoin's
/// variable-length integer.
#[verifier::external_body]
pub(crate) fn encode_compact_size(n: u64) -> (bytes: Vec<u8>)
    ensures
        bytes@ == crate::encoding::compact_size(n as nat),
{
    serialize(&VarInt(n))
}

/// The bytes of an output: its value in eight bytes, the length of its script, and the script.
pub open spec fn output_bytes(output: crate::work::Output) -> Seq<u8> {
    crate::encoding::little_endian(output.value as nat, 8) + crate::encoding::compact_size(
        output.script.len(),
    ) + output.script
}

/// The bytes of all outputs, one behind the other.
pub open spec fn joined_outputs(outputs: Seq<crate::work::Output>) -> Seq<u8>
    decreases outputs.len(),
{
    if outputs.len() == 0 {
        Seq::empty()
    } else {
        joined_outputs(outputs.drop_last()) + output_bytes(outputs.last())
    }
}

/// Calls `consensus::serialize` on an output. Claimed: value, length of the script and script
/// follow each other.
#[verifier::external_body]
pub(crate) fn encode_output(output: &TxOut) -> (bytes: Vec<u8>)
    ensures
        bytes@ == output_bytes(output@),
{
    serialize(
        &transaction::TxOut {
            value: Amount::from_sat(output.value),
            script_pubkey: ScriptBuf::from_bytes(output.script_pubkey.clone()),
        },
    )
}

/// A transaction with one input, whose witness is one byte string.
#[derive(Clone, Debug)]
pub struct OneInputTransaction {
    pub version: u32,
    pub lock_time: u32,
    /// The transaction that the input spends of.
    pub previous_txid: [u8; 32],
    /// The index of the output that it spends.
    pub previous_index: u32,
    pub script_sig: Vec<u8>,
    pub sequence: u32,
    pub witness: Vec<u8>,
    pub outputs: Vec<TxOut>,
}

/// `count` zero bytes.
pub open spec fn zero_bytes(count: nat) -> Seq<u8> {
    Seq::new(count, |i: int| 0u8)
}

/// The input of a transaction.
pub ghost struct Input {
    pub previous_txid: Seq<u8>,
    pub previous_index: u32,
    pub script_sig: Seq<u8>,
    pub sequence: u32,
    pub witness: Seq<u8>,
}

impl OneInputTransaction {
    /// The input of the transaction.
    pub open spec fn input(self) -> Input {
        Input {
            previous_txid: self.previous_txid@,
            previous_index: self.previous_index,
            script_sig: self.script_sig@,
            sequence: self.sequence,
            witness: self.witness@,
        }
    }
}

/// The bytes of a transaction with one input, with its witness.
pub open spec fn one_input_bytes(
    version: u32,
    lock_time: u32,
    input: Input,
    outputs: Seq<crate::work::Output>,
) -> Seq<u8> {
    crate::encoding::little_endian(version as nat, 4) + seq![0u8, 1u8, 1u8] + input.previous_txid
        + crate::encoding::little_endian(input.previous_index as nat, 4)
        + crate::encoding::compact_size(input.script_sig.len()) + input.script_sig
        + crate::encoding::little_endian(input.sequence as nat, 4)
        + crate::encoding::compact_size(outputs.len()) + joined_outputs(outputs) + seq![1u8]
        + crate::encoding::compact_size(input.witness.len()) + input.witness
        + crate::encoding::little_endian(lock_time as nat, 4)
}

/// The bytes of a coinbase transaction, with its witness: its one input spends nothing, which is an
/// output with the greatest index of a transaction whose identifier is zero, and has a witness of 32
/// zero bytes.
pub open spec fn coinbase_bytes(
    version: u32,
    lock_time: u32,
    sequence: u32,
    script_sig: Seq<u8>,
    outputs: Seq<crate::work::Output>,
) -> Seq<u8> {
    one_input_bytes(
        version,
        lock_time,
        Input {
            previous_txid: zero_bytes(32),
            previous_index: u32::MAX,
            script_sig,
            sequence,
            witness: zero_bytes(32),
        },
        outputs,
    )
}

/// Calls `consensus::serialize` on a transaction with one input. Claimed: the bytes are those of the
/// encoding with witnesses.
#[verifier::external_body]
pub(crate) fn encode_transaction(transaction: &OneInputTransaction) -> (bytes: Vec<u8>)
    ensures
        bytes@ == one_input_bytes(
            transaction.version,
            transaction.lock_time,
            transaction.input(),
            crate::work::outputs_of(transaction.outputs@),
        ),
{
    let pay = |o: &TxOut| transaction::TxOut {
        value: Amount::from_sat(o.value),
        script_pubkey: ScriptBuf::from_bytes(o.script_pubkey.clone()),
    };
    let script_sig = ScriptBuf::from_bytes(transaction.script_sig.clone());
    let witness = Witness::from(vec![transaction.witness.clone()]);
    let sequence = Sequence(transaction.sequence);
    let txid = Txid::from_byte_array(transaction.previous_txid);
    let previous_output = OutPoint { txid, vout: transaction.previous_index };
    serialize(&Transaction {
        version: transaction::Version::non_standard(transaction.version as i32),
        lock_time: LockTime::from_consensus(transaction.lock_time),
        input: vec![TxIn { previous_output, script_sig, sequence, witness }],
        output: transaction.outputs.iter().map(pay).collect(),
    })
}

/// The bytes of a coinbase transaction, with its witness.
pub(crate) fn encode_coinbase(
    version: u32,
    lock_time: u32,
    sequence: u32,
    script_sig: Vec<u8>,
    outputs: Vec<TxOut>,
) -> (bytes: Vec<u8>)
    ensures
        bytes@ == coinbase_bytes(
            version,
            lock_time,
            sequence,
            script_sig@,
            crate::work::outputs_of(outputs@),
        ),
{
    let nothing: [u8; 32] = [0u8; 32];
    let witness: Vec<u8> = vec![0u8; 32];
    assert(nothing@ =~= zero_bytes(32));
    assert(witness@ =~= zero_bytes(32));
    encode_transaction(
        &OneInputTransaction {
            version,
            lock_time,
            previous_txid: nothing,
            previous_index: u32::MAX,
            script_sig,
            sequence,
            witness,
            outputs,
        },
    )
}

/// The input of a coinbase transaction spends nothing: the transaction is one whose single input
/// names an output with the greatest index of a transaction with an identifier of 32 zero bytes,
/// and has 32 zero bytes as its witness.
pub proof fn coinbases_spend_nothing(
    version: u32,
    lock_time: u32,
    outputs: Seq<crate::work::Output>,
    input: Input,
)
    requires
        input.previous_txid.len() == 32,
        input.witness.len() == 32,
        forall|k: int| 0 <= k < 32 ==> #[trigger] input.previous_txid[k] == 0,
        forall|k: int| 0 <= k < 32 ==> #[trigger] input.witness[k] == 0,
        input.previous_index == 0xffff_ffff,
    ensures
        coinbase_bytes(version, lock_time, input.sequence, input.script_sig, outputs)
            == one_input_bytes(version, lock_time, input, outputs),
{
    assert(input.previous_txid =~= zero_bytes(32));
    assert(input.witness =~= zero_bytes(32));
}

} // verus!
