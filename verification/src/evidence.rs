//! Proofs of shares: everything the GridPool node needs to check a share by itself.

use crate::block::{block_hash_text, encode_coinbase, encode_header, read_transaction};
use crate::block::{BlockHeader, DecodedTransaction};
use crate::channel::{
    extended_active, extended_parts, extended_past, extended_tip, standard_active, standard_parts,
    standard_past, standard_tip, ChannelTip, ExtendedJobParts, StandardJobParts,
};
use crate::encoding::encode_hex;
use crate::hashing::extend_bytes;
use crate::merkle::apply_merkle_path;
use crate::message::{SubmitSharesExtended, SubmitSharesStandard};
use crate::number::Double;
use crate::template::copy_bytes;
use crate::work::{ChannelPayout, ShareSubmission, TxOut};
use stratum_apps::stratum_core::channels_sv2::server::extended::ExtendedChannel;
use stratum_apps::stratum_core::channels_sv2::server::jobs::extended::ExtendedJob;
use stratum_apps::stratum_core::channels_sv2::server::jobs::standard::StandardJob;
use stratum_apps::stratum_core::channels_sv2::server::standard::StandardChannel;
use vstd::prelude::*;
use vstd::string::StringExecFns;

verus! {

/// The greatest length of the tag of the pool in the coinbase.
pub const MAX_TAG_BYTES: usize = 61;

/// A [`ShareSubmission`] with sequences in place of lists and texts.
pub ghost struct Submission {
    pub miner_address: Seq<char>,
    pub username: Seq<char>,
    pub header_hex: Seq<char>,
    pub coinbase_hex: Seq<char>,
    pub merkle_path: Seq<Seq<char>>,
    pub payout_snapshot_id: Option<Seq<char>>,
    pub prev_block_hash: Option<Seq<char>>,
    pub difficulty: Double,
}

/// The texts of a list.
pub open spec fn texts(list: Seq<String>) -> Seq<Seq<char>> {
    list.map_values(|text: String| text@)
}

impl View for ShareSubmission {
    type V = Submission;

    open spec fn view(&self) -> Submission {
        Submission {
            miner_address: self.miner_address@,
            username: self.username@,
            header_hex: self.header_hex@,
            coinbase_hex: self.coinbase_hex@,
            merkle_path: texts(self.merkle_path@),
            payout_snapshot_id: crate::rpc::optional_text(self.payout_snapshot_id),
            prev_block_hash: crate::rpc::optional_text(self.prev_block_hash),
            difficulty: self.difficulty,
        }
    }
}

/// Whether a result is the proof that `expected` says.
pub open spec fn same_proof(result: Option<ShareSubmission>, expected: Option<Submission>) -> bool {
    match result {
        Some(proof) => expected == Some(proof@),
        None => expected is None,
    }
}

/// Each hash of a path in hexadecimal notation.
pub open spec fn path_texts(path: Seq<Seq<u8>>) -> Seq<Seq<char>> {
    path.map_values(|node: Seq<u8>| crate::encoding::hex_text(node))
}

/// The proof of a share with the given header, coinbase and path.
pub open spec fn submission(
    payout: ChannelPayout,
    header: crate::block::HeaderFields,
    coinbase: Seq<u8>,
    path: Seq<Seq<u8>>,
    difficulty: Double,
) -> Submission {
    Submission {
        miner_address: payout.payout_address@,
        username: payout.username@,
        header_hex: crate::encoding::hex_text(crate::block::header_bytes(header)),
        coinbase_hex: crate::encoding::hex_text(coinbase),
        merkle_path: path_texts(path),
        payout_snapshot_id: None,
        prev_block_hash: Some(crate::block::hash_text(header.prev_hash)),
        difficulty,
    }
}

/// Whether a proof holds the header with the given parts whose Merkle root follows from the coinbase
/// and the path that it holds, on the chain tip that it names.
pub open spec fn is_checkable(
    proof: Submission,
    version: u32,
    time: u32,
    bits: u32,
    nonce: u32,
) -> bool {
    let coinbase = crate::encoding::hex_bytes(proof.coinbase_hex);
    let path = proof.merkle_path.map_values(|text: Seq<char>| crate::encoding::hex_bytes(text));
    let header = crate::block::HeaderFields {
        version,
        prev_hash: crate::block::hash_of_text(proof.prev_block_hash->0),
        merkle_root: crate::merkle::climb(crate::block::transaction_id(coinbase), path),
        time,
        bits,
        nonce,
    };
    crate::encoding::hex_bytes(proof.header_hex) == crate::block::header_bytes(header)
}

/// Whether a proof tells the difficulty that the header it holds reaches.
pub open spec fn tells_its_difficulty(proof: Submission) -> bool {
    proof.difficulty.bits == crate::channel::difficulty_bits(
        crate::hashing::sha256d_digest(crate::encoding::hex_bytes(proof.header_hex)),
    )
}

/// A proof with the difficulty of its header's hash tells the difficulty that the header reaches.
pub(crate) proof fn lemma_tells_its_difficulty(
    payout: ChannelPayout,
    header: crate::block::HeaderFields,
    coinbase: Seq<u8>,
    path: Seq<Seq<u8>>,
    difficulty: Double,
)
    requires
        difficulty.bits == crate::channel::difficulty_bits(
            crate::hashing::sha256d_digest(crate::block::header_bytes(header)),
        ),
    ensures
        tells_its_difficulty(submission(payout, header, coinbase, path, difficulty)),
{
    crate::encoding::hex_round_trip(crate::block::header_bytes(header));
}

/// A proof with the Merkle root of its coinbase can be checked.
proof fn lemma_checkable(
    payout: ChannelPayout,
    header: crate::block::HeaderFields,
    coinbase: Seq<u8>,
    path: Seq<Seq<u8>>,
    difficulty: Double,
)
    requires
        header.prev_hash.len() == 32,
        header.merkle_root == crate::merkle::climb(crate::block::transaction_id(coinbase), path),
    ensures
        is_checkable(
            submission(payout, header, coinbase, path, difficulty),
            header.version,
            header.time,
            header.bits,
            header.nonce,
        ),
{
    let proof = submission(payout, header, coinbase, path, difficulty);
    crate::encoding::hex_round_trip(coinbase);
    crate::block::hash_text_round_trip(header.prev_hash);
    let read = proof.merkle_path.map_values(|text: Seq<char>| crate::encoding::hex_bytes(text));
    assert forall|k: int| 0 <= k < path.len() implies read[k] == path[k] by {
        crate::encoding::hex_round_trip(path[k]);
    }
    assert(read =~= path);
    crate::encoding::hex_round_trip(crate::block::header_bytes(header));
}

/// Each hash of a path in hexadecimal notation.
fn path_strings(path: &Vec<[u8; 32]>) -> (list: Vec<String>)
    ensures
        texts(list@) == path_texts(crate::merkle::node_bytes(path@)),
{
    let ghost expected = path_texts(crate::merkle::node_bytes(path@));
    let mut list: Vec<String> = Vec::new();
    let mut i: usize = 0;
    while i < path.len()
        invariant
            i <= path@.len(),
            expected == path_texts(crate::merkle::node_bytes(path@)),
            list@.len() == i,
            forall|k: int| 0 <= k < i ==> (#[trigger] list@[k])@ == expected[k],
        decreases path@.len() - i,
    {
        let node = path[i];
        list.push(encode_hex(node.as_slice()));
        assert(crate::merkle::node_bytes(path@)[i as int] == node@);
        i = i + 1;
    }
    assert(texts(list@) =~= expected);
    list
}

/// The proof of a share with the given header, coinbase and path.
fn submit(
    payout: &ChannelPayout,
    header: &BlockHeader,
    coinbase: &Vec<u8>,
    path: &Vec<[u8; 32]>,
    difficulty: Double,
) -> (proof: ShareSubmission)
    ensures
        proof@ == submission(
            *payout,
            header@,
            coinbase@,
            crate::merkle::node_bytes(path@),
            difficulty,
        ),
{
    ShareSubmission {
        miner_address: payout.payout_address.clone(),
        username: payout.username.clone(),
        header_hex: encode_hex(encode_header(header).as_slice()),
        coinbase_hex: encode_hex(coinbase.as_slice()),
        merkle_path: path_strings(path),
        payout_snapshot_id: None,
        prev_block_hash: Some(block_hash_text(header.prev_hash)),
        difficulty,
    }
}

/// The tag that the pool puts into the coinbase.
pub open spec fn tag_bytes(pool_tag: Seq<char>) -> Seq<u8> {
    vstd::utf8::encode_utf8("/"@ + pool_tag + "//"@)
}

/// The script of the coinbase of a standard job: the prefix of the template, the tag of the pool
/// behind its length, and the extranonce behind its length.
pub open spec fn standard_script(pool_tag: Seq<char>, job: crate::channel::StandardFields) -> Seq<
    u8,
> {
    job.coinbase_prefix + seq![tag_bytes(pool_tag).len() as u8] + tag_bytes(pool_tag) + seq![
        (job.extranonce_prefix.len() % 256) as u8,
    ] + job.extranonce_prefix
}

/// The header that a share of a standard job solves.
pub open spec fn standard_header(
    job: crate::channel::StandardFields,
    tip: crate::channel::Tip,
    share: SubmitSharesStandard,
) -> crate::block::HeaderFields {
    crate::block::HeaderFields {
        version: share.version,
        prev_hash: tip.prev_hash,
        merkle_root: job.merkle_root,
        time: share.ntime,
        bits: tip.nbits,
        nonce: share.nonce,
    }
}

/// The proof of a share of a standard job. There is none if the tag of the pool is too long.
pub open spec fn standard_proof(
    pool_tag: Seq<char>,
    job: crate::channel::StandardFields,
    tip: crate::channel::Tip,
    share: SubmitSharesStandard,
    payout: ChannelPayout,
    difficulty: Double,
) -> Option<Submission> {
    if tag_bytes(pool_tag).len() > MAX_TAG_BYTES {
        None
    } else {
        Some(
            submission(
                payout,
                standard_header(job, tip, share),
                standard_coinbase(pool_tag, job),
                job.merkle_path,
                difficulty,
            ),
        )
    }
}

/// The coinbase of a standard job.
pub open spec fn standard_coinbase(pool_tag: Seq<char>, job: crate::channel::StandardFields) -> Seq<
    u8,
> {
    crate::block::coinbase_bytes(
        job.coinbase_tx_version,
        job.coinbase_tx_locktime,
        job.coinbase_tx_input_sequence,
        standard_script(pool_tag, job),
        job.coinbase_outputs,
    )
}

/// A proof of a share of a standard job can be checked by itself, if the Merkle root of the job is
/// that of its coinbase with the tag of the pool: from the coinbase and the path that the proof
/// holds follows the Merkle root in the header that it holds, and the header is that of the share
/// on the chain tip that it names.
pub proof fn standard_proofs_can_be_checked(
    pool_tag: Seq<char>,
    job: crate::channel::StandardFields,
    tip: crate::channel::Tip,
    share: SubmitSharesStandard,
    payout: ChannelPayout,
    difficulty: Double,
)
    requires
        standard_proof(pool_tag, job, tip, share, payout, difficulty) is Some,
        job.merkle_root == crate::merkle::climb(
            crate::block::transaction_id(standard_coinbase(pool_tag, job)),
            job.merkle_path,
        ),
        tip.prev_hash.len() == 32,
    ensures
        is_checkable(
            standard_proof(pool_tag, job, tip, share, payout, difficulty)->0,
            share.version,
            share.ntime,
            tip.nbits,
            share.nonce,
        ),
{
    lemma_checkable(
        payout,
        standard_header(job, tip, share),
        standard_coinbase(pool_tag, job),
        job.merkle_path,
        difficulty,
    );
}

/// The job that a share is for: the active one if it has the id, or else the past one with it.
pub open spec fn job_of_share<J>(active: Option<J>, is_active: bool, past: Option<J>) -> Option<J> {
    if active is Some && is_active {
        active
    } else {
        past
    }
}

/// The job of a standard channel that a share is for.
pub open spec fn standard_job_of(channel: StandardChannel<'static>, job_id: u32) -> Option<
    StandardJob<'static>,
> {
    let active = crate::channel::standard_active_of(channel);
    job_of_share(
        active,
        crate::channel::standard_fields_of(active->0).job_id == job_id,
        crate::channel::standard_past_of(channel, job_id),
    )
}

/// The header that a share of a standard channel solves. There is none without the job of the share
/// or without a chain tip.
pub open spec fn standard_channel_header(
    channel: StandardChannel<'static>,
    share: SubmitSharesStandard,
) -> Option<crate::block::HeaderFields> {
    match (
        standard_job_of(channel, share.job_id),
        crate::channel::standard_tip_of(channel),
    ) {
        (Some(job), Some(tip)) => Some(
            standard_header(crate::channel::standard_fields_of(job), tip, share),
        ),
        _ => None,
    }
}

/// The proof of a share of a standard channel. There is none without the job of the share or
/// without a chain tip.
pub open spec fn standard_channel_proof(
    pool_tag: Seq<char>,
    channel: StandardChannel<'static>,
    share: SubmitSharesStandard,
    payout: ChannelPayout,
    difficulty: Double,
) -> Option<Submission> {
    match (
        standard_job_of(channel, share.job_id),
        crate::channel::standard_tip_of(channel),
    ) {
        (Some(j), Some(tip)) => standard_proof(
            pool_tag,
            crate::channel::standard_fields_of(j),
            tip,
            share,
            payout,
            difficulty,
        ),
        _ => None,
    }
}

/// A copy of outputs.
fn copy_outputs(outputs: &Vec<TxOut>) -> (copy: Vec<TxOut>)
    ensures
        crate::work::outputs_of(copy@) == crate::work::outputs_of(outputs@),
{
    let ghost expected = crate::work::outputs_of(outputs@);
    let mut copy: Vec<TxOut> = Vec::new();
    let mut i: usize = 0;
    while i < outputs.len()
        invariant
            i <= outputs@.len(),
            expected == crate::work::outputs_of(outputs@),
            copy@.len() == i,
            forall|k: int| 0 <= k < i ==> (#[trigger] copy@[k])@ == expected[k],
        decreases outputs@.len() - i,
    {
        let output = &outputs[i];
        copy.push(
            TxOut { value: output.value, script_pubkey: copy_bytes(&output.script_pubkey) },
        );
        assert(expected[i as int] == output@);
        i = i + 1;
    }
    assert(crate::work::outputs_of(copy@) =~= expected);
    copy
}

/// The proof of a share of a standard job.
pub fn prove_standard(
    pool_tag: &str,
    job: &StandardJobParts,
    tip: ChannelTip,
    share: &SubmitSharesStandard,
    payout: &ChannelPayout,
    difficulty: Double,
) -> (proof: Option<ShareSubmission>)
    ensures
        same_proof(proof, standard_proof(pool_tag@, job@, tip@, *share, *payout, difficulty)),
{
    let mut text = "/".to_owned();
    text.append(pool_tag);
    text.append("//");
    let tag = text.as_str().as_bytes();
    assert(tag@ == tag_bytes(pool_tag@));
    if tag.len() > MAX_TAG_BYTES {
        return None;
    }
    let mut script: Vec<u8> = Vec::new();
    extend_bytes(&mut script, job.coinbase_prefix.as_slice());
    script.push(tag.len() as u8);
    extend_bytes(&mut script, tag);
    script.push((job.extranonce_prefix.len() % 256) as u8);
    extend_bytes(&mut script, job.extranonce_prefix.as_slice());
    assert(script@ =~= standard_script(pool_tag@, job@));
    let bytes = encode_coinbase(
        job.coinbase_tx_version,
        job.coinbase_tx_locktime,
        job.coinbase_tx_input_sequence,
        script,
        copy_outputs(&job.coinbase_outputs),
    );
    let header = BlockHeader {
        version: share.version,
        prev_hash: tip.prev_hash,
        merkle_root: job.merkle_root,
        time: share.ntime,
        bits: tip.nbits,
        nonce: share.nonce,
    };
    Some(submit(payout, &header, &bytes, &job.merkle_path, difficulty))
}

/// The proof of a share of a standard channel.
pub fn build_standard_gridpool_proof(
    pool_tag: &str,
    channel: &StandardChannel<'static>,
    share: &SubmitSharesStandard,
    payout: &ChannelPayout,
    achieved_difficulty: Double,
) -> (proof: Option<ShareSubmission>)
    ensures
        same_proof(
            proof,
            standard_channel_proof(pool_tag@, *channel, *share, *payout, achieved_difficulty),
        ),
{
    let mut job = None;
    if let Some(active) = standard_active(channel) {
        let parts = standard_parts(active);
        if parts.job_id == share.job_id {
            job = Some(parts);
        }
    }
    if job.is_none() {
        if let Some(past) = standard_past(channel, share.job_id) {
            job = Some(standard_parts(past));
        }
    }
    match (job, standard_tip(channel)) {
        (Some(parts), Some(tip)) => prove_standard(
            pool_tag,
            &parts,
            tip,
            share,
            payout,
            achieved_difficulty,
        ),
        _ => None,
    }
}

/// The coinbase of a share of an extended job, without witness data.
pub open spec fn extended_coinbase(
    job: crate::channel::ExtendedFields,
    extranonce: Seq<u8>,
) -> Seq<u8> {
    job.coinbase_tx_prefix + job.extranonce_prefix + extranonce + job.coinbase_tx_suffix
}

/// The header that a share of an extended job solves, when its coinbase has the identifier `txid`.
pub open spec fn extended_header(
    job: crate::channel::ExtendedFields,
    tip: crate::channel::Tip,
    share: crate::channel::ExtendedShare,
    txid: Seq<u8>,
) -> crate::block::HeaderFields {
    crate::block::HeaderFields {
        version: share.version,
        prev_hash: tip.prev_hash,
        merkle_root: crate::merkle::climb(txid, job.merkle_path),
        time: share.ntime,
        bits: tip.nbits,
        nonce: share.nonce,
    }
}

/// The proof of a share of an extended job whose coinbase has the identifier `txid`.
pub open spec fn extended_submission(
    job: crate::channel::ExtendedFields,
    tip: crate::channel::Tip,
    share: crate::channel::ExtendedShare,
    txid: Seq<u8>,
    payout: ChannelPayout,
    difficulty: Double,
) -> Submission {
    submission(
        payout,
        extended_header(job, tip, share, txid),
        extended_coinbase(job, share.extranonce),
        job.merkle_path,
        difficulty,
    )
}

/// The proof of a share of an extended job. There is none if its coinbase is no transaction.
pub open spec fn extended_proof(
    job: crate::channel::ExtendedFields,
    tip: crate::channel::Tip,
    share: crate::channel::ExtendedShare,
    payout: ChannelPayout,
    difficulty: Double,
) -> Option<Submission> {
    let coinbase = extended_coinbase(job, share.extranonce);
    match crate::block::transaction_fault(coinbase) {
        Some(_) => None,
        None => Some(
            extended_submission(
                job,
                tip,
                share,
                crate::block::transaction_id(coinbase),
                payout,
                difficulty,
            ),
        ),
    }
}

/// The job of an extended channel that a share is for.
pub open spec fn extended_job_of(channel: ExtendedChannel<'static>, job_id: u32) -> Option<
    ExtendedJob<'static>,
> {
    let active = crate::channel::extended_active_of(channel);
    job_of_share(
        active,
        crate::channel::extended_fields_of(active->0).job_id == job_id,
        crate::channel::extended_past_of(channel, job_id),
    )
}

/// The header that a share of an extended channel solves. There is none without the job of the
/// share, without a chain tip, or if the coinbase of the share is no transaction.
pub open spec fn extended_channel_header(
    channel: ExtendedChannel<'static>,
    share: crate::channel::ExtendedShare,
) -> Option<crate::block::HeaderFields> {
    match (
        extended_job_of(channel, share.job_id),
        crate::channel::extended_tip_of(channel),
    ) {
        (Some(job), Some(tip)) => {
            let fields = crate::channel::extended_fields_of(job);
            let coinbase = extended_coinbase(fields, share.extranonce);
            match crate::block::transaction_fault(coinbase) {
                Some(_) => None,
                None => Some(
                    extended_header(fields, tip, share, crate::block::transaction_id(coinbase)),
                ),
            }
        },
        _ => None,
    }
}

/// The proof of a share of an extended channel. There is none without the job of the share or
/// without a chain tip.
pub open spec fn extended_channel_proof(
    channel: ExtendedChannel<'static>,
    share: crate::channel::ExtendedShare,
    payout: ChannelPayout,
    difficulty: Double,
) -> Option<Submission> {
    match (
        extended_job_of(channel, share.job_id),
        crate::channel::extended_tip_of(channel),
    ) {
        (Some(j), Some(tip)) => extended_proof(
            crate::channel::extended_fields_of(j),
            tip,
            share,
            payout,
            difficulty,
        ),
        _ => None,
    }
}

/// The coinbase of a share of an extended job, without witness data.
fn join_coinbase(job: &ExtendedJobParts, extranonce: &Vec<u8>) -> (bytes: Vec<u8>)
    ensures
        bytes@ == extended_coinbase(job@, extranonce@),
{
    let mut bytes: Vec<u8> = Vec::new();
    extend_bytes(&mut bytes, job.coinbase_tx_prefix.as_slice());
    extend_bytes(&mut bytes, job.extranonce_prefix.as_slice());
    extend_bytes(&mut bytes, extranonce.as_slice());
    extend_bytes(&mut bytes, job.coinbase_tx_suffix.as_slice());
    assert(bytes@ =~= extended_coinbase(job@, extranonce@));
    bytes
}

/// The proof of a share of an extended job, when its coinbase was read as `read` says.
pub fn prove_extended(
    job: &ExtendedJobParts,
    tip: ChannelTip,
    share: &SubmitSharesExtended,
    read: Result<DecodedTransaction, String>,
    payout: &ChannelPayout,
    difficulty: Double,
) -> (proof: Option<ShareSubmission>)
    ensures
        same_proof(
            proof,
            match read {
                Ok(transaction) => Some(
                    extended_submission(
                        job@,
                        tip@,
                        share@,
                        transaction.txid@,
                        *payout,
                        difficulty,
                    ),
                ),
                Err(_) => None,
            },
        ),
{
    match read {
        Ok(transaction) => {
            let header = BlockHeader {
                version: share.version,
                prev_hash: tip.prev_hash,
                merkle_root: apply_merkle_path(transaction.txid, job.merkle_path.as_slice()),
                time: share.ntime,
                bits: tip.nbits,
                nonce: share.nonce,
            };
            let coinbase = join_coinbase(job, &share.extranonce);
            Some(submit(payout, &header, &coinbase, &job.merkle_path, difficulty))
        },
        Err(_) => None,
    }
}

/// The proof of a share of an extended channel.
pub fn build_extended_gridpool_proof(
    channel: &ExtendedChannel<'static>,
    share: &SubmitSharesExtended,
    payout: &ChannelPayout,
    achieved_difficulty: Double,
) -> (proof: Option<ShareSubmission>)
    ensures
        same_proof(
            proof,
            extended_channel_proof(*channel, share@, *payout, achieved_difficulty),
        ),
        proof matches Some(p) ==> is_checkable(
            p@,
            share.version,
            share.ntime,
            crate::channel::extended_tip_of(*channel)->0.nbits,
            share.nonce,
        ),
{
    let mut job = None;
    if let Some(active) = extended_active(channel) {
        let parts = extended_parts(active);
        if parts.job_id == share.job_id {
            job = Some(parts);
        }
    }
    if job.is_none() {
        if let Some(past) = extended_past(channel, share.job_id) {
            job = Some(extended_parts(past));
        }
    }
    match (job, extended_tip(channel)) {
        (Some(parts), Some(tip)) => {
            let read = read_transaction(join_coinbase(&parts, &share.extranonce).as_slice());
            proof {
                if read is Ok {
                    extended_proofs_can_be_checked(
                        parts@,
                        tip@,
                        share@,
                        *payout,
                        achieved_difficulty,
                    );
                }
            }
            prove_extended(&parts, tip, share, read, payout, achieved_difficulty)
        },
        _ => None,
    }
}

/// A proof of a share of an extended job can be checked by itself: from the coinbase and the path
/// that it holds follows the Merkle root in the header that it holds, and the header is that of
/// the share on the chain tip that it names.
pub proof fn extended_proofs_can_be_checked(
    job: crate::channel::ExtendedFields,
    tip: crate::channel::Tip,
    share: crate::channel::ExtendedShare,
    payout: ChannelPayout,
    difficulty: Double,
)
    requires
        extended_proof(job, tip, share, payout, difficulty) is Some,
        tip.prev_hash.len() == 32,
    ensures
        is_checkable(
            extended_proof(job, tip, share, payout, difficulty)->0,
            share.version,
            share.ntime,
            tip.nbits,
            share.nonce,
        ),
{
    let coinbase = extended_coinbase(job, share.extranonce);
    lemma_checkable(
        payout,
        extended_header(job, tip, share, crate::block::transaction_id(coinbase)),
        coinbase,
        job.merkle_path,
        difficulty,
    );
}

/// The job of a standard channel that a share is for has the id that the share names, if it is
/// the active one; a job that is not active any more is looked up under that id. There is none if
/// the channel has no such job.
pub proof fn standard_shares_are_for_the_job_they_name(
    channel: StandardChannel<'static>,
    job_id: u32,
)
    ensures
        ({
            let active = crate::channel::standard_active_of(channel);
            let found = standard_job_of(channel, job_id);
            let named = active is Some && crate::channel::standard_fields_of(active->0).job_id
                == job_id;
            &&& named ==> found == active
            &&& !named ==> found == crate::channel::standard_past_of(channel, job_id)
        }),
{
}

/// The job of an extended channel that a share is for has the id that the share names, if it is
/// the active one; a job that is not active any more is looked up under that id. There is none if
/// the channel has no such job.
pub proof fn extended_shares_are_for_the_job_they_name(
    channel: ExtendedChannel<'static>,
    job_id: u32,
)
    ensures
        ({
            let active = crate::channel::extended_active_of(channel);
            let found = extended_job_of(channel, job_id);
            let named = active is Some && crate::channel::extended_fields_of(active->0).job_id
                == job_id;
            &&& named ==> found == active
            &&& !named ==> found == crate::channel::extended_past_of(channel, job_id)
        }),
{
}

/// A proof names whom the share is for, and holds the bytes of the header, of the coinbase and of
/// each hash of the path in hexadecimal notation, the path in its order. It names the block below by
/// its hash with the bytes turned round, and no payout snapshot.
pub proof fn proofs_hold_what_was_mined(
    payout: ChannelPayout,
    header: crate::block::HeaderFields,
    coinbase: Seq<u8>,
    path: Seq<Seq<u8>>,
    difficulty: Double,
    proof: ShareSubmission,
    k: int,
)
    requires
        proof@ == submission(payout, header, coinbase, path, difficulty),
        header.prev_hash.len() == 32,
    ensures
        proof.miner_address@ == payout.payout_address@,
        proof.username@ == payout.username@,
        crate::encoding::hex_bytes(proof.header_hex@) == crate::block::header_bytes(header),
        crate::encoding::hex_bytes(proof.coinbase_hex@) == coinbase,
        proof.merkle_path@.len() == path.len(),
        0 <= k < path.len() ==> crate::encoding::hex_bytes(proof.merkle_path@[k]@) == path[k],
        proof.payout_snapshot_id is None,
        proof.prev_block_hash is Some,
        crate::encoding::hex_bytes(proof.prev_block_hash->0@).reverse() == header.prev_hash,
        proof.difficulty == difficulty,
{
    crate::encoding::hex_round_trip(crate::block::header_bytes(header));
    crate::encoding::hex_round_trip(coinbase);
    crate::block::hash_text_round_trip(header.prev_hash);
    let listed = texts(proof.merkle_path@);
    assert(listed.len() == proof.merkle_path@.len());
    if 0 <= k < path.len() {
        crate::encoding::hex_round_trip(path[k]);
        assert(listed[k] == proof.merkle_path@[k]@);
        assert(listed[k] == path_texts(path)[k]);
    }
}

/// The header that a proof of a share of a standard job holds has the version, the time and the
/// nonce of the share, the chain tip's hash and bits, and the Merkle root of the job.
pub proof fn standard_proofs_hold_the_header_of_the_share(
    pool_tag: Seq<char>,
    job: crate::channel::StandardFields,
    tip: crate::channel::Tip,
    share: SubmitSharesStandard,
    payout: ChannelPayout,
    difficulty: Double,
    proof: ShareSubmission,
)
    requires
        standard_proof(pool_tag, job, tip, share, payout, difficulty) == Some(proof@),
    ensures
        crate::encoding::hex_bytes(proof.header_hex@) == crate::encoding::little_endian(
            share.version as nat,
            4,
        ) + tip.prev_hash + job.merkle_root + crate::encoding::little_endian(share.ntime as nat, 4)
            + crate::encoding::little_endian(tip.nbits as nat, 4) + crate::encoding::little_endian(
            share.nonce as nat,
            4,
        ),
        proof.difficulty == difficulty,
        proof.miner_address@ == payout.payout_address@,
        proof.username@ == payout.username@,
{
    crate::encoding::hex_round_trip(
        crate::block::header_bytes(standard_header(job, tip, share)),
    );
}

/// The header that a proof of a share of an extended job holds has the version, the time and the
/// nonce of the share, the chain tip's hash and bits, and the Merkle root that follows from the
/// coinbase, whose bytes are the job's own round its extranonce prefix and the extranonce of the
/// share.
pub proof fn extended_proofs_hold_the_header_of_the_share(
    job: crate::channel::ExtendedFields,
    tip: crate::channel::Tip,
    share: crate::channel::ExtendedShare,
    payout: ChannelPayout,
    difficulty: Double,
    proof: ShareSubmission,
)
    requires
        extended_proof(job, tip, share, payout, difficulty) == Some(proof@),
    ensures
        ({
            let coinbase = crate::encoding::hex_bytes(proof.coinbase_hex@);
            let inner = job.extranonce_prefix.len() + share.extranonce.len();
            let front = job.coinbase_tx_prefix.len() as int;
            let middle = front + job.extranonce_prefix.len();
            let back = front + inner;
            &&& coinbase.len() == back + job.coinbase_tx_suffix.len()
            &&& coinbase.subrange(0, front) == job.coinbase_tx_prefix
            &&& coinbase.subrange(front, middle) == job.extranonce_prefix
            &&& coinbase.subrange(middle, back) == share.extranonce
            &&& coinbase.skip(back) == job.coinbase_tx_suffix
            &&& crate::block::transaction_fault(coinbase) is None
            &&& crate::encoding::hex_bytes(proof.header_hex@) == crate::encoding::little_endian(
                share.version as nat,
                4,
            ) + tip.prev_hash + crate::merkle::climb(
                crate::block::transaction_id(coinbase),
                job.merkle_path,
            ) + crate::encoding::little_endian(share.ntime as nat, 4)
                + crate::encoding::little_endian(tip.nbits as nat, 4)
                + crate::encoding::little_endian(share.nonce as nat, 4)
        }),
        proof.difficulty == difficulty,
        proof.miner_address@ == payout.payout_address@,
        proof.username@ == payout.username@,
{
    let coinbase = extended_coinbase(job, share.extranonce);
    crate::encoding::hex_round_trip(coinbase);
    crate::encoding::hex_round_trip(
        crate::block::header_bytes(
            extended_header(job, tip, share, crate::block::transaction_id(coinbase)),
        ),
    );
    let front = job.coinbase_tx_prefix.len() as int;
    let middle = front + job.extranonce_prefix.len();
    let back = middle + share.extranonce.len();
    assert(coinbase.subrange(0, front) =~= job.coinbase_tx_prefix);
    assert(coinbase.subrange(front, middle) =~= job.extranonce_prefix);
    assert(coinbase.subrange(middle, back) =~= share.extranonce);
    assert(coinbase.skip(back) =~= job.coinbase_tx_suffix);
}

/// The script of the coinbase of a standard job starts with the prefix of the template and ends with
/// the extranonce. Between them stands the tag of the pool, after a slash and before two, and before
/// the tag and the extranonce stands the length of each.
pub proof fn standard_scripts_hold_prefix_tag_and_extranonce(
    pool_tag: Seq<char>,
    job: crate::channel::StandardFields,
)
    requires
        tag_bytes(pool_tag).len() < 256,
    ensures
        ({
            let script = standard_script(pool_tag, job);
            let tag = vstd::utf8::encode_utf8(seq!['/'] + pool_tag + seq!['/', '/']);
            let at = job.coinbase_prefix.len() as int;
            let behind = at + 1 + tag.len();
            &&& script.len() == behind + 1 + job.extranonce_prefix.len()
            &&& script.take(at) == job.coinbase_prefix
            &&& script[at] == tag.len()
            &&& script.subrange(at + 1, behind) == tag
            &&& script[behind] == job.extranonce_prefix.len() % 256
            &&& script.skip(behind + 1) == job.extranonce_prefix
        }),
{
    reveal_strlit("/");
    reveal_strlit("//");
    assert("/"@ =~= seq!['/']);
    assert("//"@ =~= seq!['/', '/']);
    let script = standard_script(pool_tag, job);
    let tag = tag_bytes(pool_tag);
    let at = job.coinbase_prefix.len() as int;
    let behind = at + 1 + tag.len();
    assert(script.take(at) =~= job.coinbase_prefix);
    assert(script.subrange(at + 1, behind) =~= tag);
    assert(script.skip(behind + 1) =~= job.extranonce_prefix);
}

/// A share of a standard job is proved if and only if the tag of the pool, with the slashes round
/// it, has at most 61 bytes; one of an extended job if and only if its coinbase is a transaction.
pub proof fn proofs_need_a_coinbase(
    pool_tag: Seq<char>,
    job: crate::channel::StandardFields,
    other: crate::channel::ExtendedFields,
    tip: crate::channel::Tip,
    share: SubmitSharesStandard,
    other_share: crate::channel::ExtendedShare,
    payout: ChannelPayout,
    difficulty: Double,
)
    ensures
        standard_proof(pool_tag, job, tip, share, payout, difficulty) is Some
            <==> vstd::utf8::encode_utf8("/"@ + pool_tag + "//"@).len() <= 61,
        extended_proof(other, tip, other_share, payout, difficulty) is Some
            <==> crate::block::transaction_fault(
            other.coinbase_tx_prefix + other.extranonce_prefix + other_share.extranonce
                + other.coinbase_tx_suffix,
        ) is None,
{
}

/// The coinbase that a proof of a share of a standard job holds is that of the job, field by field.
pub proof fn standard_proofs_hold_the_coinbase_of_the_job(
    pool_tag: Seq<char>,
    job: crate::channel::StandardFields,
    tip: crate::channel::Tip,
    share: SubmitSharesStandard,
    payout: ChannelPayout,
    difficulty: Double,
    proof: ShareSubmission,
)
    requires
        standard_proof(pool_tag, job, tip, share, payout, difficulty) == Some(proof@),
    ensures
        crate::encoding::hex_bytes(proof.coinbase_hex@) == crate::block::coinbase_bytes(
            job.coinbase_tx_version,
            job.coinbase_tx_locktime,
            job.coinbase_tx_input_sequence,
            standard_script(pool_tag, job),
            job.coinbase_outputs,
        ),
{
    crate::encoding::hex_round_trip(standard_coinbase(pool_tag, job));
}

/// The path that a proof holds is that of the job, hash by hash.
pub proof fn proofs_hold_the_path_of_the_job(
    pool_tag: Seq<char>,
    job: crate::channel::StandardFields,
    other: crate::channel::ExtendedFields,
    tip: crate::channel::Tip,
    share: SubmitSharesStandard,
    other_share: crate::channel::ExtendedShare,
    payout: ChannelPayout,
    difficulty: Double,
    proof: ShareSubmission,
    k: int,
)
    ensures
        standard_proof(pool_tag, job, tip, share, payout, difficulty) == Some(proof@) ==> {
            &&& proof.merkle_path@.len() == job.merkle_path.len()
            &&& 0 <= k < job.merkle_path.len() ==> crate::encoding::hex_bytes(
                proof.merkle_path@[k]@,
            ) == job.merkle_path[k]
        },
        extended_proof(other, tip, other_share, payout, difficulty) == Some(proof@) ==> {
            &&& proof.merkle_path@.len() == other.merkle_path.len()
            &&& 0 <= k < other.merkle_path.len() ==> crate::encoding::hex_bytes(
                proof.merkle_path@[k]@,
            ) == other.merkle_path[k]
        },
{
    let listed = texts(proof.merkle_path@);
    assert(listed.len() == proof.merkle_path@.len());
    if 0 <= k < job.merkle_path.len() {
        crate::encoding::hex_round_trip(job.merkle_path[k]);
        assert(path_texts(job.merkle_path)[k] == crate::encoding::hex_text(job.merkle_path[k]));
    }
    if 0 <= k < other.merkle_path.len() {
        crate::encoding::hex_round_trip(other.merkle_path[k]);
        assert(path_texts(other.merkle_path)[k] == crate::encoding::hex_text(other.merkle_path[k]));
    }
    if 0 <= k < listed.len() {
        assert(listed[k] == proof.merkle_path@[k]@);
    }
}

/// A share of a channel is proved as one of the job that it is for, on the chain tip of the channel,
/// and not at all without the one or the other.
pub proof fn channels_prove_shares_of_their_jobs(
    pool_tag: Seq<char>,
    channel: StandardChannel<'static>,
    other: ExtendedChannel<'static>,
    share: SubmitSharesStandard,
    other_share: crate::channel::ExtendedShare,
    payout: ChannelPayout,
    difficulty: Double,
)
    ensures
        ({
            let job = standard_job_of(channel, share.job_id);
            let tip = crate::channel::standard_tip_of(channel);
            let proof = standard_channel_proof(pool_tag, channel, share, payout, difficulty);
            &&& job is None || tip is None ==> proof is None
            &&& job is Some && tip is Some ==> proof == standard_proof(
                pool_tag,
                crate::channel::standard_fields_of(job->0),
                tip->0,
                share,
                payout,
                difficulty,
            )
        }),
        ({
            let job = extended_job_of(other, other_share.job_id);
            let tip = crate::channel::extended_tip_of(other);
            let proof = extended_channel_proof(other, other_share, payout, difficulty);
            &&& job is None || tip is None ==> proof is None
            &&& job is Some && tip is Some ==> proof == extended_proof(
                crate::channel::extended_fields_of(job->0),
                tip->0,
                other_share,
                payout,
                difficulty,
            )
        }),
{
}

/// A share of a standard job is proved by what the job, the chain tip and the share hold: version,
/// time and nonce of the share, hash and bits of the chain tip, Merkle root, path and coinbase of the
/// job, for whom the share is, and the difficulty that it reached.
pub proof fn standard_shares_are_proved_by_their_parts(
    pool_tag: &str,
    job: StandardJobParts,
    tip: ChannelTip,
    share: SubmitSharesStandard,
    payout: ChannelPayout,
    difficulty: Double,
    proof: ShareSubmission,
    k: int,
)
    requires
        call_ensures(
            prove_standard,
            (pool_tag, &job, tip, &share, &payout, difficulty),
            Some(proof),
        ),
    ensures
        proof.miner_address@ == payout.payout_address@,
        proof.username@ == payout.username@,
        proof.difficulty == difficulty,
        proof.payout_snapshot_id is None,
        proof.prev_block_hash is Some,
        crate::encoding::hex_bytes(proof.prev_block_hash->0@).reverse() == tip.prev_hash@,
        crate::encoding::hex_bytes(proof.header_hex@) == crate::encoding::little_endian(
            share.version as nat,
            4,
        ) + tip.prev_hash@ + job.merkle_root@ + crate::encoding::little_endian(
            share.ntime as nat,
            4,
        ) + crate::encoding::little_endian(tip.nbits as nat, 4) + crate::encoding::little_endian(
            share.nonce as nat,
            4,
        ),
        crate::encoding::hex_bytes(proof.coinbase_hex@) == crate::block::coinbase_bytes(
            job.coinbase_tx_version,
            job.coinbase_tx_locktime,
            job.coinbase_tx_input_sequence,
            standard_script(pool_tag@, job@),
            crate::work::outputs_of(job.coinbase_outputs@),
        ),
        proof.merkle_path@.len() == job.merkle_path@.len(),
        0 <= k < job.merkle_path@.len() ==> crate::encoding::hex_bytes(proof.merkle_path@[k]@)
            == job.merkle_path@[k]@,
{
    let path = crate::merkle::node_bytes(job.merkle_path@);
    assert(path.len() == job.merkle_path@.len());
    if 0 <= k < path.len() {
        assert(path[k] == job.merkle_path@[k]@);
    }
    proofs_hold_what_was_mined(
        payout,
        standard_header(job@, tip@, share),
        standard_coinbase(pool_tag@, job@),
        path,
        difficulty,
        proof,
        k,
    );
}

/// A share of an extended job is proved by what the job, the chain tip and the share hold, as far as
/// the coinbase can be read: the coinbase is the job's round the extranonce, and the Merkle root is
/// the one to which the coinbase that was read leads.
pub proof fn extended_shares_are_proved_by_their_parts(
    job: ExtendedJobParts,
    tip: ChannelTip,
    share: SubmitSharesExtended,
    read: Result<DecodedTransaction, String>,
    payout: ChannelPayout,
    difficulty: Double,
    result: Option<ShareSubmission>,
    k: int,
)
    requires
        call_ensures(prove_extended, (&job, tip, &share, read, &payout, difficulty), result),
    ensures
        result is Some <==> read is Ok,
        result matches Some(proof) ==> {
            let coinbase = crate::encoding::hex_bytes(proof.coinbase_hex@);
            &&& proof.miner_address@ == payout.payout_address@
            &&& proof.username@ == payout.username@
            &&& proof.difficulty == difficulty
            &&& proof.payout_snapshot_id is None
            &&& proof.prev_block_hash is Some
            &&& crate::encoding::hex_bytes(proof.prev_block_hash->0@).reverse() == tip.prev_hash@
            &&& coinbase == job.coinbase_tx_prefix@ + job.extranonce_prefix@ + share.extranonce@
                + job.coinbase_tx_suffix@
            &&& crate::encoding::hex_bytes(proof.header_hex@) == crate::encoding::little_endian(
                share.version as nat,
                4,
            ) + tip.prev_hash@ + crate::merkle::climb(
                read->Ok_0.txid@,
                crate::merkle::node_bytes(job.merkle_path@),
            ) + crate::encoding::little_endian(share.ntime as nat, 4)
                + crate::encoding::little_endian(tip.nbits as nat, 4)
                + crate::encoding::little_endian(share.nonce as nat, 4)
            &&& proof.merkle_path@.len() == job.merkle_path@.len()
            &&& 0 <= k < job.merkle_path@.len() ==> crate::encoding::hex_bytes(
                proof.merkle_path@[k]@,
            ) == job.merkle_path@[k]@
        },
{
    if let Some(proof) = result {
        let header = extended_header(job@, tip@, share@, read->Ok_0.txid@);
        let path = crate::merkle::node_bytes(job.merkle_path@);
        assert(path.len() == job.merkle_path@.len());
        if 0 <= k < path.len() {
            assert(path[k] == job.merkle_path@[k]@);
        }
        proofs_hold_what_was_mined(
            payout,
            header,
            extended_coinbase(job@, share.extranonce@),
            path,
            difficulty,
            proof,
            k,
        );
    }
}

/// A share of a standard job is proved if and only if the tag of the pool with its slashes has at most
/// 61 bytes.
pub proof fn standard_shares_are_proved_with_a_short_tag(
    pool_tag: &str,
    job: StandardJobParts,
    tip: ChannelTip,
    share: SubmitSharesStandard,
    payout: ChannelPayout,
    difficulty: Double,
    result: Option<ShareSubmission>,
)
    requires
        call_ensures(
            prove_standard,
            (pool_tag, &job, tip, &share, &payout, difficulty),
            result,
        ),
    ensures
        result is Some <==> vstd::utf8::encode_utf8("/"@ + pool_tag@ + "//"@).len() <= 61,
{
}

} // verus!
