//! Mining channels, as the `channels_sv2` crate has them.
//!
//! A channel is opaque: what its methods give is named, and the names stand for what the crate
//! computes from the state of the channel and the arguments alone.

use crate::message::{ShareFaultKind, SubmitSharesExtended, SubmitSharesStandard};
use crate::number::Double;
use crate::template::{NewTemplate, SetNewPrevHash};
use crate::work::TxOut;
use stratum_apps::stratum_core::bitcoin;
use stratum_apps::stratum_core::bitcoin::hashes::Hash as BitcoinHash;
use stratum_apps::stratum_core::bitcoin::{Amount, ScriptBuf, Target};
use stratum_apps::stratum_core::binary_sv2::{Seq0255, U256};
use stratum_apps::stratum_core::channels_sv2::extranonce_manager::{
    AllocatedExtranoncePrefix, ExtranonceAllocator, ExtranonceAllocatorError,
};
use stratum_apps::stratum_core::channels_sv2::server::extended::ExtendedChannel;
use stratum_apps::stratum_core::channels_sv2::server::group::GroupChannel;
use stratum_apps::stratum_core::channels_sv2::server::jobs::extended::ExtendedJob;
use stratum_apps::stratum_core::channels_sv2::server::jobs::standard::StandardJob;
use stratum_apps::stratum_core::channels_sv2::server::share_accounting::{
    ShareValidationError, ShareValidationResult,
};
use stratum_apps::stratum_core::channels_sv2::server::standard::StandardChannel;
use stratum_apps::stratum_core::channels_sv2::{Vardiff, VardiffState};
use stratum_apps::stratum_core::mining_sv2;
use stratum_apps::stratum_core::mining_sv2::{
    NewExtendedMiningJob, NewMiningJob, SetCustomMiningJob,
    ERROR_CODE_SUBMIT_SHARES_BAD_EXTRANONCE_SIZE as BAD_EXTRANONCE,
    ERROR_CODE_SUBMIT_SHARES_DIFFICULTY_TOO_LOW as TOO_EASY,
    ERROR_CODE_SUBMIT_SHARES_DUPLICATE_SHARE as DUPLICATE,
    ERROR_CODE_SUBMIT_SHARES_INVALID_JOB_ID as UNKNOWN_JOB,
    ERROR_CODE_SUBMIT_SHARES_STALE_SHARE as STALE,
    ERROR_CODE_VERSION_ROLLING_NOT_ALLOWED as VERSION_ROLLED,
};
use stratum_apps::stratum_core::template_distribution_sv2::{
    NewTemplate as OutsideTemplate, SetNewPrevHash as OutsidePrevHash,
};
use vstd::prelude::*;

verus! {

/// A standard channel.
#[verifier::external_type_specification]
#[verifier::external_body]
pub struct ExStandardChannel<'a>(StandardChannel<'a>);

/// An extended channel.
#[verifier::external_type_specification]
#[verifier::external_body]
pub struct ExExtendedChannel<'a>(ExtendedChannel<'a>);

/// A group of channels that share jobs.
#[verifier::external_type_specification]
#[verifier::external_body]
pub struct ExGroupChannel<'a>(GroupChannel<'a>);

/// The adjustment of a channel's difficulty.
#[verifier::external_type_specification]
#[verifier::external_body]
pub struct ExVardiffState(VardiffState);

/// What extranonce prefixes are taken from.
#[verifier::external_type_specification]
#[verifier::external_body]
pub struct ExExtranonceAllocator(ExtranonceAllocator);

/// An extranonce prefix that was taken.
#[verifier::external_type_specification]
#[verifier::external_body]
pub struct ExAllocatedExtranoncePrefix(AllocatedExtranoncePrefix);

/// A job for a standard channel.
#[verifier::external_type_specification]
#[verifier::external_body]
pub struct ExNewMiningJob<'a>(NewMiningJob<'a>);

/// A job for an extended channel.
#[verifier::external_type_specification]
#[verifier::external_body]
pub struct ExNewExtendedMiningJob<'a>(NewExtendedMiningJob<'a>);

/// A job that a miner made.
#[verifier::external_type_specification]
#[verifier::external_body]
pub struct ExSetCustomMiningJob<'a>(SetCustomMiningJob<'a>);

/// A job of a standard channel.
#[verifier::external_type_specification]
#[verifier::external_body]
pub struct ExStandardJob<'a>(StandardJob<'a>);

/// A job of an extended channel.
#[verifier::external_type_specification]
#[verifier::external_body]
pub struct ExExtendedJob<'a>(ExtendedJob<'a>);

/// Why a channel does not accept a share.
#[verifier::external_type_specification]
#[verifier::external_body]
pub struct ExShareValidationError(ShareValidationError);

/// A template as channels take it.
#[verifier::external_type_specification]
#[verifier::external_body]
pub struct ExOutsideTemplate<'a>(OutsideTemplate<'a>);

/// A chain tip as channels take it.
#[verifier::external_type_specification]
#[verifier::external_body]
pub struct ExOutsidePrevHash<'a>(OutsidePrevHash<'a>);

/// The difficulty of a target, as the bits of a double-precision number.
pub uninterp spec fn difficulty_bits(target: Seq<u8>) -> u64;

/// Calls `Target::difficulty_float` on the target with the given bytes, the lowest first. Claimed:
/// the bits of the number depend on the target alone, since it is one division of numbers that
/// the target determines.
#[verifier::external_body]
pub(crate) fn difficulty(target: [u8; 32]) -> (number: Double)
    ensures
        number.bits == difficulty_bits(target@),
{
    Double { bits: Target::from_le_bytes(target).difficulty_float().to_bits() }
}

/// What became of a share that a channel accepts.
#[derive(Clone, Debug)]
pub enum ShareAccepted {
    /// It is good.
    Valid { hash: [u8; 32] },
    /// It solves a block, of the template if the job is that of a template.
    BlockFound { hash: [u8; 32], template_id: Option<u64>, coinbase: Vec<u8> },
}

/// A [`ShareAccepted`] with its bytes as sequences.
pub ghost enum Accepted {
    Valid { hash: Seq<u8> },
    BlockFound { hash: Seq<u8>, template_id: Option<u64>, coinbase: Seq<u8> },
}

impl View for ShareAccepted {
    type V = Accepted;

    open spec fn view(&self) -> Accepted {
        match *self {
            ShareAccepted::Valid { hash } => Accepted::Valid { hash: hash@ },
            ShareAccepted::BlockFound { hash, template_id, coinbase } => Accepted::BlockFound {
                hash: hash@,
                template_id,
                coinbase: coinbase@,
            },
        }
    }
}

/// The hash of the header that an accepted share solves.
pub open spec fn hash_of(accepted: Accepted) -> Seq<u8> {
    match accepted {
        Accepted::Valid { hash } => hash,
        Accepted::BlockFound { hash, template_id, coinbase } => hash,
    }
}

/// Whether there is a header and it has the given hash.
pub open spec fn is_hash_of(hash: Seq<u8>, header: Option<crate::block::HeaderFields>) -> bool {
    header is Some && hash == crate::hashing::sha256d_digest(
        crate::block::header_bytes(header->0),
    )
}

/// What a channel finds about a share.
pub type Finding = Result<Accepted, ShareValidationError>;

/// Whether a result is the finding that `expected` says.
pub open spec fn same_finding(
    result: Result<ShareAccepted, ShareValidationError>,
    expected: Finding,
) -> bool {
    match result {
        Ok(accepted) => expected == Finding::Ok(accepted@),
        Err(error) => expected == Finding::Err(error),
    }
}

/// Why a share is not accepted, and the code that says so to a miner, if there is one.
#[derive(Clone, Debug)]
pub struct ShareFault {
    pub kind: ShareFaultKind,
    pub code: String,
}

/// The kind and the code of an error that a channel reports.
pub uninterp spec fn fault_of(error: ShareValidationError) -> (ShareFaultKind, Seq<char>);

/// Tells the variants of `ShareValidationError` apart. Claimed: the kind is that of the variant
/// and the code the one it carries.
#[verifier::external_body]
pub(crate) fn share_fault(error: ShareValidationError) -> (fault: ShareFault)
    ensures
        (fault.kind, fault.code@) == fault_of(error),
{
    let (kind, code) = match error {
        ShareValidationError::Invalid(code) => (ShareFaultKind::Invalid, code),
        ShareValidationError::Stale(code) => (ShareFaultKind::Stale, code),
        ShareValidationError::InvalidJobId(code) => (ShareFaultKind::InvalidJobId, code),
        ShareValidationError::DoesNotMeetTarget(code) => (ShareFaultKind::DoesNotMeetTarget, code),
        ShareValidationError::VersionRollingNotAllowed(c) => (ShareFaultKind::VersionRollingNotAllowed, c),
        ShareValidationError::DuplicateShare(code) => (ShareFaultKind::DuplicateShare, code),
        ShareValidationError::BadExtranonceSize(code) => (ShareFaultKind::BadExtranonceSize, code),
        ShareValidationError::InvalidCoinbase => (ShareFaultKind::InvalidCoinbase, ""),
        ShareValidationError::NoChainTip => (ShareFaultKind::NoChainTip, ""),
    };
    ShareFault { kind, code: code.to_string() }
}

/// What a channel has counted of its shares.
#[derive(Clone, Copy, Debug)]
pub struct Accounting {
    /// Whether the miner is told now.
    pub should_acknowledge: bool,
    pub last_sequence_number: u32,
    pub last_batch_accepted: u32,
    pub last_batch_work_sum: u64,
}

/// The chain tip of a channel.
#[derive(Clone, Copy, Debug)]
pub struct ChannelTip {
    pub prev_hash: [u8; 32],
    pub nbits: u32,
}

/// A [`ChannelTip`] with its hash as a sequence of bytes.
pub ghost struct Tip {
    pub prev_hash: Seq<u8>,
    pub nbits: u32,
}

impl View for ChannelTip {
    type V = Tip;

    open spec fn view(&self) -> Tip {
        Tip { prev_hash: self.prev_hash@, nbits: self.nbits }
    }
}

/// What a channel has counted of its shares since it was made: those that it accepted, those of the
/// batch under way, the blocks, and those that it rejected, by the reason.
#[derive(Clone, Copy, Debug)]
pub struct ShareCounts {
    pub accepted: u32,
    pub batch: u32,
    pub blocks: u32,
    pub stale: u32,
    pub unknown_job: u32,
    pub duplicate: u32,
    pub too_easy: u32,
    pub bad_extranonce: u32,
    pub version_rolled: u32,
}

impl ShareCounts {
    /// Whether a standard channel with these counts can count any share.
    pub open spec fn has_standard_room(self) -> bool {
        &&& self.accepted < u32::MAX
        &&& self.batch < u32::MAX
        &&& self.blocks < u32::MAX
        &&& self.stale < u32::MAX
        &&& self.unknown_job < u32::MAX
        &&& self.duplicate < u32::MAX
        &&& self.too_easy < u32::MAX
    }

    /// Whether an extended channel with these counts can count any share.
    pub open spec fn has_extended_room(self) -> bool {
        &&& self.has_standard_room()
        &&& self.bad_extranonce < u32::MAX
        &&& self.version_rolled < u32::MAX
    }

    /// Whether a standard channel with these counts can count any share.
    pub fn can_count_standard(&self) -> (room: bool)
        ensures
            room == self.has_standard_room(),
    {
        self.accepted < u32::MAX && self.batch < u32::MAX && self.blocks < u32::MAX && self.stale
            < u32::MAX && self.unknown_job < u32::MAX && self.duplicate < u32::MAX && self.too_easy
            < u32::MAX
    }

    /// Whether an extended channel with these counts can count any share.
    pub fn can_count_extended(&self) -> (room: bool)
        ensures
            room == self.has_extended_room(),
    {
        self.can_count_standard() && self.bad_extranonce < u32::MAX && self.version_rolled
            < u32::MAX
    }
}

/// Whether an accepted share was counted: as accepted, and as a block if it solves one.
pub open spec fn is_count_of(before: ShareCounts, after: ShareCounts, accepted: Accepted) -> bool {
    &&& after.accepted == before.accepted + 1
    &&& after.blocks == before.blocks + if accepted is BlockFound {
        1int
    } else {
        0int
    }
}

/// Whether a channel whose last job had the id `before` has made at most one job more.
pub open spec fn is_next_job(before: u32, after: u32, made: bool) -> bool {
    if made {
        after == before + 1
    } else {
        before <= after <= before + 1
    }
}

/// Whether a result is the chain tip that `expected` says.
pub open spec fn same_channel_tip(result: Option<ChannelTip>, expected: Option<Tip>) -> bool {
    match result {
        Some(tip) => expected == Some(tip@),
        None => expected is None,
    }
}

/// What a proof needs of a standard job.
#[derive(Clone, Debug)]
pub struct StandardJobParts {
    pub job_id: u32,
    pub coinbase_prefix: Vec<u8>,
    pub coinbase_tx_version: u32,
    pub coinbase_tx_input_sequence: u32,
    pub coinbase_tx_locktime: u32,
    pub merkle_path: Vec<[u8; 32]>,
    pub extranonce_prefix: Vec<u8>,
    pub coinbase_outputs: Vec<TxOut>,
    pub merkle_root: [u8; 32],
}

/// [`StandardJobParts`] with sequences in place of lists and arrays.
pub ghost struct StandardFields {
    pub job_id: u32,
    pub coinbase_prefix: Seq<u8>,
    pub coinbase_tx_version: u32,
    pub coinbase_tx_input_sequence: u32,
    pub coinbase_tx_locktime: u32,
    pub merkle_path: Seq<Seq<u8>>,
    pub extranonce_prefix: Seq<u8>,
    pub coinbase_outputs: Seq<crate::work::Output>,
    pub merkle_root: Seq<u8>,
}

impl View for StandardJobParts {
    type V = StandardFields;

    open spec fn view(&self) -> StandardFields {
        StandardFields {
            job_id: self.job_id,
            coinbase_prefix: self.coinbase_prefix@,
            coinbase_tx_version: self.coinbase_tx_version,
            coinbase_tx_input_sequence: self.coinbase_tx_input_sequence,
            coinbase_tx_locktime: self.coinbase_tx_locktime,
            merkle_path: crate::merkle::node_bytes(self.merkle_path@),
            extranonce_prefix: self.extranonce_prefix@,
            coinbase_outputs: crate::work::outputs_of(self.coinbase_outputs@),
            merkle_root: self.merkle_root@,
        }
    }
}

/// What a proof needs of an extended job.
#[derive(Clone, Debug)]
pub struct ExtendedJobParts {
    pub job_id: u32,
    pub extranonce_prefix: Vec<u8>,
    /// The coinbase in front of the extranonce, without witness data.
    pub coinbase_tx_prefix: Vec<u8>,
    /// The coinbase behind the extranonce, without witness data.
    pub coinbase_tx_suffix: Vec<u8>,
    pub merkle_path: Vec<[u8; 32]>,
    pub coinbase_outputs: Vec<TxOut>,
}

/// [`ExtendedJobParts`] with sequences in place of lists and arrays.
pub ghost struct ExtendedFields {
    pub job_id: u32,
    pub extranonce_prefix: Seq<u8>,
    pub coinbase_tx_prefix: Seq<u8>,
    pub coinbase_tx_suffix: Seq<u8>,
    pub merkle_path: Seq<Seq<u8>>,
    pub coinbase_outputs: Seq<crate::work::Output>,
}

impl View for ExtendedJobParts {
    type V = ExtendedFields;

    open spec fn view(&self) -> ExtendedFields {
        ExtendedFields {
            job_id: self.job_id,
            extranonce_prefix: self.extranonce_prefix@,
            coinbase_tx_prefix: self.coinbase_tx_prefix@,
            coinbase_tx_suffix: self.coinbase_tx_suffix@,
            merkle_path: crate::merkle::node_bytes(self.merkle_path@),
            coinbase_outputs: crate::work::outputs_of(self.coinbase_outputs@),
        }
    }
}

/// Whether a result is the value that `expected` says.
pub open spec fn same_ref<T>(result: Option<&T>, expected: Option<T>) -> bool {
    match result {
        Some(value) => expected == Some(*value),
        None => expected is None,
    }
}

/// Whether a result tells of the failure that `expected` says.
pub open spec fn same_failure(result: Result<(), String>, expected: Option<Seq<char>>) -> bool {
    match result {
        Ok(_) => expected is None,
        Err(message) => expected == Some(message@),
    }
}

/// Whether outputs start with others.
pub open spec fn starts_with(all: Seq<crate::work::Output>, front: Seq<crate::work::Output>) -> bool {
    front.len() <= all.len() && all.take(front.len() as int) == front
}

/// The chain tip that a channel keeps of a message.
pub open spec fn kept_tip(tip: crate::template::Activation) -> Tip {
    Tip { prev_hash: tip.prev_hash, nbits: tip.n_bits }
}

/// The message that a template becomes.
pub uninterp spec fn template_message(
    template: crate::template::Announcement,
) -> OutsideTemplate<'static>;

/// Puts a template into the type that channels take. Claimed: the message depends on the parts of
/// the template alone.
#[verifier::external_body]
pub(crate) fn outside_template(template: &NewTemplate) -> (message:
    OutsideTemplate<'static>)
    requires
        template.fits(),
    ensures
        message == template_message(template@),
{
    let nodes = template.merkle_path.iter().map(|node| U256::from(*node)).collect();
    OutsideTemplate {
        template_id: template.template_id,
        future_template: template.future_template,
        version: template.version,
        coinbase_tx_version: template.coinbase_tx_version,
        coinbase_prefix: template.coinbase_prefix.clone().try_into().expect("at most 255 bytes"),
        coinbase_tx_input_sequence: template.coinbase_tx_input_sequence,
        coinbase_tx_value_remaining: template.coinbase_tx_value_remaining,
        coinbase_tx_outputs_count: template.coinbase_tx_outputs_count,
        coinbase_tx_outputs: template.coinbase_tx_outputs.clone().try_into().expect("at most 64K"),
        coinbase_tx_locktime: template.coinbase_tx_locktime,
        merkle_path: Seq0255::new(nodes).expect("at most 255 nodes"),
    }
}

/// The message that a chain tip becomes.
pub uninterp spec fn prev_hash_message(
    tip: crate::template::Activation,
) -> OutsidePrevHash<'static>;

/// Puts a chain tip into the type that channels take. Claimed: the message depends on the parts of
/// the chain tip alone.
#[verifier::external_body]
pub(crate) fn outside_prev_hash(tip: &SetNewPrevHash) -> (message:
    OutsidePrevHash<'static>)
    ensures
        message == prev_hash_message(tip@),
{
    OutsidePrevHash {
        template_id: tip.template_id,
        prev_hash: U256::from(tip.prev_hash),
        header_timestamp: tip.header_timestamp,
        n_bits: tip.n_bits,
        target: U256::from(tip.target),
    }
}

/// The target of a standard channel, the lowest byte first.
pub uninterp spec fn standard_target_of(channel: StandardChannel<'static>) -> Seq<u8>;

/// Calls `StandardChannel::get_target`. Claimed: the target depends on the channel alone.
#[verifier::external_body]
pub(crate) fn standard_target(channel: &StandardChannel<'static>) -> (target: [u8; 32])
    ensures
        target@ == standard_target_of(*channel),
{
    channel.get_target().to_le_bytes()
}

/// The extranonce prefix of a standard channel.
pub uninterp spec fn standard_prefix_of(channel: StandardChannel<'static>) -> Seq<u8>;

/// Calls `StandardChannel::get_extranonce_prefix`. Claimed: the prefix depends on the channel
/// alone.
#[verifier::external_body]
pub(crate) fn standard_prefix(channel: &StandardChannel<'static>) -> (prefix: Vec<u8>)
    ensures
        prefix@ == standard_prefix_of(*channel),
{
    channel.get_extranonce_prefix().to_vec()
}

/// What a standard channel has counted of its shares.
pub uninterp spec fn standard_accounting_of(channel: StandardChannel<'static>) -> Accounting;

/// Calls `StandardChannel::get_share_accounting` and reads what a message to a miner needs.
/// Claimed: the numbers depend on the channel alone.
#[verifier::external_body]
pub(crate) fn standard_accounting(channel: &StandardChannel<'static>) -> (accounting: Accounting)
    ensures
        accounting == standard_accounting_of(*channel),
{
    let outside = channel.get_share_accounting();
    Accounting {
        should_acknowledge: outside.should_acknowledge(),
        last_sequence_number: outside.get_last_share_sequence_number(),
        last_batch_accepted: outside.get_last_batch_accepted(),
        last_batch_work_sum: outside.get_last_batch_work_sum(),
    }
}

/// What a standard channel has counted of its shares, each kind by itself.
pub uninterp spec fn standard_counts_of(channel: StandardChannel<'static>) -> ShareCounts;

/// Calls `StandardChannel::get_share_accounting` and reads its counts with their getters. Claimed:
/// the counts depend on the channel alone.
#[verifier::external_body]
pub(crate) fn standard_counts(channel: &StandardChannel<'static>) -> (counts: ShareCounts)
    ensures
        counts == standard_counts_of(*channel),
{
    let outside = channel.get_share_accounting();
    ShareCounts {
        accepted: outside.get_shares_accepted(),
        batch: outside.get_last_batch_accepted(),
        blocks: outside.get_blocks_found(),
        stale: outside.get_rejected_shares_error_count(STALE),
        unknown_job: outside.get_rejected_shares_error_count(UNKNOWN_JOB),
        duplicate: outside.get_rejected_shares_error_count(DUPLICATE),
        too_easy: outside.get_rejected_shares_error_count(TOO_EASY),
        bad_extranonce: outside.get_rejected_shares_error_count(BAD_EXTRANONCE),
        version_rolled: outside.get_rejected_shares_error_count(VERSION_ROLLED),
    }
}

/// The id of the last job that a standard channel made of a template; zero if it made none yet.
pub uninterp spec fn standard_last_job_of(channel: StandardChannel<'static>) -> u32;

/// The chain tip of a standard channel.
pub uninterp spec fn standard_tip_of(channel: StandardChannel<'static>) -> Option<Tip>;

/// Calls `StandardChannel::get_chain_tip`. Claimed: the chain tip depends on the channel alone.
#[verifier::external_body]
pub(crate) fn standard_tip(channel: &StandardChannel<'static>) -> (tip: Option<ChannelTip>)
    ensures
        same_channel_tip(tip, standard_tip_of(*channel)),
{
    let tip = channel.get_chain_tip()?;
    Some(ChannelTip { prev_hash: tip.prev_hash().to_array(), nbits: tip.nbits() })
}

/// The active job of a standard channel.
pub uninterp spec fn standard_active_of(channel: StandardChannel<'static>) -> Option<
    StandardJob<'static>,
>;

/// Calls `StandardChannel::get_active_job`. Claimed: the job depends on the channel alone.
#[verifier::external_body]
pub(crate) fn standard_active<'c>(channel: &'c StandardChannel<'static>) -> (job: Option<
    &'c StandardJob<'static>,
>)
    ensures
        same_ref(job, standard_active_of(*channel)),
{
    channel.get_active_job()
}

/// The past job of a standard channel with an id.
pub uninterp spec fn standard_past_of(channel: StandardChannel<'static>, job_id: u32) -> Option<
    StandardJob<'static>,
>;

/// Calls `StandardChannel::get_past_job`. Claimed: the job depends on the channel and the id
/// alone.
#[verifier::external_body]
pub(crate) fn standard_past<'c>(channel: &'c StandardChannel<'static>, job_id: u32) -> (job: Option<
    &'c StandardJob<'static>,
>)
    ensures
        same_ref(job, standard_past_of(*channel, job_id)),
{
    channel.get_past_job(job_id)
}

/// The id of the future job that a standard channel made of a template.
pub uninterp spec fn standard_future_id_of(
    channel: StandardChannel<'static>,
    template_id: u64,
) -> Option<u32>;

/// Calls `StandardChannel::get_future_job_id_from_template_id`. Claimed: the id depends on the
/// channel and the template's id alone.
#[verifier::external_body]
pub(crate) fn standard_future_id(channel: &StandardChannel<'static>, template_id: u64) -> (job_id:
    Option<u32>)
    ensures
        job_id == standard_future_id_of(*channel, template_id),
{
    channel.get_future_job_id_from_template_id(template_id)
}

/// The future job of a standard channel with an id.
pub uninterp spec fn standard_future_of(channel: StandardChannel<'static>, job_id: u32) -> Option<
    StandardJob<'static>,
>;

/// Calls `StandardChannel::get_future_job`. Claimed: the job depends on the channel and the id
/// alone.
#[verifier::external_body]
pub(crate) fn standard_future<'c>(channel: &'c StandardChannel<'static>, job_id: u32) -> (job:
    Option<&'c StandardJob<'static>>)
    ensures
        same_ref(job, standard_future_of(*channel, job_id)),
{
    channel.get_future_job(job_id)
}

/// The parts of a standard job.
pub uninterp spec fn standard_fields_of(job: StandardJob<'static>) -> StandardFields;

/// Reads the parts of a `StandardJob` that a proof needs with its getters. Claimed: they depend on
/// the job alone.
#[verifier::external_body]
pub(crate) fn standard_parts(job: &StandardJob<'static>) -> (parts: StandardJobParts)
    ensures
        parts@ == standard_fields_of(*job),
{
    let template = job.get_template();
    StandardJobParts {
        job_id: job.get_job_id(),
        coinbase_prefix: template.coinbase_prefix.to_owned_bytes(),
        coinbase_tx_version: template.coinbase_tx_version,
        coinbase_tx_input_sequence: template.coinbase_tx_input_sequence,
        coinbase_tx_locktime: template.coinbase_tx_locktime,
        merkle_path: template.merkle_path.iter().map(|node| node.to_array()).collect(),
        extranonce_prefix: job.get_extranonce_prefix().to_vec(),
        coinbase_outputs: job.get_coinbase_outputs().iter().map(|output| TxOut {
            value: output.value.to_sat(), script_pubkey: output.script_pubkey.to_bytes(),
        }).collect(),
        merkle_root: job.get_merkle_root().to_array(),
    }
}

/// The message that announces a standard job.
pub uninterp spec fn standard_message_of(job: StandardJob<'static>) -> NewMiningJob<'static>;

/// Calls `StandardJob::get_job_message`. Claimed: the message depends on the job alone.
#[verifier::external_body]
pub(crate) fn standard_message(job: &StandardJob<'static>) -> (message: NewMiningJob<'static>)
    ensures
        message == standard_message_of(*job),
{
    job.get_job_message().clone()
}

/// Whether two standard channels have the same work.
pub open spec fn same_standard_work(
    a: StandardChannel<'static>,
    b: StandardChannel<'static>,
) -> bool {
    &&& standard_target_of(a) == standard_target_of(b)
    &&& standard_prefix_of(a) == standard_prefix_of(b)
    &&& standard_tip_of(a) == standard_tip_of(b)
    &&& standard_active_of(a) == standard_active_of(b)
    &&& standard_last_job_of(a) == standard_last_job_of(b)
    &&& forall|job_id: u32| #[trigger]
        standard_past_of(a, job_id) == standard_past_of(b, job_id)
}

/// A standard channel after a share, and what it finds about the share.
pub uninterp spec fn standard_validated(
    channel: StandardChannel<'static>,
    share: SubmitSharesStandard,
) -> (StandardChannel<'static>, Finding);

/// Calls `StandardChannel::validate_share`. Claimed: the finding and what the channel becomes
/// depend on the channel and the share alone; the channel keeps its work; it accepts a share
/// only if it has the job of the share and a chain tip, with the hash of the header that the share
/// solves; and it counts a share that it accepts. A count that is full has no room for one more.
#[verifier::external_body]
pub(crate) fn validate_standard(
    channel: &mut StandardChannel<'static>,
    share: &SubmitSharesStandard,
) -> (finding: Result<ShareAccepted, ShareValidationError>)
    requires
        standard_counts_of(*old(channel)).has_standard_room(),
    ensures
        *final(channel) == standard_validated(*old(channel), *share).0,
        same_finding(finding, standard_validated(*old(channel), *share).1),
        same_standard_work(*final(channel), *old(channel)),
        finding is Ok ==> is_hash_of(
            hash_of(finding->Ok_0@),
            crate::evidence::standard_channel_header(*final(channel), *share),
        ),
        finding is Ok ==> is_count_of(
            standard_counts_of(*old(channel)),
            standard_counts_of(*final(channel)),
            finding->Ok_0@,
        ),
{
    let (channel_id, sequence_number) = (share.channel_id, share.sequence_number);
    let (job_id, nonce, ntime, version) = (share.job_id, share.nonce, share.ntime, share.version);
    let outside = mining_sv2::SubmitSharesStandard {
        channel_id, sequence_number, job_id, nonce, ntime, version,
    };
    Ok(match channel.validate_share(outside)? {
        ShareValidationResult::Valid(hash) => ShareAccepted::Valid { hash: hash.to_byte_array() },
        ShareValidationResult::BlockFound(hash, template_id, coinbase) =>
            ShareAccepted::BlockFound { hash: hash.to_byte_array(), template_id, coinbase },
    })
}

/// A standard channel after a template, and why it takes none.
pub uninterp spec fn standard_with_template(
    channel: StandardChannel<'static>,
    template: OutsideTemplate<'static>,
    outputs: Seq<crate::work::Output>,
) -> (StandardChannel<'static>, Option<Seq<char>>);

/// Calls `StandardChannel::on_new_template`. Claimed: whether the channel takes the template, and
/// what it becomes, depend on the channel, the template and the outputs alone; it takes only outputs
/// that spend what the template leaves; it makes one job of a template that it takes, and at most
/// one of any other; and once it has taken a template for the future, it has a future job for it
/// with the next id whose outputs start with the given ones. The ids of jobs end with the greatest
/// 32-bit number.
#[verifier::external_body]
pub(crate) fn standard_take_template(
    channel: &mut StandardChannel<'static>,
    template: &NewTemplate,
    message: OutsideTemplate<'static>,
    outputs: &Vec<TxOut>,
) -> (taken: Result<(), String>)
    requires
        message == template_message(template@),
        crate::work::total_value(crate::work::outputs_of(outputs@)) <= u64::MAX,
        standard_last_job_of(*old(channel)) < u32::MAX,
    ensures
        ({
            let after = standard_with_template(
                *old(channel),
                message,
                crate::work::outputs_of(outputs@),
            );
            *final(channel) == after.0 && same_failure(taken, after.1)
        }),
        is_next_job(
            standard_last_job_of(*old(channel)),
            standard_last_job_of(*final(channel)),
            taken is Ok,
        ),
        taken is Ok ==> crate::work::total_value(crate::work::outputs_of(outputs@))
            == template.coinbase_tx_value_remaining,
        taken is Ok && template.future_template ==> {
            let id = standard_future_id_of(*final(channel), template.template_id);
            let job = standard_future_of(*final(channel), id->0);
            &&& id is Some
            &&& job is Some
            &&& standard_fields_of(job->0).job_id == id->0
            &&& id->0 == standard_last_job_of(*final(channel))
            &&& starts_with(
                standard_fields_of(job->0).coinbase_outputs,
                crate::work::outputs_of(outputs@),
            )
        },
{
    let outputs = outputs.iter().map(|output| bitcoin::TxOut {
        value: Amount::from_sat(output.value),
        script_pubkey: ScriptBuf::from_bytes(output.script_pubkey.clone()),
    }).collect();
    channel.on_new_template(message, outputs).map_err(|error| format!("{error:?}"))
}

/// A standard channel after a chain tip, and why it takes none.
pub uninterp spec fn standard_with_prev_hash(
    channel: StandardChannel<'static>,
    tip: OutsidePrevHash<'static>,
) -> (StandardChannel<'static>, Option<Seq<char>>);

/// Calls `StandardChannel::on_set_new_prev_hash`. Claimed: whether the channel takes the chain
/// tip, and what it becomes, depend on the channel and the chain tip alone; one that it takes is its
/// chain tip from now on; it makes no job of it; and the future job of the template that the chain
/// tip names, if there is one, becomes the active job, with the same parts.
#[verifier::external_body]
pub(crate) fn standard_take_prev_hash(
    channel: &mut StandardChannel<'static>,
    tip: &SetNewPrevHash,
    message: OutsidePrevHash<'static>,
) -> (taken: Result<(), String>)
    requires
        message == prev_hash_message(tip@),
    ensures
        *final(channel) == standard_with_prev_hash(*old(channel), message).0,
        same_failure(taken, standard_with_prev_hash(*old(channel), message).1),
        standard_last_job_of(*final(channel)) == standard_last_job_of(*old(channel)),
        taken is Ok ==> standard_tip_of(*final(channel)) == Some(kept_tip(tip@)),
        ({
            let id = standard_future_id_of(*old(channel), tip.template_id);
            let job = standard_future_of(*old(channel), id->0);
            id is Some && job is Some ==> {
                &&& taken is Ok
                &&& standard_active_of(*final(channel)) is Some
                &&& standard_fields_of(standard_active_of(*final(channel))->0)
                    == standard_fields_of(job->0)
            }
        }),
{
    channel.on_set_new_prev_hash(message).map_err(|error| format!("{error:?}"))
}

/// The target of an extended channel, the lowest byte first.
pub uninterp spec fn extended_target_of(channel: ExtendedChannel<'static>) -> Seq<u8>;

/// Calls `ExtendedChannel::get_target`. Claimed: the target depends on the channel alone.
#[verifier::external_body]
pub(crate) fn extended_target(channel: &ExtendedChannel<'static>) -> (target: [u8; 32])
    ensures
        target@ == extended_target_of(*channel),
{
    channel.get_target().to_le_bytes()
}

/// The extranonce prefix of an extended channel.
pub uninterp spec fn extended_prefix_of(channel: ExtendedChannel<'static>) -> Seq<u8>;

/// Calls `ExtendedChannel::get_extranonce_prefix`. Claimed: the prefix depends on the channel
/// alone.
#[verifier::external_body]
pub(crate) fn extended_prefix(channel: &ExtendedChannel<'static>) -> (prefix: Vec<u8>)
    ensures
        prefix@ == extended_prefix_of(*channel),
{
    channel.get_extranonce_prefix().to_vec()
}

/// How many bytes of the extranonce the miner of an extended channel rolls.
pub uninterp spec fn extended_rollable_of(channel: ExtendedChannel<'static>) -> u16;

/// Calls `ExtendedChannel::get_rollable_extranonce_size`. Claimed: the size depends on the channel
/// alone.
#[verifier::external_body]
pub(crate) fn extended_rollable(channel: &ExtendedChannel<'static>) -> (size: u16)
    ensures
        size == extended_rollable_of(*channel),
{
    channel.get_rollable_extranonce_size()
}

/// Calls `ExtendedChannel::get_full_extranonce_size`. Claimed: it is the length of the prefix and
/// the bytes that the miner rolls. A prefix is no longer than the whole extranonce, of at most 32
/// bytes.
#[verifier::external_body]
pub(crate) fn extended_full_size(channel: &ExtendedChannel<'static>) -> (size: usize)
    ensures
        size == extended_prefix_of(*channel).len() + extended_rollable_of(*channel),
{
    channel.get_full_extranonce_size()
}

/// What an extended channel has counted of its shares.
pub uninterp spec fn extended_accounting_of(channel: ExtendedChannel<'static>) -> Accounting;

/// Calls `ExtendedChannel::get_share_accounting` and reads what a message to a miner needs.
/// Claimed: the numbers depend on the channel alone.
#[verifier::external_body]
pub(crate) fn extended_accounting(channel: &ExtendedChannel<'static>) -> (accounting: Accounting)
    ensures
        accounting == extended_accounting_of(*channel),
{
    let outside = channel.get_share_accounting();
    Accounting {
        should_acknowledge: outside.should_acknowledge(),
        last_sequence_number: outside.get_last_share_sequence_number(),
        last_batch_accepted: outside.get_last_batch_accepted(),
        last_batch_work_sum: outside.get_last_batch_work_sum(),
    }
}

/// What an extended channel has counted of its shares, each kind by itself.
pub uninterp spec fn extended_counts_of(channel: ExtendedChannel<'static>) -> ShareCounts;

/// Calls `ExtendedChannel::get_share_accounting` and reads its counts with their getters. Claimed:
/// the counts depend on the channel alone.
#[verifier::external_body]
pub(crate) fn extended_counts(channel: &ExtendedChannel<'static>) -> (counts: ShareCounts)
    ensures
        counts == extended_counts_of(*channel),
{
    let outside = channel.get_share_accounting();
    ShareCounts {
        accepted: outside.get_shares_accepted(),
        batch: outside.get_last_batch_accepted(),
        blocks: outside.get_blocks_found(),
        stale: outside.get_rejected_shares_error_count(STALE),
        unknown_job: outside.get_rejected_shares_error_count(UNKNOWN_JOB),
        duplicate: outside.get_rejected_shares_error_count(DUPLICATE),
        too_easy: outside.get_rejected_shares_error_count(TOO_EASY),
        bad_extranonce: outside.get_rejected_shares_error_count(BAD_EXTRANONCE),
        version_rolled: outside.get_rejected_shares_error_count(VERSION_ROLLED),
    }
}

/// The id of the last job that an extended channel made, of a template or of a miner's own job;
/// zero if it made none yet.
pub uninterp spec fn extended_last_job_of(channel: ExtendedChannel<'static>) -> u32;

/// The chain tip of an extended channel.
pub uninterp spec fn extended_tip_of(channel: ExtendedChannel<'static>) -> Option<Tip>;

/// Calls `ExtendedChannel::get_chain_tip`. Claimed: the chain tip depends on the channel alone.
#[verifier::external_body]
pub(crate) fn extended_tip(channel: &ExtendedChannel<'static>) -> (tip: Option<ChannelTip>)
    ensures
        same_channel_tip(tip, extended_tip_of(*channel)),
{
    let tip = channel.get_chain_tip()?;
    Some(ChannelTip { prev_hash: tip.prev_hash().to_array(), nbits: tip.nbits() })
}

/// The active job of an extended channel.
pub uninterp spec fn extended_active_of(channel: ExtendedChannel<'static>) -> Option<
    ExtendedJob<'static>,
>;

/// Calls `ExtendedChannel::get_active_job`. Claimed: the job depends on the channel alone.
#[verifier::external_body]
pub(crate) fn extended_active<'c>(channel: &'c ExtendedChannel<'static>) -> (job: Option<
    &'c ExtendedJob<'static>,
>)
    ensures
        same_ref(job, extended_active_of(*channel)),
{
    channel.get_active_job()
}

/// The past job of an extended channel with an id.
pub uninterp spec fn extended_past_of(channel: ExtendedChannel<'static>, job_id: u32) -> Option<
    ExtendedJob<'static>,
>;

/// Calls `ExtendedChannel::get_past_job`. Claimed: the job depends on the channel and the id
/// alone.
#[verifier::external_body]
pub(crate) fn extended_past<'c>(channel: &'c ExtendedChannel<'static>, job_id: u32) -> (job: Option<
    &'c ExtendedJob<'static>,
>)
    ensures
        same_ref(job, extended_past_of(*channel, job_id)),
{
    channel.get_past_job(job_id)
}

/// The id of the future job that an extended channel made of a template.
pub uninterp spec fn extended_future_id_of(
    channel: ExtendedChannel<'static>,
    template_id: u64,
) -> Option<u32>;

/// Calls `ExtendedChannel::get_future_job_id_from_template_id`. Claimed: the id depends on the
/// channel and the template's id alone.
#[verifier::external_body]
pub(crate) fn extended_future_id(channel: &ExtendedChannel<'static>, template_id: u64) -> (job_id:
    Option<u32>)
    ensures
        job_id == extended_future_id_of(*channel, template_id),
{
    channel.get_future_job_id_from_template_id(template_id)
}

/// The future job of an extended channel with an id.
pub uninterp spec fn extended_future_of(channel: ExtendedChannel<'static>, job_id: u32) -> Option<
    ExtendedJob<'static>,
>;

/// Calls `ExtendedChannel::get_future_job`. Claimed: the job depends on the channel and the id
/// alone.
#[verifier::external_body]
pub(crate) fn extended_future<'c>(channel: &'c ExtendedChannel<'static>, job_id: u32) -> (job:
    Option<&'c ExtendedJob<'static>>)
    ensures
        same_ref(job, extended_future_of(*channel, job_id)),
{
    channel.get_future_job(job_id)
}

/// The parts of an extended job.
pub uninterp spec fn extended_fields_of(job: ExtendedJob<'static>) -> ExtendedFields;

/// Reads the parts of an `ExtendedJob` that a proof needs with its getters. Claimed: they depend
/// on the job alone.
#[verifier::external_body]
pub(crate) fn extended_parts(job: &ExtendedJob<'static>) -> (parts: ExtendedJobParts)
    ensures
        parts@ == extended_fields_of(*job),
{
    ExtendedJobParts {
        job_id: job.get_job_id(),
        extranonce_prefix: job.get_extranonce_prefix().to_vec(),
        coinbase_tx_prefix: job.get_coinbase_tx_prefix_without_bip141(),
        coinbase_tx_suffix: job.get_coinbase_tx_suffix_without_bip141(),
        merkle_path: job.get_merkle_path().iter().map(|node| node.to_array()).collect(),
        coinbase_outputs: job.get_coinbase_outputs().iter().map(|output| TxOut {
            value: output.value.to_sat(), script_pubkey: output.script_pubkey.to_bytes(),
        }).collect(),
    }
}

/// The message that announces an extended job.
pub uninterp spec fn extended_message_of(job: ExtendedJob<'static>) -> NewExtendedMiningJob<
    'static,
>;

/// Calls `ExtendedJob::get_job_message`. Claimed: the message depends on the job alone.
#[verifier::external_body]
pub(crate) fn extended_message(job: &ExtendedJob<'static>) -> (message: NewExtendedMiningJob<
    'static,
>)
    ensures
        message == extended_message_of(*job),
{
    job.get_job_message().clone()
}

/// A share of an extended channel with its extranonce as a sequence of bytes.
pub ghost struct ExtendedShare {
    pub channel_id: u32,
    pub sequence_number: u32,
    pub job_id: u32,
    pub nonce: u32,
    pub ntime: u32,
    pub version: u32,
    pub extranonce: Seq<u8>,
}

impl View for SubmitSharesExtended {
    type V = ExtendedShare;

    open spec fn view(&self) -> ExtendedShare {
        ExtendedShare {
            channel_id: self.channel_id,
            sequence_number: self.sequence_number,
            job_id: self.job_id,
            nonce: self.nonce,
            ntime: self.ntime,
            version: self.version,
            extranonce: self.extranonce@,
        }
    }
}

/// Whether two extended channels have the same work.
pub open spec fn same_extended_work(
    a: ExtendedChannel<'static>,
    b: ExtendedChannel<'static>,
) -> bool {
    &&& extended_target_of(a) == extended_target_of(b)
    &&& extended_prefix_of(a) == extended_prefix_of(b)
    &&& extended_rollable_of(a) == extended_rollable_of(b)
    &&& extended_tip_of(a) == extended_tip_of(b)
    &&& extended_active_of(a) == extended_active_of(b)
    &&& extended_last_job_of(a) == extended_last_job_of(b)
    &&& forall|job_id: u32| #[trigger]
        extended_past_of(a, job_id) == extended_past_of(b, job_id)
}

/// An extended channel after a share, and what it finds about the share.
pub uninterp spec fn extended_validated(
    channel: ExtendedChannel<'static>,
    share: ExtendedShare,
) -> (ExtendedChannel<'static>, Finding);

/// Calls `ExtendedChannel::validate_share`. Claimed: the finding and what the channel becomes
/// depend on the channel and the share alone; the channel keeps its work; it accepts a share
/// only if it has the job of the share and a chain tip and the coinbase of the share is a
/// transaction, with the hash of the header that the share solves; and it counts a share that it
/// accepts. A count that is full has no room for one more.
#[verifier::external_body]
pub(crate) fn validate_extended(
    channel: &mut ExtendedChannel<'static>,
    share: &SubmitSharesExtended,
) -> (finding: Result<ShareAccepted, ShareValidationError>)
    requires
        share.extranonce@.len() <= 32,
        extended_counts_of(*old(channel)).has_extended_room(),
    ensures
        *final(channel) == extended_validated(*old(channel), share@).0,
        same_finding(finding, extended_validated(*old(channel), share@).1),
        same_extended_work(*final(channel), *old(channel)),
        finding is Ok ==> is_hash_of(
            hash_of(finding->Ok_0@),
            crate::evidence::extended_channel_header(*final(channel), share@),
        ),
        finding is Ok ==> is_count_of(
            extended_counts_of(*old(channel)),
            extended_counts_of(*final(channel)),
            finding->Ok_0@,
        ),
{
    let (channel_id, sequence_number) = (share.channel_id, share.sequence_number);
    let (job_id, nonce, ntime, version) = (share.job_id, share.nonce, share.ntime, share.version);
    let extranonce = share.extranonce.clone().try_into().expect("at most 32 bytes");
    let outside = mining_sv2::SubmitSharesExtended {
        channel_id, sequence_number, job_id, nonce, ntime, version, extranonce,
    };
    Ok(match channel.validate_share(outside)? {
        ShareValidationResult::Valid(hash) => ShareAccepted::Valid { hash: hash.to_byte_array() },
        ShareValidationResult::BlockFound(hash, template_id, coinbase) =>
            ShareAccepted::BlockFound { hash: hash.to_byte_array(), template_id, coinbase },
    })
}

/// An extended channel after a template, and why it takes none.
pub uninterp spec fn extended_with_template(
    channel: ExtendedChannel<'static>,
    template: OutsideTemplate<'static>,
    outputs: Seq<crate::work::Output>,
) -> (ExtendedChannel<'static>, Option<Seq<char>>);

/// Calls `ExtendedChannel::on_new_template`. Claimed: whether the channel takes the template, and
/// what it becomes, depend on the channel, the template and the outputs alone; it takes only outputs
/// that spend what the template leaves; it makes one job of a template that it takes, and at most
/// one of any other; and once it has taken a template for the future, it has a future job for it
/// with the next id whose outputs start with the given ones. The ids of jobs end with the greatest
/// 32-bit number.
#[verifier::external_body]
pub(crate) fn extended_take_template(
    channel: &mut ExtendedChannel<'static>,
    template: &NewTemplate,
    message: OutsideTemplate<'static>,
    outputs: &Vec<TxOut>,
) -> (taken: Result<(), String>)
    requires
        message == template_message(template@),
        crate::work::total_value(crate::work::outputs_of(outputs@)) <= u64::MAX,
        extended_last_job_of(*old(channel)) < u32::MAX,
    ensures
        ({
            let after = extended_with_template(
                *old(channel),
                message,
                crate::work::outputs_of(outputs@),
            );
            *final(channel) == after.0 && same_failure(taken, after.1)
        }),
        is_next_job(
            extended_last_job_of(*old(channel)),
            extended_last_job_of(*final(channel)),
            taken is Ok,
        ),
        taken is Ok ==> crate::work::total_value(crate::work::outputs_of(outputs@))
            == template.coinbase_tx_value_remaining,
        taken is Ok && template.future_template ==> {
            let id = extended_future_id_of(*final(channel), template.template_id);
            let job = extended_future_of(*final(channel), id->0);
            &&& id is Some
            &&& job is Some
            &&& extended_fields_of(job->0).job_id == id->0
            &&& id->0 == extended_last_job_of(*final(channel))
            &&& starts_with(
                extended_fields_of(job->0).coinbase_outputs,
                crate::work::outputs_of(outputs@),
            )
        },
{
    let outputs = outputs.iter().map(|output| bitcoin::TxOut {
        value: Amount::from_sat(output.value),
        script_pubkey: ScriptBuf::from_bytes(output.script_pubkey.clone()),
    }).collect();
    channel.on_new_template(message, outputs).map_err(|error| format!("{error:?}"))
}

/// An extended channel after a chain tip, and why it takes none.
pub uninterp spec fn extended_with_prev_hash(
    channel: ExtendedChannel<'static>,
    tip: OutsidePrevHash<'static>,
) -> (ExtendedChannel<'static>, Option<Seq<char>>);

/// Calls `ExtendedChannel::on_set_new_prev_hash`. Claimed: whether the channel takes the chain
/// tip, and what it becomes, depend on the channel and the chain tip alone; one that it takes is its
/// chain tip from now on; it makes no job of it; and the future job of the template that the chain
/// tip names, if there is one, becomes the active job, with the same parts.
#[verifier::external_body]
pub(crate) fn extended_take_prev_hash(
    channel: &mut ExtendedChannel<'static>,
    tip: &SetNewPrevHash,
    message: OutsidePrevHash<'static>,
) -> (taken: Result<(), String>)
    requires
        message == prev_hash_message(tip@),
    ensures
        *final(channel) == extended_with_prev_hash(*old(channel), message).0,
        same_failure(taken, extended_with_prev_hash(*old(channel), message).1),
        extended_last_job_of(*final(channel)) == extended_last_job_of(*old(channel)),
        taken is Ok ==> extended_tip_of(*final(channel)) == Some(kept_tip(tip@)),
        ({
            let id = extended_future_id_of(*old(channel), tip.template_id);
            let job = extended_future_of(*old(channel), id->0);
            id is Some && job is Some ==> {
                &&& taken is Ok
                &&& extended_active_of(*final(channel)) is Some
                &&& extended_fields_of(extended_active_of(*final(channel))->0)
                    == extended_fields_of(job->0)
            }
        }),
{
    channel.on_set_new_prev_hash(message).map_err(|error| format!("{error:?}"))
}

/// The id of a job that a miner made, or why there is none.
pub type CustomJob = Result<u32, Seq<char>>;

/// An extended channel after a job that a miner made, and the id of the job or why there is none.
pub uninterp spec fn extended_with_custom_job(
    channel: ExtendedChannel<'static>,
    job: SetCustomMiningJob<'static>,
) -> (ExtendedChannel<'static>, CustomJob);

/// Calls `ExtendedChannel::on_set_custom_mining_job`. Claimed: whether the channel takes the job,
/// under which id, and what it becomes, depend on the channel and the job alone; a job that it takes
/// gets the next id; and it makes at most one of any other. The ids of jobs end with the greatest
/// 32-bit number.
#[verifier::external_body]
pub(crate) fn extended_take_custom_job(
    channel: &mut ExtendedChannel<'static>,
    job: SetCustomMiningJob<'static>,
) -> (job_id: Result<u32, String>)
    requires
        extended_last_job_of(*old(channel)) < u32::MAX,
    ensures
        is_next_job(
            extended_last_job_of(*old(channel)),
            extended_last_job_of(*final(channel)),
            job_id is Ok,
        ),
        job_id matches Ok(id) ==> id == extended_last_job_of(*final(channel)),
        ({
            let after = extended_with_custom_job(*old(channel), job);
            *final(channel) == after.0 && match job_id {
                Ok(id) => after.1 == CustomJob::Ok(id),
                Err(message) => after.1 == CustomJob::Err(message@),
            }
        }),
{
    channel.on_set_custom_mining_job(job).map_err(|error| format!("{error:?}"))
}

/// The channels of a group.
pub uninterp spec fn group_members(group: GroupChannel<'static>) -> Set<u32>;

/// The id of a group.
pub uninterp spec fn group_number(group: GroupChannel<'static>) -> u32;

/// The length of the extranonce of each channel of a group.
pub uninterp spec fn group_extranonce_size(group: GroupChannel<'static>) -> usize;

/// Calls `GroupChannel::get_group_channel_id`. Claimed: it is the id of the group.
#[verifier::external_body]
pub(crate) fn group_id(group: &GroupChannel<'static>) -> (id: u32)
    ensures
        id == group_number(*group),
{
    group.get_group_channel_id()
}

/// Calls `GroupChannel::has_channel_id`. Claimed: it tells whether the channel is in the group.
#[verifier::external_body]
pub(crate) fn group_has(group: &GroupChannel<'static>, channel_id: u32) -> (there: bool)
    ensures
        there == group_members(*group).contains(channel_id),
{
    group.has_channel_id(channel_id)
}

/// Calls `GroupChannel::remove_channel_id`. Claimed: the channel leaves the group, and nothing
/// else changes.
#[verifier::external_body]
pub(crate) fn group_remove(group: &mut GroupChannel<'static>, channel_id: u32)
    ensures
        group_members(*final(group)) == group_members(*old(group)).remove(channel_id),
        group_number(*final(group)) == group_number(*old(group)),
        group_extranonce_size(*final(group)) == group_extranonce_size(*old(group)),
{
    group.remove_channel_id(channel_id);
}

/// Calls `GroupChannel::add_channel_id`. Claimed: the channel enters the group in any case, and an
/// error is reported unless its extranonce is as long as the group wants it.
#[verifier::external_body]
pub(crate) fn group_add(
    group: &mut GroupChannel<'static>,
    channel_id: u32,
    extranonce_size: usize,
) -> (added: bool)
    ensures
        added == (extranonce_size == group_extranonce_size(*old(group))),
        group_members(*final(group)) == group_members(*old(group)).insert(channel_id),
        group_number(*final(group)) == group_number(*old(group)),
        group_extranonce_size(*final(group)) == group_extranonce_size(*old(group)),
{
    group.add_channel_id(channel_id, extranonce_size).is_ok()
}

/// The shares that were counted since the difficulty was last adjusted.
pub uninterp spec fn vardiff_shares(state: VardiffState) -> u32;

/// The time at which the difficulty was last adjusted, in seconds since the epoch.
pub uninterp spec fn vardiff_time(state: VardiffState) -> u64;

/// The state of an adjustment of difficulty once a share more is counted.
pub uninterp spec fn vardiff_counted(state: VardiffState) -> VardiffState;

/// Calls `VardiffState::new`, which reads the clock; `None` if the clock stands before the epoch.
/// Claimed: no share is counted yet.
#[verifier::external_body]
pub(crate) fn new_vardiff() -> (state: Option<VardiffState>)
    ensures
        state matches Some(s) ==> vardiff_shares(s) == 0,
{
    VardiffState::new().ok()
}

/// Calls `Vardiff::shares_since_last_update`. Claimed: it is the number of shares counted.
#[verifier::external_body]
pub(crate) fn vardiff_count(state: &VardiffState) -> (count: u32)
    ensures
        count == vardiff_shares(*state),
{
    state.shares_since_last_update()
}

/// Calls `Vardiff::increment_shares_since_last_update`. Claimed: what the state becomes depends on the
/// state alone; one share more is counted; and the time of the last adjustment stays.
#[verifier::external_body]
pub(crate) fn vardiff_increment(state: &mut VardiffState)
    requires
        vardiff_shares(*old(state)) < u32::MAX,
    ensures
        *final(state) == vardiff_counted(*old(state)),
        vardiff_shares(*final(state)) == vardiff_shares(*old(state)) + 1,
        vardiff_time(*final(state)) == vardiff_time(*old(state)),
{
    state.increment_shares_since_last_update();
}

/// How many bytes of the extranonce are left for miners to roll.
pub uninterp spec fn allocator_rollable(allocator: ExtranonceAllocator) -> u8;

/// The length of the whole extranonce that an allocator hands out prefixes of.
pub uninterp spec fn allocator_total(allocator: ExtranonceAllocator) -> u8;

/// The bytes of an extranonce prefix.
pub uninterp spec fn prefix_bytes(prefix: AllocatedExtranoncePrefix) -> Seq<u8>;

/// Calls `ExtranonceAllocator::allocate_standard`. Claimed: a prefix is as long as the whole
/// extranonce, and neither its length nor what miners may roll changes. Whether a prefix is left is not stated: prefixes come back when their channels are dropped.
#[verifier::external_body]
pub(crate) fn allocate_standard(allocator: &mut ExtranonceAllocator) -> (prefix: Result<
    AllocatedExtranoncePrefix,
    String,
>)
    ensures
        prefix matches Ok(p) ==> prefix_bytes(p).len() == allocator_total(*old(allocator)),
        allocator_total(*final(allocator)) == allocator_total(*old(allocator)),
        allocator_rollable(*final(allocator)) == allocator_rollable(*old(allocator)),
{
    allocator.allocate_standard().map_err(|error| error.to_string())
}

/// Why there is no extranonce prefix for an extended channel.
#[derive(Clone, Copy, Debug, PartialEq, Eq, Structural)]
pub enum AllocationFault {
    /// The miner wants to roll more bytes than are left for miners.
    RollableTooLarge,
    /// All prefixes are taken.
    Exhausted,
}

/// Calls `ExtranonceAllocator::allocate_extended`. Claimed: a miner is told that it wants to roll too
/// much if and only if it wants to roll more than is left; a prefix is the whole extranonce less what
/// miners may roll; and neither length changes. Whether a prefix is left otherwise is not stated:
/// prefixes come back when their channels are dropped.
#[verifier::external_body]
pub(crate) fn allocate_extended(allocator: &mut ExtranonceAllocator, min_size: u16) -> (prefix:
    Result<AllocatedExtranoncePrefix, AllocationFault>)
    ensures
        (prefix matches Err(fault) && fault is RollableTooLarge) <==> min_size
            > allocator_rollable(*old(allocator)),
        prefix matches Ok(p) ==> prefix_bytes(p).len() + allocator_rollable(*old(allocator))
            == allocator_total(*old(allocator)),
        allocator_total(*final(allocator)) == allocator_total(*old(allocator)),
        allocator_rollable(*final(allocator)) == allocator_rollable(*old(allocator)),
{
    match allocator.allocate_extended(min_size.into()) {
        Ok(prefix) => Ok(prefix),
        Err(ExtranonceAllocatorError::InvalidRollableSize) => Err(AllocationFault::RollableTooLarge),
        Err(_) => Err(AllocationFault::Exhausted),
    }
}

} // verus!
