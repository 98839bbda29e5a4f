//! The channel manager: how the pool answers what miners ask of their channels.

use crate::channel::{
    difficulty, extended_accounting, extended_active, extended_counts, extended_parts,
    extended_take_custom_job, extended_target, group_has, group_remove, share_fault,
    standard_accounting, standard_active, standard_counts, standard_parts, standard_target,
    validate_extended, validate_standard, vardiff_count, vardiff_increment, Accounting,
    ShareAccepted,
};
use crate::client::GridPoolClient;
use crate::clock::{now_millis, now_seconds};
use crate::evidence::{build_extended_gridpool_proof, build_standard_gridpool_proof};
use crate::identity::PayoutMode;
use crate::message::{
    one_message, push_message, MiningMessage, PoolError, PoolErrorKind, RouteMessageTo,
    ShareFaultKind, SubmitSharesExtended, SubmitSharesStandard,
};
use crate::number::Double;
use crate::telemetry::TelemetryDelta;
use crate::template::{NewTemplate, SetNewPrevHash, SubmitSolution};
use crate::work::{ChannelPayout, ShareSubmission, TxOut};
use std::collections::HashMap;
use stratum_apps::stratum_core::channels_sv2::server::extended::ExtendedChannel;
use stratum_apps::stratum_core::channels_sv2::server::group::GroupChannel;
use stratum_apps::stratum_core::channels_sv2::server::share_accounting::ShareValidationError;
use stratum_apps::stratum_core::channels_sv2::server::standard::StandardChannel;
use stratum_apps::stratum_core::channels_sv2::VardiffState;
use stratum_apps::stratum_core::mining_sv2::SetCustomMiningJob;
use vstd::prelude::*;

verus! {

broadcast use vstd::std_specs::hash::group_hash_axioms;

/// The connection of a miner.
#[derive(Debug)]
pub struct Downstream {
    pub downstream_id: usize,
    /// The miner makes its own jobs.
    pub requires_custom_work: bool,
    /// The miner takes standard jobs only.
    pub requires_standard_jobs: bool,
    pub negotiated_extensions: Vec<u16>,
    /// The id of the next channel.
    pub next_channel_id: u32,
    /// The payout mode of the channel that was asked for last.
    pub payout_mode: Option<PayoutMode>,
    pub group_channel: GroupChannel<'static>,
    pub standard_channels: HashMap<u32, StandardChannel<'static>>,
    pub extended_channels: HashMap<u32, ExtendedChannel<'static>>,
    /// For each extended channel, a number that the id of no job exceeds that it has made.
    pub last_job_ids: HashMap<u32, u32>,
}

impl Downstream {
    /// Whether the connection is in a state that the operations of the library keep: it knows how
    /// far the ids of the jobs of each extended channel may have come.
    pub open spec fn wf(self) -> bool {
        forall|channel_id: u32| #[trigger]
            self.extended_channels@.contains_key(channel_id) ==> self.last_job_ids@.contains_key(
                channel_id,
            ) && crate::channel::extended_last_job_of(self.extended_channels@[channel_id])
                <= self.last_job_ids@[channel_id]
    }

    /// Whether an extended channel, if it is there, has an id left for one more job.
    pub open spec fn has_job_room(self, channel_id: u32) -> bool {
        self.extended_channels@.contains_key(channel_id) ==> crate::channel::extended_last_job_of(
            self.extended_channels@[channel_id],
        ) < u32::MAX
    }

    /// Whether the connection knows of an id that an extended channel has left for one more job;
    /// of a channel that is not there, it knows.
    pub fn can_take_job(&self, channel_id: u32) -> (room: bool)
        requires
            self.wf(),
        ensures
            room == (self.extended_channels@.contains_key(channel_id)
                ==> self.last_job_ids@[channel_id] < u32::MAX),
            room ==> self.has_job_room(channel_id),
    {
        if !self.extended_channels.contains_key(&channel_id) {
            return true;
        }
        match self.last_job_ids.get(&channel_id) {
            Some(last) => *last < u32::MAX,
            None => true,
        }
    }
}

/// What the pool knows of all connections together.
#[derive(Debug)]
pub struct ChannelManager {
    /// The adapter of the GridPool node, if one is attached.
    pub gridpool: Option<GridPoolClient>,
    /// Who is paid for a channel, by its slot.
    pub gridpool_channels: HashMap<u128, ChannelPayout>,
    /// The adjustment of a channel's difficulty, by its slot.
    pub vardiff: HashMap<u128, VardiffState>,
    /// The last template for a chain tip to come.
    pub last_future_template: Option<NewTemplate>,
    /// The last chain tip.
    pub last_new_prev_hash: Option<SetNewPrevHash>,
    pub pool_tag_string: String,
    /// The script that the pool is paid with.
    pub coinbase_reward_script: Vec<u8>,
}

/// The number under which a channel of a connection is listed.
pub open spec fn slot(downstream_id: usize, channel_id: u32) -> u128 {
    (downstream_id * 0x1_0000_0000 + channel_id) as u128
}

/// No two channels have the same slot.
pub proof fn slots_are_distinct(a: usize, b: usize, x: u32, y: u32)
    requires
        slot(a, x) == slot(b, y),
    ensures
        a == b,
        x == y,
{
}

/// The number under which a channel of a connection is listed.
pub(crate) fn slot_of(downstream_id: usize, channel_id: u32) -> (number: u128)
    ensures
        number == slot(downstream_id, channel_id),
{
    downstream_id as u128 * 0x1_0000_0000 + channel_id as u128
}

/// The number by which the adapter knows a channel: the low half of the connection's number in
/// front of the channel's.
pub open spec fn pulse_key(downstream_id: usize, channel_id: u32) -> u64 {
    ((downstream_id as int % 0x1_0000_0000) * 0x1_0000_0000 + channel_id) as u64
}

/// Of connections with numbers of 32 bits, the adapter takes no two channels for the same.
pub proof fn pulse_keys_are_distinct(a: usize, b: usize, x: u32, y: u32)
    requires
        a < 0x1_0000_0000,
        b < 0x1_0000_0000,
        pulse_key(a, x) == pulse_key(b, y),
    ensures
        a == b,
        x == y,
{
}

/// The number by which the adapter knows a channel.
fn pulse_key_of(downstream_id: usize, channel_id: u32) -> (key: u64)
    ensures
        key == pulse_key(downstream_id, channel_id),
{
    (downstream_id as u64 % 0x1_0000_0000) * 0x1_0000_0000 + channel_id as u64
}

/// Whether all but the channels is the same in two states of a connection.
pub open spec fn same_but_channels(a: Downstream, b: Downstream) -> bool {
    &&& a.downstream_id == b.downstream_id
    &&& a.requires_custom_work == b.requires_custom_work
    &&& a.requires_standard_jobs == b.requires_standard_jobs
    &&& a.negotiated_extensions == b.negotiated_extensions
    &&& a.next_channel_id == b.next_channel_id
    &&& a.payout_mode == b.payout_mode
}

/// Whether all but the lists of channels is the same in two managers.
pub open spec fn same_but_lists(a: ChannelManager, b: ChannelManager) -> bool {
    &&& a.gridpool == b.gridpool
    &&& a.last_future_template == b.last_future_template
    &&& a.last_new_prev_hash == b.last_new_prev_hash
    &&& a.pool_tag_string == b.pool_tag_string
    &&& a.coinbase_reward_script == b.coinbase_reward_script
}

/// Whether a channel of a connection is nowhere listed.
pub open spec fn is_forgotten(m: ChannelManager, d: Downstream, channel_id: u32) -> bool {
    &&& !d.standard_channels@.contains_key(channel_id)
    &&& !d.extended_channels@.contains_key(channel_id)
    &&& !d.last_job_ids@.contains_key(channel_id)
    &&& !crate::channel::group_members(d.group_channel).contains(channel_id)
    &&& !m.vardiff@.contains_key(slot(d.downstream_id, channel_id))
    &&& !m.gridpool_channels@.contains_key(slot(d.downstream_id, channel_id))
}

/// What closing a channel of a connection does: it leaves every list, and nothing else changes.
pub open spec fn channel_closed(
    m: ChannelManager,
    d: Downstream,
    m_after: ChannelManager,
    d_after: Downstream,
    channel_id: u32,
) -> bool {
    let number = slot(d.downstream_id, channel_id);
    &&& d_after.standard_channels@ == d.standard_channels@.remove(channel_id)
    &&& d_after.extended_channels@ == d.extended_channels@.remove(channel_id)
    &&& d_after.last_job_ids@ == d.last_job_ids@.remove(channel_id)
    &&& crate::channel::group_members(d_after.group_channel) == crate::channel::group_members(
        d.group_channel,
    ).remove(channel_id)
    &&& same_group(d_after, d)
    &&& same_but_channels(d_after, d)
    &&& m_after.vardiff@ == m.vardiff@.remove(number)
    &&& m_after.gridpool_channels@ == m.gridpool_channels@.remove(number)
    &&& same_but_lists(m_after, m)
}

/// Whether the groups of two states of a connection are the same but for their channels.
pub open spec fn same_group(a: Downstream, b: Downstream) -> bool {
    &&& crate::channel::group_number(a.group_channel) == crate::channel::group_number(
        b.group_channel,
    )
    &&& crate::channel::group_extranonce_size(a.group_channel)
        == crate::channel::group_extranonce_size(b.group_channel)
}

/// The parts of a share that its answer needs.
#[derive(Clone, Copy, Debug)]
pub struct ShareHead {
    pub channel_id: u32,
    pub sequence_number: u32,
    pub version: u32,
    pub ntime: u32,
    pub nonce: u32,
}

/// Whether a miner is told why its share was not accepted. Otherwise its connection ends.
pub open spec fn is_answered(kind: ShareFaultKind, extended: bool) -> bool {
    match kind {
        ShareFaultKind::InvalidCoinbase => false,
        ShareFaultKind::NoChainTip => false,
        ShareFaultKind::BadExtranonceSize => extended,
        _ => true,
    }
}

/// The message that acknowledges shares.
pub open spec fn acknowledgement(channel_id: u32, accounting: Accounting) -> crate::message::Mining {
    crate::message::Mining::SubmitSharesSuccess {
        channel_id,
        last_sequence_number: accounting.last_sequence_number,
        new_submits_accepted_count: accounting.last_batch_accepted,
        new_shares_sum: accounting.last_batch_work_sum,
    }
}

/// The message that a share was not accepted.
pub open spec fn share_refusal(head: ShareHead, code: Seq<char>) -> crate::message::Mining {
    crate::message::Mining::SubmitSharesError {
        channel_id: head.channel_id,
        sequence_number: head.sequence_number,
        error_code: code,
    }
}

/// The answer to a share, when the channel found about it what `finding` says and has then
/// counted what `accounting` says. A good share is acknowledged when a batch is full. A block is
/// acknowledged at once, and its solution goes to the template provider if its job is that of a
/// template; a coinbase that does not fit the message ends the pool.
pub open spec fn share_reply(
    extended: bool,
    downstream_id: usize,
    head: ShareHead,
    finding: crate::channel::Finding,
    accounting: Accounting,
) -> crate::message::Replies {
    match finding {
        Ok(crate::channel::Accepted::Valid { hash }) => if accounting.should_acknowledge {
            Ok(
                crate::message::to_miner(
                    downstream_id,
                    acknowledgement(head.channel_id, accounting),
                ),
            )
        } else {
            Ok(Seq::empty())
        },
        Ok(crate::channel::Accepted::BlockFound { hash, template_id, coinbase }) => {
            let success = crate::message::to_miner(
                downstream_id,
                acknowledgement(head.channel_id, accounting),
            );
            match template_id {
                None => Ok(success),
                Some(id) => if coinbase.len() > 0xffff {
                    Err(
                        crate::message::Failure::Shutdown {
                            kind: crate::message::ErrorKind::FieldTooLong,
                        },
                    )
                } else {
                    Ok(
                        seq![
                            crate::message::Route::TemplateProvider {
                                template_id: id,
                                version: head.version,
                                header_timestamp: head.ntime,
                                header_nonce: head.nonce,
                                coinbase_tx: coinbase,
                            },
                        ] + success,
                    )
                },
            }
        },
        Err(error) => {
            let fault = crate::channel::fault_of(error);
            if is_answered(fault.0, extended) {
                Ok(crate::message::to_miner(downstream_id, share_refusal(head, fault.1)))
            } else {
                Err(
                    crate::message::Failure::Disconnect {
                        downstream_id,
                        kind: crate::message::ErrorKind::ShareValidation { kind: fault.0 },
                    },
                )
            }
        },
    }
}

/// A block that is found for a template always reaches the template provider, whatever else
/// happens to the share.
pub proof fn found_blocks_reach_the_template_provider(
    extended: bool,
    downstream_id: usize,
    head: ShareHead,
    hash: Seq<u8>,
    template_id: u64,
    coinbase: Seq<u8>,
    accounting: Accounting,
)
    requires
        coinbase.len() <= 0xffff,
    ensures
        ({
            let found = crate::channel::Accepted::BlockFound {
                hash,
                template_id: Some(template_id),
                coinbase,
            };
            let reply = share_reply(
                extended,
                downstream_id,
                head,
                crate::channel::Finding::Ok(found),
                accounting,
            );
            &&& reply is Ok
            &&& reply->Ok_0[0] == crate::message::Route::TemplateProvider {
                template_id,
                version: head.version,
                header_timestamp: head.ntime,
                header_nonce: head.nonce,
                coinbase_tx: coinbase,
            }
        }),
{
}

/// The message that acknowledges shares.
fn acknowledge(channel_id: u32, accounting: Accounting) -> (message: MiningMessage)
    ensures
        message@ == acknowledgement(channel_id, accounting),
{
    MiningMessage::SubmitSharesSuccess {
        channel_id,
        last_sequence_number: accounting.last_sequence_number,
        new_submits_accepted_count: accounting.last_batch_accepted,
        new_shares_sum: accounting.last_batch_work_sum,
    }
}

/// Whether a miner is told why its share was not accepted.
fn answered(kind: ShareFaultKind, extended: bool) -> (told: bool)
    ensures
        told == is_answered(kind, extended),
{
    match kind {
        ShareFaultKind::InvalidCoinbase => false,
        ShareFaultKind::NoChainTip => false,
        ShareFaultKind::BadExtranonceSize => extended,
        _ => true,
    }
}

/// The finding that a result is.
pub open spec fn finding_of(result: Result<ShareAccepted, ShareValidationError>) ->
    crate::channel::Finding {
    match result {
        Ok(accepted) => Ok(accepted@),
        Err(error) => Err(error),
    }
}

/// The answer to a share, when the channel found about it what `finding` says and has then
/// counted what `accounting` says.
pub fn reply_to_share(
    extended: bool,
    downstream_id: usize,
    head: ShareHead,
    finding: Result<ShareAccepted, ShareValidationError>,
    accounting: Accounting,
) -> (replies: Result<Vec<RouteMessageTo>, PoolError>)
    ensures
        crate::message::same_replies(
            replies,
            share_reply(extended, downstream_id, head, finding_of(finding), accounting),
        ),
{
    match finding {
        Ok(ShareAccepted::Valid { hash }) => if accounting.should_acknowledge {
            Ok(one_message(downstream_id, acknowledge(head.channel_id, accounting)))
        } else {
            let none: Vec<RouteMessageTo> = Vec::new();
            assert(crate::message::routes(none@) =~= Seq::<crate::message::Route>::empty());
            Ok(none)
        },
        Ok(ShareAccepted::BlockFound { hash, template_id, coinbase }) => match template_id {
            None => Ok(one_message(downstream_id, acknowledge(head.channel_id, accounting))),
            Some(id) => {
                if coinbase.len() > 0xffff {
                    return Err(PoolError::Shutdown { kind: PoolErrorKind::FieldTooLong });
                }
                let mut messages: Vec<RouteMessageTo> = Vec::new();
                let solution = SubmitSolution {
                    template_id: id,
                    version: head.version,
                    header_timestamp: head.ntime,
                    header_nonce: head.nonce,
                    coinbase_tx: coinbase,
                };
                messages.push(RouteMessageTo::TemplateProvider { solution });
                let ghost first = crate::message::routes(messages@);
                assert(first =~= seq![messages@[0]@]);
                push_message(
                    &mut messages,
                    downstream_id,
                    acknowledge(head.channel_id, accounting),
                );
                Ok(messages)
            },
        },
        Err(error) => {
            let fault = share_fault(error);
            if answered(fault.kind, extended) {
                Ok(
                    one_message(
                        downstream_id,
                        MiningMessage::SubmitSharesError {
                            channel_id: head.channel_id,
                            sequence_number: head.sequence_number,
                            error_code: fault.code,
                        },
                    ),
                )
            } else {
                Err(
                    PoolError::Disconnect {
                        downstream_id,
                        kind: PoolErrorKind::ShareValidation { kind: fault.kind },
                    },
                )
            }
        },
    }
}

/// The difficulty that an accepted share reached.
pub open spec fn achieved_by(accepted: crate::channel::Accepted) -> Double {
    Double {
        bits: crate::channel::difficulty_bits(crate::channel::hash_of(accepted)),
    }
}

/// What telemetry is told of a share of a channel with the given target. `fee_work` tells whether
/// the active job is mined for the operator.
pub open spec fn share_delta(
    channel_id: u32,
    payout: ChannelPayout,
    finding: crate::channel::Finding,
    target: Seq<u8>,
    fee_work: bool,
) -> crate::telemetry::Delta {
    match finding {
        Ok(accepted) => crate::telemetry::Delta {
            channel_id,
            payout_address: payout.payout_address@,
            username: payout.username@,
            accepted: true,
            work_difficulty: Double { bits: crate::channel::difficulty_bits(target) },
            achieved_difficulty: achieved_by(accepted),
            fee_work,
        },
        Err(_) => crate::telemetry::Delta {
            channel_id,
            payout_address: payout.payout_address@,
            username: payout.username@,
            accepted: false,
            work_difficulty: Double { bits: 0 },
            achieved_difficulty: Double { bits: 0 },
            fee_work: false,
        },
    }
}

/// Whether the outputs of the active job, if there is one, are those of a job for the operator.
pub open spec fn is_fee_work(
    client: GridPoolClient,
    outputs: Option<Seq<crate::work::Output>>,
    payout: ChannelPayout,
) -> bool {
    outputs is Some && client.pays_operator(outputs->0, payout.payout_address@)
}

/// Whether a proof of a share is wanted: of a block always, and of a good share as the adapter
/// decides.
pub open spec fn is_proof_wanted(
    client: GridPoolClient,
    key: u64,
    finding: crate::channel::Finding,
    now: u64,
) -> bool {
    match finding {
        Ok(accepted) => accepted is BlockFound || client.proves(
            key,
            achieved_by(accepted),
            false,
            now,
        ),
        Err(_) => false,
    }
}

/// Whether `after` is the adapter after a share: telemetry has counted it, and a pulse proof has
/// started a new interval.
pub open spec fn is_settled(
    before: GridPoolClient,
    after: GridPoolClient,
    delta: crate::telemetry::Delta,
    key: u64,
    finding: crate::channel::Finding,
    now_ms: u128,
    now: u64,
) -> bool {
    &&& after.wf()
    &&& after.telemetry@ == crate::telemetry::recorded(before.telemetry@, delta, now_ms)
    &&& after.last_pulse@ == match finding {
        Ok(crate::channel::Accepted::Valid { hash }) => before.pulses_after(
            key,
            Double { bits: crate::channel::difficulty_bits(hash) },
            false,
            now,
        ),
        _ => before.last_pulse@,
    }
    &&& after.config == before.config
    &&& after.token == before.token
    &&& after.work == before.work
    &&& after.advice == before.advice
}

/// Tells the adapter of a share, and says whether a proof of it is wanted.
fn settle_share(
    client: &mut GridPoolClient,
    payout: &ChannelPayout,
    channel_id: u32,
    key: u64,
    finding: &Result<ShareAccepted, ShareValidationError>,
    target: [u8; 32],
    outputs: &Option<Vec<TxOut>>,
    now_ms: u128,
    now: u64,
) -> (wanted: bool)
    requires
        old(client).wf(),
        old(client).telemetry.can_count(channel_id, payout.payout_address@, false),
    ensures
        ({
            let listed = match *outputs {
                Some(list) => Some(crate::work::outputs_of(list@)),
                None => None,
            };
            let delta = share_delta(
                channel_id,
                *payout,
                finding_of(*finding),
                target@,
                is_fee_work(*old(client), listed, *payout),
            );
            is_settled(
                *old(client),
                *final(client),
                delta,
                key,
                finding_of(*finding),
                now_ms,
                now,
            )
        }),
        wanted == is_proof_wanted(*old(client), key, finding_of(*finding), now),
{
    match finding {
        Ok(accepted) => {
            let (hash, is_block) = match accepted {
                ShareAccepted::Valid { hash } => (*hash, false),
                ShareAccepted::BlockFound { hash, template_id, coinbase } => (*hash, true),
            };
            let achieved_difficulty = difficulty(hash);
            let fee_work = match outputs {
                Some(list) => client.is_fee_job(list.as_slice(), payout),
                None => false,
            };
            client.record_telemetry_at(
                TelemetryDelta {
                    channel_id,
                    payout_address: payout.payout_address.clone(),
                    username: payout.username.clone(),
                    accepted: true,
                    work_difficulty: difficulty(target),
                    achieved_difficulty,
                    fee_work,
                },
                now_ms,
            );
            if is_block {
                true
            } else {
                client.should_submit_proof_at(key, achieved_difficulty, false, now)
            }
        },
        Err(_) => {
            client.record_telemetry_at(
                TelemetryDelta {
                    channel_id,
                    payout_address: payout.payout_address.clone(),
                    username: payout.username.clone(),
                    accepted: false,
                    work_difficulty: Double::zero(),
                    achieved_difficulty: Double::zero(),
                    fee_work: false,
                },
                now_ms,
            );
            false
        },
    }
}

/// What to do about a share.
#[derive(Debug)]
pub struct ShareAnswer {
    /// The proof to submit to the GridPool node.
    pub proof: Option<ShareSubmission>,
    /// The messages to send, or what ends.
    pub replies: Result<Vec<RouteMessageTo>, PoolError>,
}

/// The head of a share of a standard channel.
pub open spec fn standard_head(share: SubmitSharesStandard) -> ShareHead {
    ShareHead {
        channel_id: share.channel_id,
        sequence_number: share.sequence_number,
        version: share.version,
        ntime: share.ntime,
        nonce: share.nonce,
    }
}

/// The head of a share of an extended channel.
pub open spec fn extended_head(share: SubmitSharesExtended) -> ShareHead {
    ShareHead {
        channel_id: share.channel_id,
        sequence_number: share.sequence_number,
        version: share.version,
        ntime: share.ntime,
        nonce: share.nonce,
    }
}

/// The outputs of the active job of a standard channel.
pub open spec fn standard_outputs(channel: StandardChannel<'static>) -> Option<
    Seq<crate::work::Output>,
> {
    match crate::channel::standard_active_of(channel) {
        Some(job) => Some(crate::channel::standard_fields_of(job).coinbase_outputs),
        None => None,
    }
}

/// The outputs of the active job of an extended channel.
pub open spec fn extended_outputs(channel: ExtendedChannel<'static>) -> Option<
    Seq<crate::work::Output>,
> {
    match crate::channel::extended_active_of(channel) {
        Some(job) => Some(crate::channel::extended_fields_of(job).coinbase_outputs),
        None => None,
    }
}

/// The answer to a share of a channel that is not there.
pub open spec fn unknown_channel(downstream_id: usize, head: ShareHead) -> crate::message::Replies {
    Ok(crate::message::to_miner(downstream_id, share_refusal(head, "invalid-channel-id"@)))
}

/// The answer to a share of a channel whose difficulty is not adjusted any more.
pub open spec fn orphaned_channel(
    downstream_id: usize,
    channel_id: u32,
) -> crate::message::Replies {
    Ok(
        crate::message::to_miner(
            downstream_id,
            crate::message::Mining::CloseChannel { channel_id, reason_code: "invalid-channel-id"@ },
        ),
    )
}

/// Whether the adjustment of one channel's difficulty has counted one share more, with the time of
/// the last adjustment as it was, and nothing else has changed.
pub open spec fn is_counted(
    before: Map<u128, VardiffState>,
    after: Map<u128, VardiffState>,
    number: u128,
) -> bool {
    &&& after.dom() == before.dom()
    &&& after[number] == crate::channel::vardiff_counted(before[number])
    &&& crate::channel::vardiff_shares(after[number]) == crate::channel::vardiff_shares(
        before[number],
    ) + 1
    &&& crate::channel::vardiff_time(after[number]) == crate::channel::vardiff_time(before[number])
    &&& forall|other: u128|
        before.contains_key(other) && other != number ==> #[trigger] after[other] == before[other]
}

/// Whether all but the adapter and the adjustments of difficulty is the same in two managers.
pub open spec fn same_but_counts(a: ChannelManager, b: ChannelManager) -> bool {
    &&& a.gridpool_channels == b.gridpool_channels
    &&& a.last_future_template == b.last_future_template
    &&& a.last_new_prev_hash == b.last_new_prev_hash
    &&& a.pool_tag_string == b.pool_tag_string
    &&& a.coinbase_reward_script == b.coinbase_reward_script
}

impl ChannelManager {
    /// Whether the manager is in a state that its own operations keep: the adapter is, and the
    /// last template is one for a chain tip to come and fits its message.
    pub open spec fn wf(self) -> bool {
        &&& self.gridpool matches Some(client) ==> client.wf()
        &&& self.last_future_template matches Some(template) ==> template.fits()
            && template.future_template
    }

    /// Whether a share of a channel can still be counted for the adjustment of its difficulty and
    /// by the adapter.
    pub open spec fn has_room(self, downstream_id: usize, channel_id: u32) -> bool {
        let number = slot(downstream_id, channel_id);
        &&& self.vardiff@.contains_key(number) ==> crate::channel::vardiff_shares(
            self.vardiff@[number],
        ) < u32::MAX
        &&& self.gridpool is Some && self.gridpool_channels@.contains_key(number)
            ==> self.gridpool->0.telemetry.can_count(
            channel_id,
            self.gridpool_channels@[number].payout_address@,
            false,
        )
    }

    /// Whether a share of a standard channel can still be counted, also by the channel.
    pub open spec fn has_standard_room(self, d: Downstream, channel_id: u32) -> bool {
        &&& self.has_room(d.downstream_id, channel_id)
        &&& d.standard_channels@.contains_key(channel_id) ==> crate::channel::standard_counts_of(
            d.standard_channels@[channel_id],
        ).has_standard_room()
    }

    /// Whether a share of an extended channel can still be counted, also by the channel.
    pub open spec fn has_extended_room(self, d: Downstream, channel_id: u32) -> bool {
        &&& self.has_room(d.downstream_id, channel_id)
        &&& d.extended_channels@.contains_key(channel_id) ==> crate::channel::extended_counts_of(
            d.extended_channels@[channel_id],
        ).has_extended_room()
    }

    /// Whether a share of a channel can still be counted for the adjustment of its difficulty and
    /// by the adapter.
    fn can_count_share(&self, downstream_id: usize, channel_id: u32) -> (room: bool)
        requires
            self.wf(),
        ensures
            room == self.has_room(downstream_id, channel_id),
    {
        let number = slot_of(downstream_id, channel_id);
        if let Some(state) = self.vardiff.get(&number) {
            if vardiff_count(state) == u32::MAX {
                return false;
            }
        }
        if let Some(client) = &self.gridpool {
            if let Some(payout) = self.gridpool_channels.get(&number) {
                return client.can_record(channel_id, payout.payout_address.as_str(), false);
            }
        }
        true
    }

    /// Whether a share of a standard channel can still be counted.
    pub fn can_take_standard_share(&self, downstream: &Downstream, channel_id: u32) -> (room: bool)
        requires
            self.wf(),
        ensures
            room == self.has_standard_room(*downstream, channel_id),
    {
        let full = match downstream.standard_channels.get(&channel_id) {
            Some(channel) => !standard_counts(channel).can_count_standard(),
            None => false,
        };
        !full && self.can_count_share(downstream.downstream_id, channel_id)
    }

    /// Whether a share of an extended channel can still be counted.
    pub fn can_take_extended_share(&self, downstream: &Downstream, channel_id: u32) -> (room: bool)
        requires
            self.wf(),
        ensures
            room == self.has_extended_room(*downstream, channel_id),
    {
        let full = match downstream.extended_channels.get(&channel_id) {
            Some(channel) => !extended_counts(channel).can_count_extended(),
            None => false,
        };
        !full && self.can_count_share(downstream.downstream_id, channel_id)
    }

    /// Closes a channel.
    pub fn handle_close_channel(&mut self, downstream: &mut Downstream, channel_id: u32)
        requires
            old(self).wf(),
        ensures
            final(self).wf(),
            old(downstream).wf() ==> final(downstream).wf(),
            is_forgotten(*final(self), *final(downstream), channel_id),
            channel_closed(
                *old(self),
                *old(downstream),
                *final(self),
                *final(downstream),
                channel_id,
            ),
    {
        if group_has(&downstream.group_channel, channel_id) {
            group_remove(&mut downstream.group_channel, channel_id);
        }
        assert(crate::channel::group_members(downstream.group_channel)
            =~= crate::channel::group_members(old(downstream).group_channel).remove(channel_id));
        downstream.standard_channels.remove(&channel_id);
        downstream.extended_channels.remove(&channel_id);
        downstream.last_job_ids.remove(&channel_id);
        let number = slot_of(downstream.downstream_id, channel_id);
        self.vardiff.remove(&number);
        self.gridpool_channels.remove(&number);
    }

    /// Counts a share for the adjustment of a channel's difficulty.
    fn count_share(&mut self, number: u128)
        requires
            old(self).vardiff@.contains_key(number),
            crate::channel::vardiff_shares(old(self).vardiff@[number]) < u32::MAX,
        ensures
            is_counted(old(self).vardiff@, final(self).vardiff@, number),
            same_but_counts(*final(self), *old(self)),
            final(self).gridpool == old(self).gridpool,
    {
        if let Some(mut state) = self.vardiff.remove(&number) {
            vardiff_increment(&mut state);
            self.vardiff.insert(number, state);
        }
        assert(self.vardiff@.dom() =~= old(self).vardiff@.dom());
    }

    /// Takes a share of a standard channel at a time: `now_ms` in milliseconds and `now` in seconds
    /// since the epoch.
    pub fn handle_submit_shares_standard_at(
        &mut self,
        downstream: &mut Downstream,
        share: &SubmitSharesStandard,
        now_ms: u128,
        now: u64,
    ) -> (answer: ShareAnswer)
        requires
            old(self).wf(),
            old(self).has_standard_room(*old(downstream), share.channel_id),
        ensures
            final(self).wf(),
            old(downstream).wf() ==> final(downstream).wf(),
            standard_share_taken(
                *old(self),
                *old(downstream),
                *final(self),
                *final(downstream),
                *share,
                now_ms,
                now,
                answer,
            ),
            standard_proof_is_good(*old(self), *old(downstream), *share, now, answer),
    {
        let downstream_id = downstream.downstream_id;
        let channel_id = share.channel_id;
        let number = slot_of(downstream_id, channel_id);
        if !downstream.standard_channels.contains_key(&channel_id) {
            let refusal = MiningMessage::SubmitSharesError {
                channel_id,
                sequence_number: share.sequence_number,
                error_code: "invalid-channel-id".to_owned(),
            };
            return ShareAnswer { proof: None, replies: Ok(one_message(downstream_id, refusal)) };
        }
        if !self.vardiff.contains_key(&number) {
            let close = MiningMessage::CloseChannel {
                channel_id,
                reason_code: "invalid-channel-id".to_owned(),
            };
            return ShareAnswer { proof: None, replies: Ok(one_message(downstream_id, close)) };
        }
        let mut channel = downstream.standard_channels.remove(&channel_id).unwrap();
        let finding = validate_standard(&mut channel, share);
        let ghost judged = channel;
        let ghost found = finding_of(finding);
        assert(found == crate::channel::standard_validated(
            old(downstream).standard_channels@[channel_id],
            *share,
        ).1);
        let outputs = match standard_active(&channel) {
            Some(job) => Some(standard_parts(job).coinbase_outputs),
            None => None,
        };
        let target = standard_target(&channel);
        let accounting = standard_accounting(&channel);
        let mut proof = None;
        if let Some(client) = &mut self.gridpool {
            if let Some(payout) = self.gridpool_channels.get(&number) {
                let key = pulse_key_of(downstream_id, channel_id);
                let wanted = settle_share(
                    client,
                    payout,
                    channel_id,
                    key,
                    &finding,
                    target,
                    &outputs,
                    now_ms,
                    now,
                );
                if wanted {
                    if let Ok(accepted) = &finding {
                        let hash = match accepted {
                            ShareAccepted::Valid { hash } => *hash,
                            ShareAccepted::BlockFound { hash, template_id, coinbase } => *hash,
                        };
                        proof = build_standard_gridpool_proof(
                            self.pool_tag_string.as_str(),
                            &channel,
                            share,
                            payout,
                            difficulty(hash),
                        );
                        proof {
                            let fields = crate::channel::standard_fields_of(
                                crate::evidence::standard_job_of(channel, share.job_id)->0,
                            );
                            crate::evidence::lemma_tells_its_difficulty(
                                *payout,
                                crate::evidence::standard_channel_header(channel, *share)->0,
                                crate::evidence::standard_coinbase(self.pool_tag_string@, fields),
                                fields.merkle_path,
                                achieved_by(accepted@),
                            );
                        }
                    }
                }
            }
        }
        downstream.standard_channels.insert(channel_id, channel);
        assert(downstream.standard_channels@ =~= old(downstream).standard_channels@.insert(
            channel_id,
            judged,
        ));
        self.count_share(number);
        let head = ShareHead {
            channel_id,
            sequence_number: share.sequence_number,
            version: share.version,
            ntime: share.ntime,
            nonce: share.nonce,
        };
        let replies = reply_to_share(false, downstream_id, head, finding, accounting);
        ShareAnswer { proof, replies }
    }

    /// Takes a share of an extended channel at a time: `now_ms` in milliseconds and `now` in seconds
    /// since the epoch.
    pub fn handle_submit_shares_extended_at(
        &mut self,
        downstream: &mut Downstream,
        share: &SubmitSharesExtended,
        now_ms: u128,
        now: u64,
    ) -> (answer: ShareAnswer)
        requires
            old(self).wf(),
            old(self).has_extended_room(*old(downstream), share.channel_id),
            share.extranonce@.len() <= 32,
        ensures
            final(self).wf(),
            old(downstream).wf() ==> final(downstream).wf(),
            extended_share_taken(
                *old(self),
                *old(downstream),
                *final(self),
                *final(downstream),
                *share,
                now_ms,
                now,
                answer,
            ),
            extended_proof_is_good(*old(self), *old(downstream), *share, now, answer),
    {
        let downstream_id = downstream.downstream_id;
        let channel_id = share.channel_id;
        let number = slot_of(downstream_id, channel_id);
        if !downstream.extended_channels.contains_key(&channel_id) {
            let refusal = MiningMessage::SubmitSharesError {
                channel_id,
                sequence_number: share.sequence_number,
                error_code: "invalid-channel-id".to_owned(),
            };
            return ShareAnswer { proof: None, replies: Ok(one_message(downstream_id, refusal)) };
        }
        if !self.vardiff.contains_key(&number) {
            let close = MiningMessage::CloseChannel {
                channel_id,
                reason_code: "invalid-channel-id".to_owned(),
            };
            return ShareAnswer { proof: None, replies: Ok(one_message(downstream_id, close)) };
        }
        let mut channel = downstream.extended_channels.remove(&channel_id).unwrap();
        let finding = validate_extended(&mut channel, share);
        let ghost judged = channel;
        let ghost found = finding_of(finding);
        assert(found == crate::channel::extended_validated(
            old(downstream).extended_channels@[channel_id],
            share@,
        ).1);
        let outputs = match extended_active(&channel) {
            Some(job) => Some(extended_parts(job).coinbase_outputs),
            None => None,
        };
        let target = extended_target(&channel);
        let accounting = extended_accounting(&channel);
        let mut proof = None;
        if let Some(client) = &mut self.gridpool {
            if let Some(payout) = self.gridpool_channels.get(&number) {
                let key = pulse_key_of(downstream_id, channel_id);
                let wanted = settle_share(
                    client,
                    payout,
                    channel_id,
                    key,
                    &finding,
                    target,
                    &outputs,
                    now_ms,
                    now,
                );
                if wanted {
                    if let Ok(accepted) = &finding {
                        let hash = match accepted {
                            ShareAccepted::Valid { hash } => *hash,
                            ShareAccepted::BlockFound { hash, template_id, coinbase } => *hash,
                        };
                        proof = build_extended_gridpool_proof(
                            &channel,
                            share,
                            payout,
                            difficulty(hash),
                        );
                        proof {
                            let fields = crate::channel::extended_fields_of(
                                crate::evidence::extended_job_of(channel, share.job_id)->0,
                            );
                            crate::evidence::lemma_tells_its_difficulty(
                                *payout,
                                crate::evidence::extended_channel_header(channel, share@)->0,
                                crate::evidence::extended_coinbase(fields, share.extranonce@),
                                fields.merkle_path,
                                achieved_by(accepted@),
                            );
                        }
                    }
                }
            }
        }
        downstream.extended_channels.insert(channel_id, channel);
        assert(downstream.extended_channels@ =~= old(downstream).extended_channels@.insert(
            channel_id,
            judged,
        ));
        self.count_share(number);
        let head = ShareHead {
            channel_id,
            sequence_number: share.sequence_number,
            version: share.version,
            ntime: share.ntime,
            nonce: share.nonce,
        };
        let replies = reply_to_share(true, downstream_id, head, finding, accounting);
        ShareAnswer { proof, replies }
    }

    /// Takes a share of a standard channel, at the time that the clock shows.
    pub fn handle_submit_shares_standard(
        &mut self,
        downstream: &mut Downstream,
        share: &SubmitSharesStandard,
    ) -> (answer: ShareAnswer)
        requires
            old(self).wf(),
            old(self).has_standard_room(*old(downstream), share.channel_id),
        ensures
            final(self).wf(),
            old(downstream).wf() ==> final(downstream).wf(),
            exists|first: std::time::SystemTime, second: std::time::SystemTime|
                {
                    let now_ms = crate::clock::millis_of(#[trigger] crate::clock::elapsed_at(first));
                    let now = crate::clock::seconds_of(#[trigger] crate::clock::elapsed_at(second));
                    &&& standard_share_taken(
                        *old(self),
                        *old(downstream),
                        *final(self),
                        *final(downstream),
                        *share,
                        now_ms as u128,
                        now,
                        answer,
                    )
                    &&& standard_proof_is_good(*old(self), *old(downstream), *share, now, answer)
                },
    {
        let now_ms = now_millis();
        let now = now_seconds();
        self.handle_submit_shares_standard_at(downstream, share, now_ms, now)
    }

    /// Takes a share of an extended channel, at the time that the clock shows.
    pub fn handle_submit_shares_extended(
        &mut self,
        downstream: &mut Downstream,
        share: &SubmitSharesExtended,
    ) -> (answer: ShareAnswer)
        requires
            old(self).wf(),
            old(self).has_extended_room(*old(downstream), share.channel_id),
            share.extranonce@.len() <= 32,
        ensures
            final(self).wf(),
            old(downstream).wf() ==> final(downstream).wf(),
            exists|first: std::time::SystemTime, second: std::time::SystemTime|
                {
                    let now_ms = crate::clock::millis_of(#[trigger] crate::clock::elapsed_at(first));
                    let now = crate::clock::seconds_of(#[trigger] crate::clock::elapsed_at(second));
                    &&& extended_share_taken(
                        *old(self),
                        *old(downstream),
                        *final(self),
                        *final(downstream),
                        *share,
                        now_ms as u128,
                        now,
                        answer,
                    )
                    &&& extended_proof_is_good(*old(self), *old(downstream), *share, now, answer)
                },
    {
        let now_ms = now_millis();
        let now = now_seconds();
        self.handle_submit_shares_extended_at(downstream, share, now_ms, now)
    }
}

/// Whether the adapter wants the proof of a share of a channel for which it pays, when the channel
/// finds `finding` about the share.
pub open spec fn is_proof_due(
    m: ChannelManager,
    downstream_id: usize,
    channel_id: u32,
    finding: crate::channel::Finding,
    now: u64,
) -> bool {
    let number = slot(downstream_id, channel_id);
    &&& m.vardiff@.contains_key(number)
    &&& m.gridpool is Some
    &&& m.gridpool_channels@.contains_key(number)
    &&& is_proof_wanted(m.gridpool->0, pulse_key(downstream_id, channel_id), finding, now)
}

/// Whether the proof in an answer to a share of a standard channel is good: it is there if and
/// only if it is due and the tag of the pool is not too long, and it tells the difficulty that the
/// header it holds reaches.
pub open spec fn standard_proof_is_good(
    m: ChannelManager,
    d: Downstream,
    share: SubmitSharesStandard,
    now: u64,
    answer: ShareAnswer,
) -> bool {
    let channel_id = share.channel_id;
    let finding = crate::channel::standard_validated(
        d.standard_channels@[channel_id],
        share,
    ).1;
    let is_due = d.standard_channels@.contains_key(channel_id) && is_proof_due(
        m,
        d.downstream_id,
        channel_id,
        finding,
        now,
    );
    &&& answer.proof is Some <==> is_due && crate::evidence::tag_bytes(
        m.pool_tag_string@,
    ).len() <= crate::evidence::MAX_TAG_BYTES
    &&& answer.proof matches Some(p) ==> crate::evidence::tells_its_difficulty(p@)
}

/// Whether the proof in an answer to a share of an extended channel is good: it is there if and
/// only if it is due, it tells the difficulty that the header it holds reaches, and it can be
/// checked by itself.
pub open spec fn extended_proof_is_good(
    m: ChannelManager,
    d: Downstream,
    share: SubmitSharesExtended,
    now: u64,
    answer: ShareAnswer,
) -> bool {
    let channel_id = share.channel_id;
    let channel = d.extended_channels@[channel_id];
    let is_due = d.extended_channels@.contains_key(channel_id) && is_proof_due(
        m,
        d.downstream_id,
        channel_id,
        crate::channel::extended_validated(channel, share@).1,
        now,
    );
    &&& answer.proof is Some <==> is_due
    &&& answer.proof matches Some(p) ==> {
        &&& crate::evidence::tells_its_difficulty(p@)
        &&& crate::evidence::is_checkable(
            p@,
            share.version,
            share.ntime,
            crate::channel::extended_tip_of(channel)->0.nbits,
            share.nonce,
        )
    }
}

/// What taking a share of a standard channel does. A share of a channel that is not there, or
/// whose difficulty is not adjusted any more, changes nothing. Any other share is judged by its
/// channel and counted; the adapter, if it pays for the channel, is told of it; and the answer
/// follows from what the channel found.
pub open spec fn standard_share_taken(
    m: ChannelManager,
    d: Downstream,
    m_after: ChannelManager,
    d_after: Downstream,
    share: SubmitSharesStandard,
    now_ms: u128,
    now: u64,
    answer: ShareAnswer,
) -> bool {
    let channel_id = share.channel_id;
    let number = slot(d.downstream_id, channel_id);
    let head = standard_head(share);
    if !d.standard_channels@.contains_key(channel_id) {
        &&& m_after == m
        &&& d_after == d
        &&& answer.proof is None
        &&& crate::message::same_replies(answer.replies, unknown_channel(d.downstream_id, head))
    } else if !m.vardiff@.contains_key(number) {
        &&& m_after == m
        &&& d_after == d
        &&& answer.proof is None
        &&& crate::message::same_replies(
            answer.replies,
            orphaned_channel(d.downstream_id, channel_id),
        )
    } else {
        let (channel, finding) = crate::channel::standard_validated(
            d.standard_channels@[channel_id],
            share,
        );
        &&& d_after.standard_channels@ == d.standard_channels@.insert(channel_id, channel)
        &&& d_after.extended_channels == d.extended_channels
        &&& d_after.last_job_ids == d.last_job_ids
        &&& d_after.group_channel == d.group_channel
        &&& same_but_channels(d_after, d)
        &&& same_but_counts(m_after, m)
        &&& is_counted(m.vardiff@, m_after.vardiff@, number)
        &&& crate::message::same_replies(
            answer.replies,
            share_reply(
                false,
                d.downstream_id,
                head,
                finding,
                crate::channel::standard_accounting_of(channel),
            ),
        )
        &&& if m.gridpool is Some && m.gridpool_channels@.contains_key(number) {
            let client = m.gridpool->0;
            let payout = m.gridpool_channels@[number];
            let key = pulse_key(d.downstream_id, channel_id);
            let delta = share_delta(
                channel_id,
                payout,
                finding,
                crate::channel::standard_target_of(channel),
                is_fee_work(client, standard_outputs(channel), payout),
            );
            &&& m_after.gridpool is Some
            &&& is_settled(client, m_after.gridpool->0, delta, key, finding, now_ms, now)
            &&& crate::evidence::same_proof(
                answer.proof,
                if is_proof_wanted(client, key, finding, now) {
                    crate::evidence::standard_channel_proof(
                        m.pool_tag_string@,
                        channel,
                        share,
                        payout,
                        achieved_by(finding->Ok_0),
                    )
                } else {
                    None
                },
            )
        } else {
            &&& m_after.gridpool == m.gridpool
            &&& answer.proof is None
        }
    }
}

/// What taking a share of an extended channel does. A share of a channel that is not there, or
/// whose difficulty is not adjusted any more, changes nothing. Any other share is judged by its
/// channel and counted; the adapter, if it pays for the channel, is told of it; and the answer
/// follows from what the channel found.
pub open spec fn extended_share_taken(
    m: ChannelManager,
    d: Downstream,
    m_after: ChannelManager,
    d_after: Downstream,
    share: SubmitSharesExtended,
    now_ms: u128,
    now: u64,
    answer: ShareAnswer,
) -> bool {
    let channel_id = share.channel_id;
    let number = slot(d.downstream_id, channel_id);
    let head = extended_head(share);
    if !d.extended_channels@.contains_key(channel_id) {
        &&& m_after == m
        &&& d_after == d
        &&& answer.proof is None
        &&& crate::message::same_replies(answer.replies, unknown_channel(d.downstream_id, head))
    } else if !m.vardiff@.contains_key(number) {
        &&& m_after == m
        &&& d_after == d
        &&& answer.proof is None
        &&& crate::message::same_replies(
            answer.replies,
            orphaned_channel(d.downstream_id, channel_id),
        )
    } else {
        let (channel, finding) = crate::channel::extended_validated(
            d.extended_channels@[channel_id],
            share@,
        );
        &&& d_after.extended_channels@ == d.extended_channels@.insert(channel_id, channel)
        &&& d_after.standard_channels == d.standard_channels
        &&& d_after.last_job_ids == d.last_job_ids
        &&& d_after.group_channel == d.group_channel
        &&& same_but_channels(d_after, d)
        &&& same_but_counts(m_after, m)
        &&& is_counted(m.vardiff@, m_after.vardiff@, number)
        &&& crate::message::same_replies(
            answer.replies,
            share_reply(
                true,
                d.downstream_id,
                head,
                finding,
                crate::channel::extended_accounting_of(channel),
            ),
        )
        &&& if m.gridpool is Some && m.gridpool_channels@.contains_key(number) {
            let client = m.gridpool->0;
            let payout = m.gridpool_channels@[number];
            let key = pulse_key(d.downstream_id, channel_id);
            let delta = share_delta(
                channel_id,
                payout,
                finding,
                crate::channel::extended_target_of(channel),
                is_fee_work(client, extended_outputs(channel), payout),
            );
            &&& m_after.gridpool is Some
            &&& is_settled(client, m_after.gridpool->0, delta, key, finding, now_ms, now)
            &&& crate::evidence::same_proof(
                answer.proof,
                if is_proof_wanted(client, key, finding, now) {
                    crate::evidence::extended_channel_proof(
                        channel,
                        share@,
                        payout,
                        achieved_by(finding->Ok_0),
                    )
                } else {
                    None
                },
            )
        } else {
            &&& m_after.gridpool == m.gridpool
            &&& answer.proof is None
        }
    }
}

/// The two kinds of channels.
#[derive(Clone, Copy, Debug, PartialEq, Eq, Structural)]
pub enum ChannelKind {
    Standard,
    Extended,
}

/// The kind of the channel of a connection that an id stands for. A standard channel comes before
/// an extended one.
pub fn channel_kind(downstream: &Downstream, channel_id: u32) -> (kind: Option<ChannelKind>)
    ensures
        kind == if downstream.standard_channels@.contains_key(channel_id) {
            Some(ChannelKind::Standard)
        } else if downstream.extended_channels@.contains_key(channel_id) {
            Some(ChannelKind::Extended)
        } else {
            None
        },
{
    if downstream.standard_channels.contains_key(&channel_id) {
        Some(ChannelKind::Standard)
    } else if downstream.extended_channels.contains_key(&channel_id) {
        Some(ChannelKind::Extended)
    } else {
        None
    }
}

/// The target of a channel of a connection. A standard channel comes before an extended one.
pub open spec fn target_of(d: Downstream, channel_id: u32) -> Option<Seq<u8>> {
    if d.standard_channels@.contains_key(channel_id) {
        Some(crate::channel::standard_target_of(d.standard_channels@[channel_id]))
    } else if d.extended_channels@.contains_key(channel_id) {
        Some(crate::channel::extended_target_of(d.extended_channels@[channel_id]))
    } else {
        None
    }
}

/// The answer to a change of a channel's hash rate. The miner is told the target in any case, and
/// first the code of what was wrong, if anything was.
pub open spec fn update_reply(
    d: Downstream,
    channel_id: u32,
    fault: Option<Seq<char>>,
) -> Seq<crate::message::Route> {
    let id = d.downstream_id;
    match target_of(d, channel_id) {
        None => crate::message::to_miner(
            id,
            crate::message::Mining::UpdateChannelError {
                channel_id,
                error_code: "invalid-channel-id"@,
            },
        ),
        Some(target) => (match fault {
            Some(code) => crate::message::to_miner(
                id,
                crate::message::Mining::UpdateChannelError { channel_id, error_code: code },
            ),
            None => Seq::empty(),
        }) + crate::message::to_miner(
            id,
            crate::message::Mining::SetTarget { channel_id, maximum_target: target },
        ),
    }
}

/// Answers a change of a channel's hash rate, once the channel has taken it. `fault` is the code of
/// what was wrong with it.
pub fn handle_update_channel(
    downstream: &Downstream,
    channel_id: u32,
    fault: Option<String>,
) -> (messages: Vec<RouteMessageTo>)
    ensures
        crate::message::routes(messages@) == update_reply(
            *downstream,
            channel_id,
            crate::rpc::optional_text(fault),
        ),
{
    let id = downstream.downstream_id;
    let target = match downstream.standard_channels.get(&channel_id) {
        Some(channel) => standard_target(channel),
        None => match downstream.extended_channels.get(&channel_id) {
            Some(channel) => extended_target(channel),
            None => {
                return one_message(
                    id,
                    MiningMessage::UpdateChannelError {
                        channel_id,
                        error_code: "invalid-channel-id".to_owned(),
                    },
                );
            },
        },
    };
    let mut messages: Vec<RouteMessageTo> = Vec::new();
    assert(crate::message::routes(messages@) =~= Seq::<crate::message::Route>::empty());
    if let Some(error_code) = fault {
        push_message(
            &mut messages,
            id,
            MiningMessage::UpdateChannelError { channel_id, error_code },
        );
        assert(crate::message::routes(messages@) =~= crate::message::to_miner(
            id,
            crate::message::Mining::UpdateChannelError { channel_id, error_code: error_code@ },
        ));
    }
    push_message(&mut messages, id, MiningMessage::SetTarget { channel_id, maximum_target: target });
    messages
}

/// A job that a miner made.
#[derive(Debug)]
pub struct CustomJobRequest {
    pub request_id: u32,
    pub channel_id: u32,
    pub job: SetCustomMiningJob<'static>,
}

/// What the job declarator says to a job that a miner made.
#[derive(Debug)]
pub enum DeclaratorVerdict {
    /// There is no job declarator.
    Absent,
    /// The job is refused with a message of this content.
    Refused { request_id: u32, channel_id: u32, error_code: String },
    /// The job is good.
    Validated,
}

/// The message that a job that a miner made is refused.
pub open spec fn custom_job_refusal(
    request_id: u32,
    channel_id: u32,
    code: Seq<char>,
) -> crate::message::Mining {
    crate::message::Mining::SetCustomMiningJobError { request_id, channel_id, error_code: code }
}

/// Whether a job that a miner made reaches its channel.
pub open spec fn is_committed(
    d: Downstream,
    request: CustomJobRequest,
    verdict: DeclaratorVerdict,
) -> bool {
    verdict is Validated && d.extended_channels@.contains_key(request.channel_id)
}

/// The answer to a job that a miner made.
pub open spec fn custom_job_reply(
    d: Downstream,
    request: CustomJobRequest,
    verdict: DeclaratorVerdict,
) -> crate::message::Replies {
    let id = d.downstream_id;
    match verdict {
        DeclaratorVerdict::Absent => Ok(
            crate::message::to_miner(
                id,
                custom_job_refusal(request.request_id, request.channel_id, "jd-not-supported"@),
            ),
        ),
        DeclaratorVerdict::Refused { request_id, channel_id, error_code } => Ok(
            crate::message::to_miner(id, custom_job_refusal(request_id, channel_id, error_code@)),
        ),
        DeclaratorVerdict::Validated => if d.extended_channels@.contains_key(request.channel_id) {
            match crate::channel::extended_with_custom_job(
                d.extended_channels@[request.channel_id],
                request.job,
            ).1 {
                Ok(job_id) => Ok(
                    crate::message::to_miner(
                        id,
                        crate::message::Mining::SetCustomMiningJobSuccess {
                            channel_id: request.channel_id,
                            request_id: request.request_id,
                            job_id,
                        },
                    ),
                ),
                Err(message) => Err(
                    crate::message::Failure::Disconnect {
                        downstream_id: id,
                        kind: crate::message::ErrorKind::Channel { message },
                    },
                ),
            }
        } else {
            Ok(
                crate::message::to_miner(
                    id,
                    custom_job_refusal(
                        request.request_id,
                        request.channel_id,
                        "invalid-channel-id"@,
                    ),
                ),
            )
        },
    }
}

/// How far the ids of the jobs of extended channels may have come once a channel was given a job
/// that a miner made, if it was: up to the id of the job if it was taken, and by one at most if not.
pub open spec fn noted_job(
    before: Map<u32, u32>,
    channel_id: u32,
    committed: bool,
    made: crate::channel::CustomJob,
) -> Map<u32, u32> {
    if !committed {
        before
    } else {
        before.insert(
            channel_id,
            match made {
                Ok(job_id) => job_id,
                Err(_) => if before.contains_key(channel_id) && before[channel_id] < u32::MAX {
                    (before[channel_id] + 1) as u32
                } else {
                    u32::MAX
                },
            },
        )
    }
}

/// Refuses a job that a miner made, unless the job declarator said that it is good. The connection
/// of the miner is not looked at.
pub fn refuse_custom_job(
    downstream_id: usize,
    request_id: u32,
    channel_id: u32,
    verdict: DeclaratorVerdict,
) -> (messages: Option<Vec<RouteMessageTo>>)
    ensures
        match verdict {
            DeclaratorVerdict::Absent => messages is Some && crate::message::routes(
                messages->0@,
            ) == crate::message::to_miner(
                downstream_id,
                custom_job_refusal(request_id, channel_id, "jd-not-supported"@),
            ),
            DeclaratorVerdict::Refused {
                request_id: request,
                channel_id: channel,
                error_code,
            } => messages is Some && crate::message::routes(messages->0@)
                == crate::message::to_miner(
                downstream_id,
                custom_job_refusal(request, channel, error_code@),
            ),
            DeclaratorVerdict::Validated => messages is None,
        },
{
    match verdict {
        DeclaratorVerdict::Absent => Some(
            one_message(
                downstream_id,
                MiningMessage::SetCustomMiningJobError {
                    request_id,
                    channel_id,
                    error_code: "jd-not-supported".to_owned(),
                },
            ),
        ),
        DeclaratorVerdict::Refused { request_id, channel_id, error_code } => Some(
            one_message(
                downstream_id,
                MiningMessage::SetCustomMiningJobError { request_id, channel_id, error_code },
            ),
        ),
        DeclaratorVerdict::Validated => None,
    }
}

/// Takes a job that a miner made, when the job declarator said of it what `verdict` says.
pub fn handle_set_custom_mining_job(
    downstream: &mut Downstream,
    request: CustomJobRequest,
    verdict: DeclaratorVerdict,
) -> (replies: Result<Vec<RouteMessageTo>, PoolError>)
    requires
        is_committed(*old(downstream), request, verdict) ==> old(downstream).has_job_room(
            request.channel_id,
        ),
    ensures
        old(downstream).wf() ==> final(downstream).wf(),
        crate::message::same_replies(
            replies,
            custom_job_reply(*old(downstream), request, verdict),
        ),
        final(downstream).extended_channels@ == if is_committed(*old(downstream), request, verdict) {
            old(downstream).extended_channels@.insert(
                request.channel_id,
                crate::channel::extended_with_custom_job(
                    old(downstream).extended_channels@[request.channel_id],
                    request.job,
                ).0,
            )
        } else {
            old(downstream).extended_channels@
        },
        ({
            let committed = is_committed(*old(downstream), request, verdict);
            let before = old(downstream).extended_channels@[request.channel_id];
            let after = final(downstream).extended_channels@[request.channel_id];
            let made = crate::channel::extended_with_custom_job(before, request.job).1;
            &&& committed ==> crate::channel::is_next_job(
                crate::channel::extended_last_job_of(before),
                crate::channel::extended_last_job_of(after),
                made is Ok,
            )
            &&& committed && made is Ok ==> made->Ok_0 == crate::channel::extended_last_job_of(
                after,
            )
            &&& final(downstream).last_job_ids@ == noted_job(
                old(downstream).last_job_ids@,
                request.channel_id,
                committed,
                made,
            )
        }),
        final(downstream).standard_channels == old(downstream).standard_channels,
        final(downstream).group_channel == old(downstream).group_channel,
        same_but_channels(*final(downstream), *old(downstream)),
{
    let id = downstream.downstream_id;
    let request_id = request.request_id;
    let channel_id = request.channel_id;
    match refuse_custom_job(id, request_id, channel_id, verdict) {
        Some(messages) => Ok(messages),
        None => match downstream.extended_channels.remove(&channel_id) {
            Some(mut channel) => {
                let outcome = extended_take_custom_job(&mut channel, request.job);
                let ghost after = channel;
                let known = match downstream.last_job_ids.get(&channel_id) {
                    Some(last) => *last,
                    None => u32::MAX,
                };
                let last = match outcome {
                    Ok(job_id) => job_id,
                    Err(_) => if known < u32::MAX {
                        known + 1
                    } else {
                        u32::MAX
                    },
                };
                downstream.last_job_ids.insert(channel_id, last);
                downstream.extended_channels.insert(channel_id, channel);
                assert(downstream.extended_channels@ =~= old(downstream).extended_channels@.insert(
                    channel_id,
                    after,
                ));
                match outcome {
                    Ok(job_id) => Ok(
                        one_message(
                            id,
                            MiningMessage::SetCustomMiningJobSuccess {
                                channel_id,
                                request_id,
                                job_id,
                            },
                        ),
                    ),
                    Err(message) => Err(
                        PoolError::Disconnect {
                            downstream_id: id,
                            kind: PoolErrorKind::Channel { message },
                        },
                    ),
                }
            },
            None => {
                assert(downstream.extended_channels@ =~= old(downstream).extended_channels@);
                Ok(
                    one_message(
                        id,
                        MiningMessage::SetCustomMiningJobError {
                            request_id,
                            channel_id,
                            error_code: "invalid-channel-id".to_owned(),
                        },
                    ),
                )
            },
        },
    }
}

/// The extension by which shares name their worker.
pub const WORKER_EXTENSION: u16 = 2;

/// The field of that extension that holds the name.
pub const WORKER_FIELD: u8 = 1;

/// A field that an extension puts behind a message.
#[derive(Clone, Debug)]
pub struct ExtensionField {
    pub extension_type: u16,
    pub field_type: u8,
    pub value: Vec<u8>,
}

/// Whether a field names the worker of a share.
pub open spec fn names_worker(field: ExtensionField) -> bool {
    field.extension_type == WORKER_EXTENSION && field.field_type == WORKER_FIELD
}

/// The index of the first field that names the worker of a share, if the extension was agreed on.
pub fn worker_field(extensions: &Vec<u16>, fields: &Vec<ExtensionField>) -> (at: Option<usize>)
    ensures
        match at {
            Some(i) => extensions@.contains(WORKER_EXTENSION) && i < fields@.len() && names_worker(
                fields@[i as int],
            ) && forall|k: int| 0 <= k < i ==> !names_worker(#[trigger] fields@[k]),
            None => !extensions@.contains(WORKER_EXTENSION) || forall|k: int|
                0 <= k < fields@.len() ==> !names_worker(#[trigger] fields@[k]),
        },
{
    let mut agreed = false;
    let mut i: usize = 0;
    while i < extensions.len()
        invariant
            i <= extensions@.len(),
            agreed == exists|k: int| 0 <= k < i && extensions@[k] == WORKER_EXTENSION,
        decreases extensions@.len() - i,
    {
        if extensions[i] == WORKER_EXTENSION {
            agreed = true;
        }
        i = i + 1;
    }
    if !agreed {
        return None;
    }
    let mut at: usize = 0;
    while at < fields.len()
        invariant
            at <= fields@.len(),
            extensions@.contains(WORKER_EXTENSION),
            forall|k: int| 0 <= k < at ==> !names_worker(#[trigger] fields@[k]),
        decreases fields@.len() - at,
    {
        let field = &fields[at];
        if field.extension_type == WORKER_EXTENSION && field.field_type == WORKER_FIELD {
            return Some(at);
        }
        at = at + 1;
    }
    None
}

/// Once a channel is closed, shares of it as a standard channel are refused and change nothing.
pub proof fn closed_channels_take_no_standard_shares(
    m: ChannelManager,
    d: Downstream,
    m_after: ChannelManager,
    d_after: Downstream,
    share: SubmitSharesStandard,
    now_ms: u128,
    now: u64,
    answer: ShareAnswer,
)
    requires
        is_forgotten(m, d, share.channel_id),
        standard_share_taken(m, d, m_after, d_after, share, now_ms, now, answer),
    ensures
        m_after == m,
        d_after == d,
        answer.proof is None,
        crate::message::same_replies(
            answer.replies,
            unknown_channel(d.downstream_id, standard_head(share)),
        ),
{
}

/// Once a channel is closed, shares of it as an extended channel are refused and change nothing.
pub proof fn closed_channels_take_no_extended_shares(
    m: ChannelManager,
    d: Downstream,
    m_after: ChannelManager,
    d_after: Downstream,
    share: SubmitSharesExtended,
    now_ms: u128,
    now: u64,
    answer: ShareAnswer,
)
    requires
        is_forgotten(m, d, share.channel_id),
        extended_share_taken(m, d, m_after, d_after, share, now_ms, now, answer),
    ensures
        m_after == m,
        d_after == d,
        answer.proof is None,
        crate::message::same_replies(
            answer.replies,
            unknown_channel(d.downstream_id, extended_head(share)),
        ),
{
}

/// Whether two states of a manager and a connection differ in nothing of a channel but the one
/// with the id: neither in a channel, nor in what is counted of a channel of any connection, nor
/// in who is paid for one.
pub open spec fn others_unchanged(
    m: ChannelManager,
    d: Downstream,
    m_after: ChannelManager,
    d_after: Downstream,
    channel_id: u32,
) -> bool {
    &&& d_after.standard_channels@.remove(channel_id) == d.standard_channels@.remove(channel_id)
    &&& d_after.extended_channels@.remove(channel_id) == d.extended_channels@.remove(channel_id)
    &&& d_after.group_channel == d.group_channel
    &&& m_after.gridpool_channels == m.gridpool_channels
    &&& forall|downstream_id: usize, other: u32|
        (downstream_id != d.downstream_id || other != channel_id) && m.vardiff@.contains_key(
            #[trigger] slot(downstream_id, other),
        ) ==> m_after.vardiff@.contains_key(slot(downstream_id, other))
            && m_after.vardiff@[slot(downstream_id, other)] == m.vardiff@[slot(
            downstream_id,
            other,
        )]
}

/// A share of a standard channel leaves all other channels alone.
pub proof fn standard_shares_leave_other_channels_alone(
    m: ChannelManager,
    d: Downstream,
    m_after: ChannelManager,
    d_after: Downstream,
    share: SubmitSharesStandard,
    now_ms: u128,
    now: u64,
    answer: ShareAnswer,
)
    requires
        standard_share_taken(m, d, m_after, d_after, share, now_ms, now, answer),
    ensures
        others_unchanged(m, d, m_after, d_after, share.channel_id),
{
    let channel_id = share.channel_id;
    assert(d_after.standard_channels@.remove(channel_id) =~= d.standard_channels@.remove(
        channel_id,
    ));
}

/// A share of an extended channel leaves all other channels alone.
pub proof fn extended_shares_leave_other_channels_alone(
    m: ChannelManager,
    d: Downstream,
    m_after: ChannelManager,
    d_after: Downstream,
    share: SubmitSharesExtended,
    now_ms: u128,
    now: u64,
    answer: ShareAnswer,
)
    requires
        extended_share_taken(m, d, m_after, d_after, share, now_ms, now, answer),
    ensures
        others_unchanged(m, d, m_after, d_after, share.channel_id),
{
    let channel_id = share.channel_id;
    assert(d_after.extended_channels@.remove(channel_id) =~= d.extended_channels@.remove(
        channel_id,
    ));
}

/// What miners and the template provider are told of a share of a standard channel does not depend
/// on the GridPool adapter: whether there is one, what it knows and whom it pays make no
/// difference, so that a block reaches the template provider in any case.
pub proof fn standard_answers_do_not_depend_on_the_adapter(
    a: ChannelManager,
    b: ChannelManager,
    d: Downstream,
    a_after: ChannelManager,
    b_after: ChannelManager,
    d_after_a: Downstream,
    d_after_b: Downstream,
    share: SubmitSharesStandard,
    now_ms: u128,
    now: u64,
    answer_a: ShareAnswer,
    answer_b: ShareAnswer,
)
    requires
        a.vardiff == b.vardiff,
        standard_share_taken(a, d, a_after, d_after_a, share, now_ms, now, answer_a),
        standard_share_taken(b, d, b_after, d_after_b, share, now_ms, now, answer_b),
    ensures
        crate::message::content(answer_a.replies) == crate::message::content(answer_b.replies),
        d_after_a.standard_channels@ == d_after_b.standard_channels@,
{
}

/// What miners and the template provider are told of a share of an extended channel does not
/// depend on the GridPool adapter.
pub proof fn extended_answers_do_not_depend_on_the_adapter(
    a: ChannelManager,
    b: ChannelManager,
    d: Downstream,
    a_after: ChannelManager,
    b_after: ChannelManager,
    d_after_a: Downstream,
    d_after_b: Downstream,
    share: SubmitSharesExtended,
    now_ms: u128,
    now: u64,
    answer_a: ShareAnswer,
    answer_b: ShareAnswer,
)
    requires
        a.vardiff == b.vardiff,
        extended_share_taken(a, d, a_after, d_after_a, share, now_ms, now, answer_a),
        extended_share_taken(b, d, b_after, d_after_b, share, now_ms, now, answer_b),
    ensures
        crate::message::content(answer_a.replies) == crate::message::content(answer_b.replies),
        d_after_a.extended_channels@ == d_after_b.extended_channels@,
{
}

/// A good share of either kind of channel is acknowledged with exactly one message to its miner when
/// the channel says so, with what the channel has counted, and otherwise with none.
pub proof fn good_shares_are_acknowledged_when_due(
    extended: bool,
    downstream_id: usize,
    head: ShareHead,
    finding: Result<ShareAccepted, ShareValidationError>,
    accounting: Accounting,
    replies: Result<Vec<RouteMessageTo>, PoolError>,
)
    requires
        call_ensures(
            reply_to_share,
            (extended, downstream_id, head, finding, accounting),
            replies,
        ),
        finding is Ok,
        finding->Ok_0 is Valid,
    ensures
        replies is Ok,
        !accounting.should_acknowledge ==> replies->Ok_0@.len() == 0,
        accounting.should_acknowledge ==> replies->Ok_0@ == seq![
            RouteMessageTo::Downstream {
                downstream_id,
                message: MiningMessage::SubmitSharesSuccess {
                    channel_id: head.channel_id,
                    last_sequence_number: accounting.last_sequence_number,
                    new_submits_accepted_count: accounting.last_batch_accepted,
                    new_shares_sum: accounting.last_batch_work_sum,
                },
            },
        ],
{
    let list = replies->Ok_0@;
    let views = crate::message::routes(list);
    assert(views.len() == list.len());
    if accounting.should_acknowledge {
        assert(views[0] == list[0]@);
    }
}

/// A block of either kind of channel is acknowledged at once, due or not. In front of that goes its
/// solution to the template provider, if its job is that of a template; a coinbase that does not fit
/// that message ends the pool.
pub proof fn blocks_are_acknowledged_at_once(
    extended: bool,
    downstream_id: usize,
    head: ShareHead,
    finding: Result<ShareAccepted, ShareValidationError>,
    accounting: Accounting,
    replies: Result<Vec<RouteMessageTo>, PoolError>,
)
    requires
        call_ensures(
            reply_to_share,
            (extended, downstream_id, head, finding, accounting),
            replies,
        ),
        finding is Ok,
        finding->Ok_0 is BlockFound,
    ensures
        ({
            let template_id = finding->Ok_0->template_id;
            let coinbase = finding->Ok_0->coinbase@;
            let list = replies->Ok_0@;
            let success = RouteMessageTo::Downstream {
                downstream_id,
                message: MiningMessage::SubmitSharesSuccess {
                    channel_id: head.channel_id,
                    last_sequence_number: accounting.last_sequence_number,
                    new_submits_accepted_count: accounting.last_batch_accepted,
                    new_shares_sum: accounting.last_batch_work_sum,
                },
            };
            &&& template_id is None ==> replies is Ok && list == seq![success]
            &&& template_id is Some && coinbase.len() <= 0xffff ==> {
                &&& replies is Ok
                &&& list.len() == 2
                &&& list[0] is TemplateProvider
                &&& list[0]->solution.template_id == template_id->0
                &&& list[0]->solution.version == head.version
                &&& list[0]->solution.header_timestamp == head.ntime
                &&& list[0]->solution.header_nonce == head.nonce
                &&& list[0]->solution.coinbase_tx@ == coinbase
                &&& list[1] == success
            }
            &&& template_id is Some && coinbase.len() > 0xffff ==> replies == Err::<
                Vec<RouteMessageTo>,
                PoolError,
            >(PoolError::Shutdown { kind: PoolErrorKind::FieldTooLong })
        }),
{
    if replies is Ok {
        let list = replies->Ok_0@;
        let views = crate::message::routes(list);
        assert(views.len() == list.len());
        assert(list.len() > 0 ==> views[0] == list[0]@);
        assert(list.len() > 1 ==> views[1] == list[1]@);
    }
}

/// What is answered to an accepted share does not depend on the kind of its channel.
pub proof fn accepted_shares_are_answered_alike_on_both_kinds(
    downstream_id: usize,
    head: ShareHead,
    accepted: crate::channel::Accepted,
    accounting: Accounting,
)
    ensures
        share_reply(
            true,
            downstream_id,
            head,
            crate::channel::Finding::Ok(accepted),
            accounting,
        ) == share_reply(
            false,
            downstream_id,
            head,
            crate::channel::Finding::Ok(accepted),
            accounting,
        ),
{
}

/// A share that is not accepted is answered with one message: the code of what was wrong with it,
/// under its sequence number. Only where the coinbase cannot be read or there is no chain tip, and
/// on a standard channel also where the extranonce has a wrong size, its connection ends. What was
/// counted makes no difference.
pub proof fn refused_shares_are_answered_with_their_code(
    extended: bool,
    downstream_id: usize,
    head: ShareHead,
    finding: Result<ShareAccepted, ShareValidationError>,
    accounting: Accounting,
    replies: Result<Vec<RouteMessageTo>, PoolError>,
)
    requires
        call_ensures(
            reply_to_share,
            (extended, downstream_id, head, finding, accounting),
            replies,
        ),
        finding is Err,
    ensures
        ({
            let (kind, code) = crate::channel::fault_of(finding->Err_0);
            let ends = kind is InvalidCoinbase || kind is NoChainTip || (kind is BadExtranonceSize
                && !extended);
            &&& ends ==> replies == Err::<Vec<RouteMessageTo>, PoolError>(
                PoolError::Disconnect {
                    downstream_id,
                    kind: PoolErrorKind::ShareValidation { kind },
                },
            )
            &&& !ends ==> {
                let list = replies->Ok_0@;
                let message = list[0]->message;
                &&& replies is Ok
                &&& list.len() == 1
                &&& list[0] is Downstream
                &&& list[0]->downstream_id == downstream_id
                &&& message is SubmitSharesError
                &&& message->SubmitSharesError_channel_id == head.channel_id
                &&& message->SubmitSharesError_sequence_number == head.sequence_number
                &&& message->SubmitSharesError_error_code@ == code
            }
        }),
{
    if replies is Ok {
        let list = replies->Ok_0@;
        let views = crate::message::routes(list);
        assert(views.len() == list.len());
        assert(list.len() > 0 ==> views[0] == list[0]@);
    }
}

/// A share of a channel that is not there is answered with one message: that there is no such
/// channel. If the channel is there and its difficulty is not adjusted any more, the one message
/// closes it.
pub proof fn shares_without_a_channel_are_turned_down(
    downstream_id: usize,
    head: ShareHead,
    replies: Result<Vec<RouteMessageTo>, PoolError>,
)
    ensures
        crate::message::same_replies(replies, unknown_channel(downstream_id, head)) ==> {
            let list = replies->Ok_0@;
            let message = list[0]->message;
            &&& replies is Ok
            &&& list.len() == 1
            &&& list[0] is Downstream
            &&& list[0]->downstream_id == downstream_id
            &&& message is SubmitSharesError
            &&& message->SubmitSharesError_channel_id == head.channel_id
            &&& message->SubmitSharesError_sequence_number == head.sequence_number
            &&& message->SubmitSharesError_error_code@ == "invalid-channel-id"@
        },
        crate::message::same_replies(
            replies,
            orphaned_channel(downstream_id, head.channel_id),
        ) ==> {
            let list = replies->Ok_0@;
            let message = list[0]->message;
            &&& replies is Ok
            &&& list.len() == 1
            &&& list[0] is Downstream
            &&& list[0]->downstream_id == downstream_id
            &&& message is CloseChannel
            &&& message->CloseChannel_channel_id == head.channel_id
            &&& message->reason_code@ == "invalid-channel-id"@
        },
{
    if replies is Ok {
        let list = replies->Ok_0@;
        let views = crate::message::routes(list);
        assert(views.len() == list.len());
        assert(list.len() > 0 ==> views[0] == list[0]@);
    }
}

/// A good share of a standard channel is acknowledged with what the channel has counted once it has
/// judged the share, the share itself included.
pub proof fn standard_shares_are_acknowledged_with_the_counts_after_them(
    m: ChannelManager,
    d: Downstream,
    m_after: ChannelManager,
    d_after: Downstream,
    share: SubmitSharesStandard,
    now_ms: u128,
    now: u64,
    answer: ShareAnswer,
)
    requires
        standard_share_taken(m, d, m_after, d_after, share, now_ms, now, answer),
        d.standard_channels@.contains_key(share.channel_id),
        m.vardiff@.contains_key(
            (d.downstream_id * 0x1_0000_0000 + share.channel_id) as u128,
        ),
        crate::channel::standard_validated(
            d.standard_channels@[share.channel_id],
            share,
        ).1 is Ok,
        crate::channel::standard_validated(
            d.standard_channels@[share.channel_id],
            share,
        ).1->Ok_0 is Valid,
    ensures
        ({
            let counted = crate::channel::standard_accounting_of(
                d_after.standard_channels@[share.channel_id],
            );
            let list = answer.replies->Ok_0@;
            &&& d_after.standard_channels@[share.channel_id]
                == crate::channel::standard_validated(
                d.standard_channels@[share.channel_id],
                share,
            ).0
            &&& answer.replies is Ok
            &&& !counted.should_acknowledge ==> list.len() == 0
            &&& counted.should_acknowledge ==> list == seq![
                RouteMessageTo::Downstream {
                    downstream_id: d.downstream_id,
                    message: MiningMessage::SubmitSharesSuccess {
                        channel_id: share.channel_id,
                        last_sequence_number: counted.last_sequence_number,
                        new_submits_accepted_count: counted.last_batch_accepted,
                        new_shares_sum: counted.last_batch_work_sum,
                    },
                },
            ]
        }),
{
    let list = answer.replies->Ok_0@;
    let views = crate::message::routes(list);
    assert(views.len() == list.len());
    assert(list.len() > 0 ==> views[0] == list[0]@);
}

/// A good share of an extended channel is acknowledged with what the channel has counted once it has
/// judged the share, the share itself included.
pub proof fn extended_shares_are_acknowledged_with_the_counts_after_them(
    m: ChannelManager,
    d: Downstream,
    m_after: ChannelManager,
    d_after: Downstream,
    share: SubmitSharesExtended,
    now_ms: u128,
    now: u64,
    answer: ShareAnswer,
)
    requires
        extended_share_taken(m, d, m_after, d_after, share, now_ms, now, answer),
        d.extended_channels@.contains_key(share.channel_id),
        m.vardiff@.contains_key(
            (d.downstream_id * 0x1_0000_0000 + share.channel_id) as u128,
        ),
        crate::channel::extended_validated(
            d.extended_channels@[share.channel_id],
            share@,
        ).1 is Ok,
        crate::channel::extended_validated(
            d.extended_channels@[share.channel_id],
            share@,
        ).1->Ok_0 is Valid,
    ensures
        ({
            let counted = crate::channel::extended_accounting_of(
                d_after.extended_channels@[share.channel_id],
            );
            let list = answer.replies->Ok_0@;
            &&& d_after.extended_channels@[share.channel_id]
                == crate::channel::extended_validated(
                d.extended_channels@[share.channel_id],
                share@,
            ).0
            &&& answer.replies is Ok
            &&& !counted.should_acknowledge ==> list.len() == 0
            &&& counted.should_acknowledge ==> list == seq![
                RouteMessageTo::Downstream {
                    downstream_id: d.downstream_id,
                    message: MiningMessage::SubmitSharesSuccess {
                        channel_id: share.channel_id,
                        last_sequence_number: counted.last_sequence_number,
                        new_submits_accepted_count: counted.last_batch_accepted,
                        new_shares_sum: counted.last_batch_work_sum,
                    },
                },
            ]
        }),
{
    let list = answer.replies->Ok_0@;
    let views = crate::message::routes(list);
    assert(views.len() == list.len());
    assert(list.len() > 0 ==> views[0] == list[0]@);
}

/// A block that a share of a standard channel is goes to the template provider with the version, time
/// and nonce of the share, and the share is acknowledged behind it.
pub proof fn standard_blocks_go_out_as_they_were_mined(
    m: ChannelManager,
    d: Downstream,
    m_after: ChannelManager,
    d_after: Downstream,
    share: SubmitSharesStandard,
    now_ms: u128,
    now: u64,
    answer: ShareAnswer,
    hash: Seq<u8>,
    template_id: u64,
    coinbase: Seq<u8>,
)
    requires
        standard_share_taken(m, d, m_after, d_after, share, now_ms, now, answer),
        d.standard_channels@.contains_key(share.channel_id),
        m.vardiff@.contains_key(
            (d.downstream_id * 0x1_0000_0000 + share.channel_id) as u128,
        ),
        crate::channel::standard_validated(d.standard_channels@[share.channel_id], share).1
            == crate::channel::Finding::Ok(
            crate::channel::Accepted::BlockFound {
                hash,
                template_id: Some(template_id),
                coinbase,
            },
        ),
        coinbase.len() <= 0xffff,
    ensures
        ({
            let counted = crate::channel::standard_accounting_of(
                d_after.standard_channels@[share.channel_id],
            );
            let list = answer.replies->Ok_0@;
            let solution = list[0]->solution;
            &&& answer.replies is Ok
            &&& list.len() == 2
            &&& list[0] is TemplateProvider
            &&& solution.template_id == template_id
            &&& solution.version == share.version
            &&& solution.header_timestamp == share.ntime
            &&& solution.header_nonce == share.nonce
            &&& solution.coinbase_tx@ == coinbase
            &&& list[1] == RouteMessageTo::Downstream {
                downstream_id: d.downstream_id,
                message: MiningMessage::SubmitSharesSuccess {
                    channel_id: share.channel_id,
                    last_sequence_number: counted.last_sequence_number,
                    new_submits_accepted_count: counted.last_batch_accepted,
                    new_shares_sum: counted.last_batch_work_sum,
                },
            }
        }),
{
    let list = answer.replies->Ok_0@;
    let views = crate::message::routes(list);
    assert(views.len() == list.len());
    assert(list.len() > 0 ==> views[0] == list[0]@);
    assert(list.len() > 1 ==> views[1] == list[1]@);
}

/// A share of a standard channel that is there, good or not, counts once for the adjustment of the
/// channel's difficulty, and for no other channel.
pub proof fn standard_shares_count_once(
    m: ChannelManager,
    d: Downstream,
    m_after: ChannelManager,
    d_after: Downstream,
    share: SubmitSharesStandard,
    now_ms: u128,
    now: u64,
    answer: ShareAnswer,
    other: u128,
)
    requires
        standard_share_taken(m, d, m_after, d_after, share, now_ms, now, answer),
        m.vardiff@.contains_key(other),
        d.standard_channels@.contains_key(share.channel_id),
        m.vardiff@.contains_key(
            (d.downstream_id * 0x1_0000_0000 + share.channel_id) as u128,
        ),
    ensures
        ({
            let number = (d.downstream_id * 0x1_0000_0000 + share.channel_id) as u128;
            &&& m_after.vardiff@.dom() == m.vardiff@.dom()
            &&& crate::channel::vardiff_shares(m_after.vardiff@[number])
                == crate::channel::vardiff_shares(m.vardiff@[number]) + 1
            &&& crate::channel::vardiff_time(m_after.vardiff@[number])
                == crate::channel::vardiff_time(m.vardiff@[number])
            &&& other != number ==> m_after.vardiff@[other] == m.vardiff@[other]
            &&& d_after.standard_channels@ == d.standard_channels@.insert(
                share.channel_id,
                crate::channel::standard_validated(
                    d.standard_channels@[share.channel_id],
                    share,
                ).0,
            )
            &&& m_after.gridpool_channels == m.gridpool_channels
            &&& m_after.last_future_template == m.last_future_template
            &&& m_after.last_new_prev_hash == m.last_new_prev_hash
            &&& m_after.pool_tag_string == m.pool_tag_string
            &&& m_after.coinbase_reward_script == m.coinbase_reward_script
            &&& d_after.extended_channels == d.extended_channels
            &&& d_after.last_job_ids == d.last_job_ids
            &&& d_after.group_channel == d.group_channel
            &&& d_after.downstream_id == d.downstream_id
            &&& d_after.next_channel_id == d.next_channel_id
            &&& d_after.payout_mode == d.payout_mode
            &&& d_after.requires_custom_work == d.requires_custom_work
            &&& d_after.requires_standard_jobs == d.requires_standard_jobs
            &&& d_after.negotiated_extensions == d.negotiated_extensions
            &&& m.gridpool is None || !m.gridpool_channels@.contains_key(number)
                ==> m_after.gridpool == m.gridpool && answer.proof is None
        }),
{
}

/// The adapter learns of a share of a standard channel for which it pays: whom the share is for,
/// whether it was accepted, and if so the difficulty of the channel's target, the difficulty that
/// the share reached, and whether the active job pays to the operator first. Of a share that was
/// not accepted it learns no difficulty. Nothing else that the adapter holds changes, but for the
/// time of the last pulse.
pub proof fn standard_shares_are_told_to_the_adapter(
    m: ChannelManager,
    d: Downstream,
    m_after: ChannelManager,
    d_after: Downstream,
    share: SubmitSharesStandard,
    now_ms: u128,
    now: u64,
    answer: ShareAnswer,
)
    requires
        standard_share_taken(m, d, m_after, d_after, share, now_ms, now, answer),
        d.standard_channels@.contains_key(share.channel_id),
        m.vardiff@.contains_key(
            (d.downstream_id * 0x1_0000_0000 + share.channel_id) as u128,
        ),
        m.gridpool is Some,
        m.gridpool_channels@.contains_key(
            (d.downstream_id * 0x1_0000_0000 + share.channel_id) as u128,
        ),
    ensures
        ({
            let number = (d.downstream_id * 0x1_0000_0000 + share.channel_id) as u128;
            let payout = m.gridpool_channels@[number];
            let before = m.gridpool->0;
            let after = m_after.gridpool->0;
            let (channel, finding) = crate::channel::standard_validated(
                d.standard_channels@[share.channel_id],
                share,
            );
            let job = crate::channel::standard_active_of(channel);
            let hash = match finding {
                Ok(crate::channel::Accepted::Valid { hash }) => hash,
                Ok(crate::channel::Accepted::BlockFound { hash, template_id, coinbase }) => hash,
                Err(_) => Seq::empty(),
            };
            &&& m_after.gridpool is Some
            &&& exists|delta: crate::telemetry::Delta|
                {
                    &&& after.telemetry@ == #[trigger] crate::telemetry::recorded(
                        before.telemetry@,
                        delta,
                        now_ms,
                    )
                    &&& delta.channel_id == share.channel_id
                    &&& delta.payout_address == payout.payout_address@
                    &&& delta.username == payout.username@
                    &&& delta.accepted <==> finding is Ok
                    &&& finding is Ok ==> {
                        &&& delta.work_difficulty.bits == crate::channel::difficulty_bits(
                            crate::channel::standard_target_of(channel),
                        )
                        &&& delta.achieved_difficulty.bits == crate::channel::difficulty_bits(hash)
                        &&& delta.fee_work <==> job is Some && before.pays_operator(
                            crate::channel::standard_fields_of(job->0).coinbase_outputs,
                            payout.payout_address@,
                        )
                    }
                    &&& finding is Err ==> delta.work_difficulty.bits == 0
                        && delta.achieved_difficulty.bits == 0 && !delta.fee_work
                }
            &&& after.config == before.config
            &&& after.token == before.token
            &&& after.work == before.work
            &&& after.advice == before.advice
        }),
{
}

/// A share of a standard channel for which the adapter pays is proved if it is a block, or if it is
/// good and the adapter wants its proof at the difficulty that it reached; the adapter counts the
/// pulses of a channel under the channel's id behind the low half of its connection's number. A
/// share that was not accepted is not proved and starts no interval, and nor does a block.
pub proof fn standard_shares_are_proved_as_the_adapter_wants(
    m: ChannelManager,
    d: Downstream,
    m_after: ChannelManager,
    d_after: Downstream,
    share: SubmitSharesStandard,
    now_ms: u128,
    now: u64,
    answer: ShareAnswer,
)
    requires
        standard_share_taken(m, d, m_after, d_after, share, now_ms, now, answer),
        standard_proof_is_good(m, d, share, now, answer),
        d.standard_channels@.contains_key(share.channel_id),
        m.vardiff@.contains_key(
            (d.downstream_id * 0x1_0000_0000 + share.channel_id) as u128,
        ),
        m.gridpool is Some,
        m.gridpool_channels@.contains_key(
            (d.downstream_id * 0x1_0000_0000 + share.channel_id) as u128,
        ),
        vstd::utf8::encode_utf8("/"@ + m.pool_tag_string@ + "//"@).len() <= 61,
    ensures
        ({
            let before = m.gridpool->0;
            let after = m_after.gridpool->0;
            let key = (d.downstream_id as int % 0x1_0000_0000 * 0x1_0000_0000
                + share.channel_id) as u64;
            let finding = crate::channel::standard_validated(
                d.standard_channels@[share.channel_id],
                share,
            ).1;
            let reached = Double {
                bits: crate::channel::difficulty_bits(
                    match finding {
                        Ok(crate::channel::Accepted::Valid { hash }) => hash,
                        _ => Seq::empty(),
                    },
                ),
            };
            &&& finding is Err ==> answer.proof is None && after.last_pulse@ == before.last_pulse@
            &&& finding is Ok && finding->Ok_0 is BlockFound ==> answer.proof is Some
                && after.last_pulse@ == before.last_pulse@
            &&& finding is Ok && finding->Ok_0 is Valid ==> {
                &&& answer.proof is Some <==> before.proves(key, reached, false, now)
                &&& after.last_pulse@ == before.pulses_after(key, reached, false, now)
            }
        }),
{
}

/// A block that a share of an extended channel is goes to the template provider with the version, time
/// and nonce of the share, and the share is acknowledged behind it.
pub proof fn extended_blocks_go_out_as_they_were_mined(
    m: ChannelManager,
    d: Downstream,
    m_after: ChannelManager,
    d_after: Downstream,
    share: SubmitSharesExtended,
    now_ms: u128,
    now: u64,
    answer: ShareAnswer,
    hash: Seq<u8>,
    template_id: u64,
    coinbase: Seq<u8>,
)
    requires
        extended_share_taken(m, d, m_after, d_after, share, now_ms, now, answer),
        d.extended_channels@.contains_key(share.channel_id),
        m.vardiff@.contains_key(
            (d.downstream_id * 0x1_0000_0000 + share.channel_id) as u128,
        ),
        crate::channel::extended_validated(d.extended_channels@[share.channel_id], share@).1
            == crate::channel::Finding::Ok(
            crate::channel::Accepted::BlockFound {
                hash,
                template_id: Some(template_id),
                coinbase,
            },
        ),
        coinbase.len() <= 0xffff,
    ensures
        ({
            let counted = crate::channel::extended_accounting_of(
                d_after.extended_channels@[share.channel_id],
            );
            let list = answer.replies->Ok_0@;
            let solution = list[0]->solution;
            &&& answer.replies is Ok
            &&& list.len() == 2
            &&& list[0] is TemplateProvider
            &&& solution.template_id == template_id
            &&& solution.version == share.version
            &&& solution.header_timestamp == share.ntime
            &&& solution.header_nonce == share.nonce
            &&& solution.coinbase_tx@ == coinbase
            &&& list[1] == RouteMessageTo::Downstream {
                downstream_id: d.downstream_id,
                message: MiningMessage::SubmitSharesSuccess {
                    channel_id: share.channel_id,
                    last_sequence_number: counted.last_sequence_number,
                    new_submits_accepted_count: counted.last_batch_accepted,
                    new_shares_sum: counted.last_batch_work_sum,
                },
            }
        }),
{
    let list = answer.replies->Ok_0@;
    let views = crate::message::routes(list);
    assert(views.len() == list.len());
    assert(list.len() > 0 ==> views[0] == list[0]@);
    assert(list.len() > 1 ==> views[1] == list[1]@);
}

/// A share of an extended channel that is there, good or not, counts once for the adjustment of the
/// channel's difficulty, and for no other channel.
pub proof fn extended_shares_count_once(
    m: ChannelManager,
    d: Downstream,
    m_after: ChannelManager,
    d_after: Downstream,
    share: SubmitSharesExtended,
    now_ms: u128,
    now: u64,
    answer: ShareAnswer,
    other: u128,
)
    requires
        extended_share_taken(m, d, m_after, d_after, share, now_ms, now, answer),
        m.vardiff@.contains_key(other),
        d.extended_channels@.contains_key(share.channel_id),
        m.vardiff@.contains_key(
            (d.downstream_id * 0x1_0000_0000 + share.channel_id) as u128,
        ),
    ensures
        ({
            let number = (d.downstream_id * 0x1_0000_0000 + share.channel_id) as u128;
            &&& m_after.vardiff@.dom() == m.vardiff@.dom()
            &&& crate::channel::vardiff_shares(m_after.vardiff@[number])
                == crate::channel::vardiff_shares(m.vardiff@[number]) + 1
            &&& crate::channel::vardiff_time(m_after.vardiff@[number])
                == crate::channel::vardiff_time(m.vardiff@[number])
            &&& other != number ==> m_after.vardiff@[other] == m.vardiff@[other]
            &&& d_after.extended_channels@ == d.extended_channels@.insert(
                share.channel_id,
                crate::channel::extended_validated(
                    d.extended_channels@[share.channel_id],
                    share@,
                ).0,
            )
            &&& m_after.gridpool_channels == m.gridpool_channels
            &&& m_after.last_future_template == m.last_future_template
            &&& m_after.last_new_prev_hash == m.last_new_prev_hash
            &&& m_after.pool_tag_string == m.pool_tag_string
            &&& m_after.coinbase_reward_script == m.coinbase_reward_script
            &&& d_after.standard_channels == d.standard_channels
            &&& d_after.last_job_ids == d.last_job_ids
            &&& d_after.group_channel == d.group_channel
            &&& d_after.downstream_id == d.downstream_id
            &&& d_after.next_channel_id == d.next_channel_id
            &&& d_after.payout_mode == d.payout_mode
            &&& d_after.requires_custom_work == d.requires_custom_work
            &&& d_after.requires_standard_jobs == d.requires_standard_jobs
            &&& d_after.negotiated_extensions == d.negotiated_extensions
            &&& m.gridpool is None || !m.gridpool_channels@.contains_key(number)
                ==> m_after.gridpool == m.gridpool && answer.proof is None
        }),
{
}

/// The adapter learns of a share of an extended channel for which it pays: whom the share is for,
/// whether it was accepted, and if so the difficulty of the channel's target, the difficulty that
/// the share reached, and whether the active job pays to the operator first. Of a share that was
/// not accepted it learns no difficulty. Nothing else that the adapter holds changes, but for the
/// time of the last pulse.
pub proof fn extended_shares_are_told_to_the_adapter(
    m: ChannelManager,
    d: Downstream,
    m_after: ChannelManager,
    d_after: Downstream,
    share: SubmitSharesExtended,
    now_ms: u128,
    now: u64,
    answer: ShareAnswer,
)
    requires
        extended_share_taken(m, d, m_after, d_after, share, now_ms, now, answer),
        d.extended_channels@.contains_key(share.channel_id),
        m.vardiff@.contains_key(
            (d.downstream_id * 0x1_0000_0000 + share.channel_id) as u128,
        ),
        m.gridpool is Some,
        m.gridpool_channels@.contains_key(
            (d.downstream_id * 0x1_0000_0000 + share.channel_id) as u128,
        ),
    ensures
        ({
            let number = (d.downstream_id * 0x1_0000_0000 + share.channel_id) as u128;
            let payout = m.gridpool_channels@[number];
            let before = m.gridpool->0;
            let after = m_after.gridpool->0;
            let (channel, finding) = crate::channel::extended_validated(
                d.extended_channels@[share.channel_id],
                share@,
            );
            let job = crate::channel::extended_active_of(channel);
            let hash = match finding {
                Ok(crate::channel::Accepted::Valid { hash }) => hash,
                Ok(crate::channel::Accepted::BlockFound { hash, template_id, coinbase }) => hash,
                Err(_) => Seq::empty(),
            };
            &&& m_after.gridpool is Some
            &&& exists|delta: crate::telemetry::Delta|
                {
                    &&& after.telemetry@ == #[trigger] crate::telemetry::recorded(
                        before.telemetry@,
                        delta,
                        now_ms,
                    )
                    &&& delta.channel_id == share.channel_id
                    &&& delta.payout_address == payout.payout_address@
                    &&& delta.username == payout.username@
                    &&& delta.accepted <==> finding is Ok
                    &&& finding is Ok ==> {
                        &&& delta.work_difficulty.bits == crate::channel::difficulty_bits(
                            crate::channel::extended_target_of(channel),
                        )
                        &&& delta.achieved_difficulty.bits == crate::channel::difficulty_bits(hash)
                        &&& delta.fee_work <==> job is Some && before.pays_operator(
                            crate::channel::extended_fields_of(job->0).coinbase_outputs,
                            payout.payout_address@,
                        )
                    }
                    &&& finding is Err ==> delta.work_difficulty.bits == 0
                        && delta.achieved_difficulty.bits == 0 && !delta.fee_work
                }
            &&& after.config == before.config
            &&& after.token == before.token
            &&& after.work == before.work
            &&& after.advice == before.advice
        }),
{
}

/// A share of an extended channel for which the adapter pays is proved if it is a block, or if it is
/// good and the adapter wants its proof at the difficulty that it reached; the adapter counts the
/// pulses of a channel under the channel's id behind the low half of its connection's number. A
/// share that was not accepted is not proved and starts no interval, and nor does a block.
pub proof fn extended_shares_are_proved_as_the_adapter_wants(
    m: ChannelManager,
    d: Downstream,
    m_after: ChannelManager,
    d_after: Downstream,
    share: SubmitSharesExtended,
    now_ms: u128,
    now: u64,
    answer: ShareAnswer,
)
    requires
        extended_share_taken(m, d, m_after, d_after, share, now_ms, now, answer),
        extended_proof_is_good(m, d, share, now, answer),
        d.extended_channels@.contains_key(share.channel_id),
        m.vardiff@.contains_key(
            (d.downstream_id * 0x1_0000_0000 + share.channel_id) as u128,
        ),
        m.gridpool is Some,
        m.gridpool_channels@.contains_key(
            (d.downstream_id * 0x1_0000_0000 + share.channel_id) as u128,
        ),
    ensures
        ({
            let before = m.gridpool->0;
            let after = m_after.gridpool->0;
            let key = (d.downstream_id as int % 0x1_0000_0000 * 0x1_0000_0000
                + share.channel_id) as u64;
            let finding = crate::channel::extended_validated(
                d.extended_channels@[share.channel_id],
                share@,
            ).1;
            let reached = Double {
                bits: crate::channel::difficulty_bits(
                    match finding {
                        Ok(crate::channel::Accepted::Valid { hash }) => hash,
                        _ => Seq::empty(),
                    },
                ),
            };
            &&& finding is Err ==> answer.proof is None && after.last_pulse@ == before.last_pulse@
            &&& finding is Ok && finding->Ok_0 is BlockFound ==> answer.proof is Some
                && after.last_pulse@ == before.last_pulse@
            &&& finding is Ok && finding->Ok_0 is Valid ==> {
                &&& answer.proof is Some <==> before.proves(key, reached, false, now)
                &&& after.last_pulse@ == before.pulses_after(key, reached, false, now)
            }
        }),
{
}

/// The number that a channel is listed under holds the connection and the channel, and the number by
/// which the adapter knows it the channel and the low half of the connection's number.
pub proof fn numbers_of_channels_hold_their_parts(downstream_id: usize, channel_id: u32)
    ensures
        slot(downstream_id, channel_id) as int / 0x1_0000_0000 == downstream_id,
        slot(downstream_id, channel_id) as int % 0x1_0000_0000 == channel_id,
        pulse_key(downstream_id, channel_id) as int % 0x1_0000_0000 == channel_id,
        pulse_key(downstream_id, channel_id) as int / 0x1_0000_0000 == downstream_id as int
            % 0x1_0000_0000,
{
}

/// Closing a channel takes it, and it alone, out of every list: of any other channel of the
/// connection, and of any channel of another connection, everything stays as it was.
pub proof fn closing_a_channel_concerns_it_alone(
    m: ChannelManager,
    d: Downstream,
    m_after: ChannelManager,
    d_after: Downstream,
    channel_id: u32,
    other: u32,
    connection: usize,
)
    requires
        channel_closed(m, d, m_after, d_after, channel_id),
    ensures
        ({
            let number = (d.downstream_id * 0x1_0000_0000 + channel_id) as u128;
            let elsewhere = (connection * 0x1_0000_0000 + other) as u128;
            let members = crate::channel::group_members(d.group_channel);
            let members_after = crate::channel::group_members(d_after.group_channel);
            &&& !d_after.standard_channels@.contains_key(channel_id)
            &&& !d_after.extended_channels@.contains_key(channel_id)
            &&& !d_after.last_job_ids@.contains_key(channel_id)
            &&& !members_after.contains(channel_id)
            &&& !m_after.vardiff@.contains_key(number)
            &&& !m_after.gridpool_channels@.contains_key(number)
            &&& other != channel_id ==> {
                &&& d_after.standard_channels@.contains_key(other)
                    <==> d.standard_channels@.contains_key(other)
                &&& d.standard_channels@.contains_key(other)
                    ==> d_after.standard_channels@[other] == d.standard_channels@[other]
                &&& d_after.extended_channels@.contains_key(other)
                    <==> d.extended_channels@.contains_key(other)
                &&& d.extended_channels@.contains_key(other)
                    ==> d_after.extended_channels@[other] == d.extended_channels@[other]
                &&& d_after.last_job_ids@.contains_key(other) <==> d.last_job_ids@.contains_key(
                    other,
                )
                &&& d.last_job_ids@.contains_key(other) ==> d_after.last_job_ids@[other]
                    == d.last_job_ids@[other]
                &&& members_after.contains(other) <==> members.contains(other)
            }
            &&& other != channel_id || connection != d.downstream_id ==> {
                &&& m_after.vardiff@.contains_key(elsewhere) <==> m.vardiff@.contains_key(elsewhere)
                &&& m.vardiff@.contains_key(elsewhere) ==> m_after.vardiff@[elsewhere]
                    == m.vardiff@[elsewhere]
                &&& m_after.gridpool_channels@.contains_key(elsewhere)
                    <==> m.gridpool_channels@.contains_key(elsewhere)
                &&& m.gridpool_channels@.contains_key(elsewhere)
                    ==> m_after.gridpool_channels@[elsewhere] == m.gridpool_channels@[elsewhere]
            }
            &&& m_after.gridpool == m.gridpool
            &&& m_after.last_future_template == m.last_future_template
            &&& m_after.last_new_prev_hash == m.last_new_prev_hash
            &&& m_after.pool_tag_string == m.pool_tag_string
            &&& m_after.coinbase_reward_script == m.coinbase_reward_script
            &&& d_after.payout_mode == d.payout_mode
            &&& d_after.requires_custom_work == d.requires_custom_work
            &&& d_after.requires_standard_jobs == d.requires_standard_jobs
            &&& d_after.negotiated_extensions == d.negotiated_extensions
            &&& d_after.downstream_id == d.downstream_id
            &&& d_after.next_channel_id == d.next_channel_id
            &&& crate::channel::group_number(d_after.group_channel)
                == crate::channel::group_number(d.group_channel)
        }),
{
}

/// A miner that changes the hash rate of a channel is told the target that the channel then has, as
/// the last message, and before it what was wrong with the change, if anything was. If there is no
/// such channel, that is all it is told. A standard channel comes before an extended one.
pub proof fn updates_are_answered_with_the_target(
    d: Downstream,
    channel_id: u32,
    fault: Option<String>,
    answer: Vec<RouteMessageTo>,
)
    requires
        call_ensures(handle_update_channel, (&d, channel_id, fault), answer),
    ensures
        ({
            let messages = answer@;
            let standard = d.standard_channels@.contains_key(channel_id);
            let extended = d.extended_channels@.contains_key(channel_id);
            let first = messages[0]->message;
            let last = messages.last()->message;
            &&& forall|k: int|
                0 <= k < messages.len() ==> (#[trigger] messages[k]) is Downstream
                    && messages[k]->downstream_id == d.downstream_id
            &&& standard || extended ==> {
                &&& messages.len() == if fault is Some {
                    2nat
                } else {
                    1nat
                }
                &&& last is SetTarget
                &&& last->SetTarget_channel_id == channel_id
                &&& standard ==> last->maximum_target@ == crate::channel::standard_target_of(
                    d.standard_channels@[channel_id],
                )
                &&& !standard ==> last->maximum_target@ == crate::channel::extended_target_of(
                    d.extended_channels@[channel_id],
                )
                &&& fault is Some ==> {
                    &&& first is UpdateChannelError
                    &&& first->UpdateChannelError_channel_id == channel_id
                    &&& first->UpdateChannelError_error_code@ == fault->0@
                }
            }
            &&& !standard && !extended ==> {
                &&& messages.len() == 1
                &&& first is UpdateChannelError
                &&& first->UpdateChannelError_channel_id == channel_id
                &&& first->UpdateChannelError_error_code@ == "invalid-channel-id"@
            }
        }),
{
    let messages = answer@;
    let views = crate::message::routes(messages);
    assert(views.len() == messages.len());
    assert forall|k: int| 0 <= k < messages.len() implies (#[trigger] messages[k])@ == views[k] by {
    }
    assert(views[0] == messages[0]@);
    assert(views.last() == messages.last()@);
}

/// A job that a miner made is answered with one message to the miner, or ends its connection if the
/// channel cannot take it. It is taken, under the id that the channel gives it, only if the job
/// declarator found it good; otherwise the refusal says why.
pub proof fn custom_jobs_are_answered(
    downstream: &mut Downstream,
    request: CustomJobRequest,
    verdict: DeclaratorVerdict,
    replies: Result<Vec<RouteMessageTo>, PoolError>,
)
    requires
        call_ensures(handle_set_custom_mining_job, (downstream, request, verdict), replies),
    ensures
        ({
            let d = *old(downstream);
            let list = replies->Ok_0@;
            let message = list[0]->message;
            let there = d.extended_channels@.contains_key(request.channel_id);
            let made = crate::channel::extended_with_custom_job(
                d.extended_channels@[request.channel_id],
                request.job,
            ).1;
            let after = *final(downstream);
            &&& after.standard_channels == d.standard_channels
            &&& after.group_channel == d.group_channel
            &&& after.downstream_id == d.downstream_id
            &&& after.next_channel_id == d.next_channel_id
            &&& !(verdict is Validated) || !there ==> after.extended_channels@
                == d.extended_channels@ && after.last_job_ids@ == d.last_job_ids@
            &&& verdict is Validated && there ==> after.extended_channels@.remove(
                request.channel_id,
            ) == d.extended_channels@.remove(request.channel_id)
                && after.extended_channels@[request.channel_id]
                == crate::channel::extended_with_custom_job(
                d.extended_channels@[request.channel_id],
                request.job,
            ).0
            &&& replies is Err <==> verdict is Validated && there && made is Err
            &&& replies is Err ==> {
                let error = replies->Err_0;
                &&& error is Disconnect
                &&& error->downstream_id == d.downstream_id
                &&& error->Disconnect_kind is Channel
                &&& error->Disconnect_kind->Channel_message@ == made->Err_0
            }
            &&& replies is Ok ==> list.len() == 1 && list[0] is Downstream
                && list[0]->downstream_id == d.downstream_id
            &&& message is SetCustomMiningJobSuccess && replies is Ok <==> verdict is Validated
                && there && made is Ok
            &&& verdict is Validated && there && made is Ok ==> {
                &&& message->SetCustomMiningJobSuccess_channel_id == request.channel_id
                &&& message->SetCustomMiningJobSuccess_request_id == request.request_id
                &&& message->SetCustomMiningJobSuccess_job_id == made->Ok_0
            }
            &&& verdict is Absent || (verdict is Validated && !there) ==> {
                &&& message is SetCustomMiningJobError
                &&& message->SetCustomMiningJobError_channel_id == request.channel_id
                &&& message->SetCustomMiningJobError_request_id == request.request_id
                &&& message->SetCustomMiningJobError_error_code@ == if verdict is Absent {
                    "jd-not-supported"@
                } else {
                    "invalid-channel-id"@
                }
            }
            &&& verdict is Refused ==> {
                &&& message is SetCustomMiningJobError
                &&& message->SetCustomMiningJobError_channel_id == verdict->channel_id
                &&& message->SetCustomMiningJobError_request_id == verdict->request_id
                &&& message->SetCustomMiningJobError_error_code@ == verdict->error_code@
            }
        }),
{
    let d = *old(downstream);
    let after = *final(downstream);
    assert(after.extended_channels@.remove(request.channel_id) =~= d.extended_channels@.remove(
        request.channel_id,
    ));
    if replies is Ok {
        let list = replies->Ok_0@;
        let views = crate::message::routes(list);
        assert(views.len() == list.len());
        assert(list.len() > 0 ==> views[0] == list[0]@);
    }
}

/// What is known of the ids of jobs never falls short: after a job that a miner made was handed to
/// a channel, no id that the channel then has given exceeds the number that is kept for it, and
/// the numbers of other channels stay.
pub proof fn job_numbers_stay_ahead(
    before: Map<u32, u32>,
    channel_id: u32,
    committed: bool,
    made: crate::channel::CustomJob,
    last: int,
    last_after: int,
    other: u32,
)
    requires
        before.contains_key(channel_id),
        last <= before[channel_id],
        last < u32::MAX,
        committed && made is Ok ==> last_after == made->Ok_0,
        committed && made is Err ==> last_after <= last + 1,
        !committed ==> last_after == last,
    ensures
        noted_job(before, channel_id, committed, made).contains_key(channel_id),
        last_after <= noted_job(before, channel_id, committed, made)[channel_id],
        committed && made is Ok ==> noted_job(before, channel_id, committed, made)[channel_id]
            == made->Ok_0,
        committed && made is Err && before[channel_id] < u32::MAX ==> noted_job(
            before,
            channel_id,
            committed,
            made,
        )[channel_id] == before[channel_id] + 1,
        !committed ==> noted_job(before, channel_id, committed, made) == before,
        other != channel_id && before.contains_key(other) ==> noted_job(
            before,
            channel_id,
            committed,
            made,
        ).contains_key(other) && noted_job(before, channel_id, committed, made)[other]
            == before[other],
{
}

/// Workers are named by the first field of the second extension.
pub proof fn workers_are_named_by_one_field(field: ExtensionField)
    ensures
        names_worker(field) <==> field.extension_type == 2 && field.field_type == 1,
{
}

/// An id stands for a standard channel if there is one under it, for an extended one if there is
/// only such a one, and for none otherwise.
pub proof fn ids_stand_for_standard_channels_first(
    downstream: Downstream,
    channel_id: u32,
    kind: Option<ChannelKind>,
)
    requires
        call_ensures(channel_kind, (&downstream, channel_id), kind),
    ensures
        ({
            let standard = downstream.standard_channels@.contains_key(channel_id);
            let extended = downstream.extended_channels@.contains_key(channel_id);
            &&& kind is Some <==> standard || extended
            &&& kind == Some(ChannelKind::Standard) <==> standard
            &&& kind == Some(ChannelKind::Extended) <==> extended && !standard
        }),
{
}

/// A field that names the worker of a share is the first that does, and the extension for it was
/// agreed on.
pub proof fn workers_are_named_by_the_first_field(
    extensions: Vec<u16>,
    fields: Vec<ExtensionField>,
    at: usize,
    k: int,
)
    requires
        call_ensures(worker_field, (&extensions, &fields), Some(at)),
    ensures
        at < fields@.len(),
        fields@[at as int].extension_type == 2,
        fields@[at as int].field_type == 1,
        0 <= k < at ==> fields@[k].extension_type != 2 || fields@[k].field_type != 1,
        extensions@.contains(2),
{
    if 0 <= k < at {
        assert(!names_worker(fields@[k]));
    }
    assert(extensions@.contains(WORKER_EXTENSION));
}

/// A job that the job declarator did not find good is refused with one message, and one that it
/// found good is not refused.
pub proof fn custom_jobs_are_refused_without_a_verdict(
    downstream_id: usize,
    request_id: u32,
    channel_id: u32,
    verdict: DeclaratorVerdict,
    messages: Option<Vec<RouteMessageTo>>,
)
    requires
        call_ensures(refuse_custom_job, (downstream_id, request_id, channel_id, verdict), messages),
    ensures
        ({
            let list = messages->0@;
            let message = list[0]->message;
            &&& messages is None <==> verdict is Validated
            &&& messages is Some ==> {
                &&& list.len() == 1
                &&& list[0] is Downstream
                &&& list[0]->downstream_id == downstream_id
                &&& message is SetCustomMiningJobError
            }
            &&& verdict is Absent ==> {
                &&& message->SetCustomMiningJobError_request_id == request_id
                &&& message->SetCustomMiningJobError_channel_id == channel_id
                &&& message->SetCustomMiningJobError_error_code@ == "jd-not-supported"@
            }
            &&& verdict is Refused ==> {
                &&& message->SetCustomMiningJobError_request_id == verdict->request_id
                &&& message->SetCustomMiningJobError_channel_id == verdict->channel_id
                &&& message->SetCustomMiningJobError_error_code@ == verdict->error_code@
            }
        }),
{
    if messages is Some {
        let list = messages->0@;
        let views = crate::message::routes(list);
        assert(views.len() == list.len());
        assert(views[0] == list[0]@);
    }
}

/// A job can be taken unless the channel is there and the ids of its jobs may have come to the
/// greatest.
pub proof fn jobs_can_be_taken_while_ids_are_left(
    downstream: Downstream,
    channel_id: u32,
    room: bool,
)
    requires
        downstream.wf(),
        call_ensures(Downstream::can_take_job, (&downstream, channel_id), room),
    ensures
        !downstream.extended_channels@.contains_key(channel_id) ==> room,
        downstream.extended_channels@.contains_key(channel_id) ==> (room
            <==> downstream.last_job_ids@[channel_id] < 0xffff_ffff),
        room && downstream.extended_channels@.contains_key(channel_id)
            ==> crate::channel::extended_last_job_of(downstream.extended_channels@[channel_id])
            < 0xffff_ffff,
{
}

/// A share can be taken while everything that counts it can count one more: the adjustment of the
/// channel's difficulty, telemetry if the adapter pays for the channel, and the channel itself.
pub proof fn shares_can_be_taken_while_counts_have_room(
    manager: ChannelManager,
    downstream: Downstream,
    channel_id: u32,
    standard: bool,
    extended: bool,
)
    requires
        manager.wf(),
        call_ensures(
            ChannelManager::can_take_standard_share,
            (&manager, &downstream, channel_id),
            standard,
        ),
        call_ensures(
            ChannelManager::can_take_extended_share,
            (&manager, &downstream, channel_id),
            extended,
        ),
    ensures
        ({
            let number = (downstream.downstream_id * 0x1_0000_0000 + channel_id) as u128;
            let adjusted = manager.vardiff@.contains_key(number) ==> crate::channel::vardiff_shares(
                manager.vardiff@[number],
            ) < 0xffff_ffff;
            let told = manager.gridpool is Some && manager.gridpool_channels@.contains_key(number)
                ==> manager.gridpool->0.telemetry.can_count(
                channel_id,
                manager.gridpool_channels@[number].payout_address@,
                false,
            );
            let a = crate::channel::standard_counts_of(downstream.standard_channels@[channel_id]);
            let b = crate::channel::extended_counts_of(downstream.extended_channels@[channel_id]);
            let full = 0xffff_ffffu32;
            &&& standard <==> adjusted && told && (
            downstream.standard_channels@.contains_key(channel_id) ==> a.accepted < full && a.batch
                < full && a.blocks < full && a.stale < full && a.unknown_job < full && a.duplicate
                < full && a.too_easy < full)
            &&& extended <==> adjusted && told && (
            downstream.extended_channels@.contains_key(channel_id) ==> b.accepted < full && b.batch
                < full && b.blocks < full && b.stale < full && b.unknown_job < full && b.duplicate
                < full && b.too_easy < full && b.bad_extranonce < full && b.version_rolled < full)
        }),
{
}

/// A share of a standard channel that is not accepted is answered under its own sequence number with
/// the code of what was wrong with it; only where the share cannot be judged its connection ends.
pub proof fn standard_shares_that_fail_are_answered_under_their_number(
    m: ChannelManager,
    d: Downstream,
    m_after: ChannelManager,
    d_after: Downstream,
    share: SubmitSharesStandard,
    now_ms: u128,
    now: u64,
    answer: ShareAnswer,
)
    requires
        standard_share_taken(m, d, m_after, d_after, share, now_ms, now, answer),
        d.standard_channels@.contains_key(share.channel_id),
        m.vardiff@.contains_key(
            (d.downstream_id * 0x1_0000_0000 + share.channel_id) as u128,
        ),
        crate::channel::standard_validated(
            d.standard_channels@[share.channel_id],
            share,
        ).1 is Err,
    ensures
        ({
            let error = crate::channel::standard_validated(
                d.standard_channels@[share.channel_id],
                share,
            ).1->Err_0;
            let (kind, code) = crate::channel::fault_of(error);
            let ends = kind is InvalidCoinbase || kind is NoChainTip || kind
                is BadExtranonceSize;
            let list = answer.replies->Ok_0@;
            let message = list[0]->message;
            &&& ends ==> answer.replies == Err::<Vec<RouteMessageTo>, PoolError>(
                PoolError::Disconnect {
                    downstream_id: d.downstream_id,
                    kind: PoolErrorKind::ShareValidation { kind },
                },
            )
            &&& !ends ==> {
                &&& answer.replies is Ok
                &&& list.len() == 1
                &&& list[0] is Downstream
                &&& list[0]->downstream_id == d.downstream_id
                &&& message is SubmitSharesError
                &&& message->SubmitSharesError_channel_id == share.channel_id
                &&& message->SubmitSharesError_sequence_number == share.sequence_number
                &&& message->SubmitSharesError_error_code@ == code
            }
        }),
{
    if answer.replies is Ok {
        let list = answer.replies->Ok_0@;
        let views = crate::message::routes(list);
        assert(views.len() == list.len());
        assert(list.len() > 0 ==> views[0] == list[0]@);
    }
}

/// A share of a standard channel that is not there is refused under its own sequence number, one of a
/// channel whose difficulty is not adjusted any more closes the channel, and neither changes
/// anything.
pub proof fn standard_shares_without_a_channel_change_nothing(
    m: ChannelManager,
    d: Downstream,
    m_after: ChannelManager,
    d_after: Downstream,
    share: SubmitSharesStandard,
    now_ms: u128,
    now: u64,
    answer: ShareAnswer,
)
    requires
        standard_share_taken(m, d, m_after, d_after, share, now_ms, now, answer),
        !d.standard_channels@.contains_key(share.channel_id) || !m.vardiff@.contains_key(
            (d.downstream_id * 0x1_0000_0000 + share.channel_id) as u128,
        ),
    ensures
        ({
            let there = d.standard_channels@.contains_key(share.channel_id);
            let list = answer.replies->Ok_0@;
            let message = list[0]->message;
            &&& m_after == m
            &&& d_after == d
            &&& answer.proof is None
            &&& answer.replies is Ok
            &&& list.len() == 1
            &&& list[0] is Downstream
            &&& list[0]->downstream_id == d.downstream_id
            &&& !there ==> {
                &&& message is SubmitSharesError
                &&& message->SubmitSharesError_channel_id == share.channel_id
                &&& message->SubmitSharesError_sequence_number == share.sequence_number
                &&& message->SubmitSharesError_error_code@ == "invalid-channel-id"@
            }
            &&& there ==> {
                &&& message is CloseChannel
                &&& message->CloseChannel_channel_id == share.channel_id
                &&& message->reason_code@ == "invalid-channel-id"@
            }
        }),
{
    let list = answer.replies->Ok_0@;
    let views = crate::message::routes(list);
    assert(views.len() == list.len());
    assert(views[0] == list[0]@);
}

/// A block that a share of a standard channel is and that no template is for is acknowledged at once and
/// goes to no template provider; one whose coinbase does not fit the message to it ends the pool.
pub proof fn standard_blocks_without_a_template_are_acknowledged(
    m: ChannelManager,
    d: Downstream,
    m_after: ChannelManager,
    d_after: Downstream,
    share: SubmitSharesStandard,
    now_ms: u128,
    now: u64,
    answer: ShareAnswer,
    hash: Seq<u8>,
    template_id: Option<u64>,
    coinbase: Seq<u8>,
)
    requires
        standard_share_taken(m, d, m_after, d_after, share, now_ms, now, answer),
        d.standard_channels@.contains_key(share.channel_id),
        m.vardiff@.contains_key(
            (d.downstream_id * 0x1_0000_0000 + share.channel_id) as u128,
        ),
        crate::channel::standard_validated(d.standard_channels@[share.channel_id], share).1
            == crate::channel::Finding::Ok(
            crate::channel::Accepted::BlockFound { hash, template_id, coinbase },
        ),
        template_id is None || coinbase.len() > 0xffff,
    ensures
        template_id is None ==> {
            let counted = crate::channel::standard_accounting_of(
                d_after.standard_channels@[share.channel_id],
            );
            &&& answer.replies is Ok
            &&& answer.replies->Ok_0@ == seq![
                RouteMessageTo::Downstream {
                    downstream_id: d.downstream_id,
                    message: MiningMessage::SubmitSharesSuccess {
                        channel_id: share.channel_id,
                        last_sequence_number: counted.last_sequence_number,
                        new_submits_accepted_count: counted.last_batch_accepted,
                        new_shares_sum: counted.last_batch_work_sum,
                    },
                },
            ]
        },
        template_id is Some ==> answer.replies == Err::<Vec<RouteMessageTo>, PoolError>(
            PoolError::Shutdown { kind: PoolErrorKind::FieldTooLong },
        ),
{
    if answer.replies is Ok {
        let list = answer.replies->Ok_0@;
        let views = crate::message::routes(list);
        assert(views.len() == list.len());
        assert(list.len() > 0 ==> views[0] == list[0]@);
    }
}

/// A share of an extended channel that is not accepted is answered under its own sequence number with
/// the code of what was wrong with it; only where the share cannot be judged its connection ends.
pub proof fn extended_shares_that_fail_are_answered_under_their_number(
    m: ChannelManager,
    d: Downstream,
    m_after: ChannelManager,
    d_after: Downstream,
    share: SubmitSharesExtended,
    now_ms: u128,
    now: u64,
    answer: ShareAnswer,
)
    requires
        extended_share_taken(m, d, m_after, d_after, share, now_ms, now, answer),
        d.extended_channels@.contains_key(share.channel_id),
        m.vardiff@.contains_key(
            (d.downstream_id * 0x1_0000_0000 + share.channel_id) as u128,
        ),
        crate::channel::extended_validated(
            d.extended_channels@[share.channel_id],
            share@,
        ).1 is Err,
    ensures
        ({
            let error = crate::channel::extended_validated(
                d.extended_channels@[share.channel_id],
                share@,
            ).1->Err_0;
            let (kind, code) = crate::channel::fault_of(error);
            let ends = kind is InvalidCoinbase || kind is NoChainTip;
            let list = answer.replies->Ok_0@;
            let message = list[0]->message;
            &&& ends ==> answer.replies == Err::<Vec<RouteMessageTo>, PoolError>(
                PoolError::Disconnect {
                    downstream_id: d.downstream_id,
                    kind: PoolErrorKind::ShareValidation { kind },
                },
            )
            &&& !ends ==> {
                &&& answer.replies is Ok
                &&& list.len() == 1
                &&& list[0] is Downstream
                &&& list[0]->downstream_id == d.downstream_id
                &&& message is SubmitSharesError
                &&& message->SubmitSharesError_channel_id == share.channel_id
                &&& message->SubmitSharesError_sequence_number == share.sequence_number
                &&& message->SubmitSharesError_error_code@ == code
            }
        }),
{
    if answer.replies is Ok {
        let list = answer.replies->Ok_0@;
        let views = crate::message::routes(list);
        assert(views.len() == list.len());
        assert(list.len() > 0 ==> views[0] == list[0]@);
    }
}

/// A share of an extended channel that is not there is refused under its own sequence number, one of a
/// channel whose difficulty is not adjusted any more closes the channel, and neither changes
/// anything.
pub proof fn extended_shares_without_a_channel_change_nothing(
    m: ChannelManager,
    d: Downstream,
    m_after: ChannelManager,
    d_after: Downstream,
    share: SubmitSharesExtended,
    now_ms: u128,
    now: u64,
    answer: ShareAnswer,
)
    requires
        extended_share_taken(m, d, m_after, d_after, share, now_ms, now, answer),
        !d.extended_channels@.contains_key(share.channel_id) || !m.vardiff@.contains_key(
            (d.downstream_id * 0x1_0000_0000 + share.channel_id) as u128,
        ),
    ensures
        ({
            let there = d.extended_channels@.contains_key(share.channel_id);
            let list = answer.replies->Ok_0@;
            let message = list[0]->message;
            &&& m_after == m
            &&& d_after == d
            &&& answer.proof is None
            &&& answer.replies is Ok
            &&& list.len() == 1
            &&& list[0] is Downstream
            &&& list[0]->downstream_id == d.downstream_id
            &&& !there ==> {
                &&& message is SubmitSharesError
                &&& message->SubmitSharesError_channel_id == share.channel_id
                &&& message->SubmitSharesError_sequence_number == share.sequence_number
                &&& message->SubmitSharesError_error_code@ == "invalid-channel-id"@
            }
            &&& there ==> {
                &&& message is CloseChannel
                &&& message->CloseChannel_channel_id == share.channel_id
                &&& message->reason_code@ == "invalid-channel-id"@
            }
        }),
{
    let list = answer.replies->Ok_0@;
    let views = crate::message::routes(list);
    assert(views.len() == list.len());
    assert(views[0] == list[0]@);
}

/// A block that a share of an extended channel is and that no template is for is acknowledged at once and
/// goes to no template provider; one whose coinbase does not fit the message to it ends the pool.
pub proof fn extended_blocks_without_a_template_are_acknowledged(
    m: ChannelManager,
    d: Downstream,
    m_after: ChannelManager,
    d_after: Downstream,
    share: SubmitSharesExtended,
    now_ms: u128,
    now: u64,
    answer: ShareAnswer,
    hash: Seq<u8>,
    template_id: Option<u64>,
    coinbase: Seq<u8>,
)
    requires
        extended_share_taken(m, d, m_after, d_after, share, now_ms, now, answer),
        d.extended_channels@.contains_key(share.channel_id),
        m.vardiff@.contains_key(
            (d.downstream_id * 0x1_0000_0000 + share.channel_id) as u128,
        ),
        crate::channel::extended_validated(d.extended_channels@[share.channel_id], share@).1
            == crate::channel::Finding::Ok(
            crate::channel::Accepted::BlockFound { hash, template_id, coinbase },
        ),
        template_id is None || coinbase.len() > 0xffff,
    ensures
        template_id is None ==> {
            let counted = crate::channel::extended_accounting_of(
                d_after.extended_channels@[share.channel_id],
            );
            &&& answer.replies is Ok
            &&& answer.replies->Ok_0@ == seq![
                RouteMessageTo::Downstream {
                    downstream_id: d.downstream_id,
                    message: MiningMessage::SubmitSharesSuccess {
                        channel_id: share.channel_id,
                        last_sequence_number: counted.last_sequence_number,
                        new_submits_accepted_count: counted.last_batch_accepted,
                        new_shares_sum: counted.last_batch_work_sum,
                    },
                },
            ]
        },
        template_id is Some ==> answer.replies == Err::<Vec<RouteMessageTo>, PoolError>(
            PoolError::Shutdown { kind: PoolErrorKind::FieldTooLong },
        ),
{
    if answer.replies is Ok {
        let list = answer.replies->Ok_0@;
        let views = crate::message::routes(list);
        assert(views.len() == list.len());
        assert(list.len() > 0 ==> views[0] == list[0]@);
    }
}

/// The proof of a share of a standard channel names whom the adapter pays for the channel and the
/// difficulty that the share reached, and is that of the share to the channel that judged it.
pub proof fn standard_proofs_are_those_of_the_share(
    m: ChannelManager,
    d: Downstream,
    m_after: ChannelManager,
    d_after: Downstream,
    share: SubmitSharesStandard,
    now_ms: u128,
    now: u64,
    answer: ShareAnswer,
)
    requires
        standard_share_taken(m, d, m_after, d_after, share, now_ms, now, answer),
        answer.proof is Some,
    ensures
        ({
            let number = (d.downstream_id * 0x1_0000_0000 + share.channel_id) as u128;
            let payout = m.gridpool_channels@[number];
            let proof = answer.proof->0;
            let (channel, finding) = crate::channel::standard_validated(
                d.standard_channels@[share.channel_id],
                share,
            );
            let hash = match finding {
                Ok(crate::channel::Accepted::Valid { hash }) => hash,
                Ok(crate::channel::Accepted::BlockFound { hash, template_id, coinbase }) => hash,
                Err(_) => Seq::empty(),
            };
            &&& d.standard_channels@.contains_key(share.channel_id)
            &&& m.gridpool is Some
            &&& m.gridpool_channels@.contains_key(number)
            &&& finding is Ok
            &&& proof.miner_address@ == payout.payout_address@
            &&& proof.username@ == payout.username@
            &&& proof.difficulty.bits == crate::channel::difficulty_bits(hash)
            &&& crate::evidence::standard_channel_proof(
                m.pool_tag_string@, channel,
                share,
                payout,
                proof.difficulty,
            ) == Some(proof@)
        }),
{
}

/// The proof of a share of an extended channel names whom the adapter pays for the channel and the
/// difficulty that the share reached, and is that of the share to the channel that judged it.
pub proof fn extended_proofs_are_those_of_the_share(
    m: ChannelManager,
    d: Downstream,
    m_after: ChannelManager,
    d_after: Downstream,
    share: SubmitSharesExtended,
    now_ms: u128,
    now: u64,
    answer: ShareAnswer,
)
    requires
        extended_share_taken(m, d, m_after, d_after, share, now_ms, now, answer),
        answer.proof is Some,
    ensures
        ({
            let number = (d.downstream_id * 0x1_0000_0000 + share.channel_id) as u128;
            let payout = m.gridpool_channels@[number];
            let proof = answer.proof->0;
            let (channel, finding) = crate::channel::extended_validated(
                d.extended_channels@[share.channel_id],
                share@,
            );
            let hash = match finding {
                Ok(crate::channel::Accepted::Valid { hash }) => hash,
                Ok(crate::channel::Accepted::BlockFound { hash, template_id, coinbase }) => hash,
                Err(_) => Seq::empty(),
            };
            &&& d.extended_channels@.contains_key(share.channel_id)
            &&& m.gridpool is Some
            &&& m.gridpool_channels@.contains_key(number)
            &&& finding is Ok
            &&& proof.miner_address@ == payout.payout_address@
            &&& proof.username@ == payout.username@
            &&& proof.difficulty.bits == crate::channel::difficulty_bits(hash)
            &&& crate::evidence::extended_channel_proof(
                channel,
                share@,
                payout,
                proof.difficulty,
            ) == Some(proof@)
        }),
{
}

} // verus!
