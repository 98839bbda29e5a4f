//! Opening channels: who is let in, what a new channel is told, and where it is listed.

use crate::channel::{
    allocate_extended, allocate_standard, extended_full_size, extended_future, extended_future_id,
    extended_message, extended_prefix, extended_rollable, extended_take_prev_hash,
    extended_take_template, extended_target, group_add, group_id, new_vardiff, outside_prev_hash,
    outside_template, standard_future, standard_future_id, standard_message, standard_prefix,
    standard_take_prev_hash, standard_take_template, standard_target, AllocationFault,
};
use crate::clock::now_seconds;
use crate::identity::{identity_text, read_payout_mode, PayoutMode, PayoutModeFault};
use crate::manager::{slot_of, ChannelManager, Downstream};
use crate::message::{
    one_message, push_message, MiningMessage, PoolError, PoolErrorKind, RouteMessageTo,
};
use crate::work::{ChannelPayout, TxOut};
use stratum_apps::stratum_core::channels_sv2::extranonce_manager::{
    AllocatedExtranoncePrefix, ExtranonceAllocator,
};
use stratum_apps::stratum_core::channels_sv2::server::extended::ExtendedChannel;
use stratum_apps::stratum_core::channels_sv2::server::standard::StandardChannel;
use stratum_apps::stratum_core::channels_sv2::VardiffState;
use vstd::prelude::*;

verus! {

broadcast use vstd::std_specs::hash::group_hash_axioms;

/// What a miner asks a channel with.
#[derive(Clone, Debug)]
pub struct OpenRequest {
    pub request_id: u32,
    pub user_identity: Vec<u8>,
}

/// A channel that was let in and is about to be made.
#[derive(Debug)]
pub struct OpenTicket {
    pub request_id: u32,
    pub channel_id: u32,
    pub user_identity: String,
    /// Who is paid, if a GridPool node is attached.
    pub payout: Option<ChannelPayout>,
    pub mode: PayoutMode,
}

/// What to do about a channel that a miner asks for.
#[derive(Debug)]
pub enum OpenStep {
    /// Answer, or end.
    Reply { replies: Result<Vec<RouteMessageTo>, PoolError> },
    /// Make the channel with the extranonce prefix. Its first job has the outputs, if it is a
    /// standard channel.
    Create { ticket: OpenTicket, prefix: AllocatedExtranoncePrefix, outputs: Vec<TxOut> },
}

/// Why a channel could not be made.
#[derive(Clone, Debug)]
pub enum OpenFault {
    /// The request cannot be met, for a reason that has a code.
    Refused { code: String },
    /// Any other reason.
    Other { message: String },
}

/// Who is paid for a channel: an address and a user name.
pub type PayoutNames = Option<(Seq<char>, Seq<char>)>;

/// The address and the user name of a payout.
pub open spec fn names_of(payout: Option<ChannelPayout>) -> PayoutNames {
    match payout {
        Some(p) => Some((p.payout_address@, p.username@)),
        None => None,
    }
}

/// The mode of an identity. One that says nothing about payouts leaves everything to the pool;
/// there is none for an identity that says something malformed.
pub open spec fn effective_mode(identity: Seq<char>) -> Option<crate::identity::Mode> {
    match crate::identity::payout_mode_of(identity) {
        Ok(mode) => Some(mode),
        Err(PayoutModeFault::NoPayoutMode) => Some(crate::identity::Mode::FullDonation),
        Err(PayoutModeFault::Malformed) => None,
    }
}

/// Who is paid for a channel with an identity, and the mode of the identity. There is nothing for
/// an identity that the GridPool adapter or the pool refuses.
pub open spec fn identified(m: ChannelManager, identity: Seq<char>) -> Option<
    (PayoutNames, crate::identity::Mode),
> {
    match effective_mode(identity) {
        None => None,
        Some(mode) => match m.gridpool {
            None => Some((None, mode)),
            Some(client) => match crate::client::channel_payout(
                identity,
                client.script_of(crate::client::explicit_part(crate::text::trimmed(identity))),
                client.config.fallback_payout_address@,
            ) {
                Ok(names) => Some((Some(names), mode)),
                Err(_) => None,
            },
        },
    }
}

/// The outputs of a job of a channel for a block worth `total`: as the GridPool adapter has them,
/// or else as the mode says.
pub open spec fn job_outputs(
    m: ChannelManager,
    payout: PayoutNames,
    mode: crate::identity::Mode,
    total: u64,
    now: u64,
) -> Result<Seq<crate::work::Output>, Seq<char>> {
    match (m.gridpool, payout) {
        (Some(client), Some(names)) => client.outputs_at(names.0, total as int, now as int),
        _ => Ok(crate::identity::mode_outputs(mode, total, m.coinbase_reward_script@)),
    }
}

/// The message that a channel is not opened.
pub open spec fn open_refusal(
    downstream_id: usize,
    request_id: u32,
    code: Seq<char>,
) -> crate::message::Replies {
    Ok(
        crate::message::to_miner(
            downstream_id,
            crate::message::Mining::OpenMiningChannelError { request_id, error_code: code },
        ),
    )
}

/// The end of a connection.
pub open spec fn disconnect(
    downstream_id: usize,
    kind: crate::message::ErrorKind,
) -> crate::message::Replies {
    Err(crate::message::Failure::Disconnect { downstream_id, kind })
}

/// The end of the pool.
pub open spec fn shutdown(kind: crate::message::ErrorKind) -> crate::message::Replies {
    Err(crate::message::Failure::Shutdown { kind })
}

/// What is decided about a channel that a miner asks for.
pub ghost enum Admission {
    Reply { replies: crate::message::Replies },
    Admit { payout: PayoutNames, mode: crate::identity::Mode, outputs: Seq<crate::work::Output> },
}

/// What is decided about a standard channel that a miner asks for at a time. A miner that makes
/// its own jobs gets none; without a template and a chain tip the connection ends; an identity
/// may be refused; and the connection ends if the payouts do not work out.
pub open spec fn standard_admission(
    m: ChannelManager,
    d: Downstream,
    request_id: u32,
    identity: Seq<char>,
    now: u64,
) -> Admission {
    let id = d.downstream_id;
    if d.requires_custom_work {
        Admission::Reply {
            replies: open_refusal(
                id,
                request_id,
                "standard-channels-not-supported-for-custom-work"@,
            ),
        }
    } else if m.last_future_template is None {
        Admission::Reply {
            replies: disconnect(id, crate::message::ErrorKind::FutureTemplateNotPresent),
        }
    } else if m.last_new_prev_hash is None {
        Admission::Reply {
            replies: disconnect(id, crate::message::ErrorKind::LastNewPrevhashNotFound),
        }
    } else {
        let total = m.last_future_template->0.coinbase_tx_value_remaining;
        match identified(m, identity) {
            None => Admission::Reply {
                replies: open_refusal(id, request_id, "invalid-user-identity"@),
            },
            Some((payout, mode)) => match job_outputs(m, payout, mode, total, now) {
                Err(message) => Admission::Reply {
                    replies: disconnect(id, crate::message::ErrorKind::Configuration { message }),
                },
                Ok(outputs) => Admission::Admit { payout, mode, outputs },
            },
        }
    }
}

/// What is decided about an extended channel that a miner asks for. `allocated` tells whether
/// there is an extranonce prefix for it.
pub open spec fn extended_admission(
    m: ChannelManager,
    d: Downstream,
    request_id: u32,
    identity: Seq<char>,
    allocated: bool,
) -> Admission {
    let id = d.downstream_id;
    if d.requires_standard_jobs {
        Admission::Reply {
            replies: open_refusal(
                id,
                request_id,
                "extended-channels-not-supported-for-standard-jobs"@,
            ),
        }
    } else if !allocated {
        Admission::Reply {
            replies: open_refusal(id, request_id, "min-extranonce-size-too-large"@),
        }
    } else {
        match identified(m, identity) {
            None => Admission::Reply {
                replies: open_refusal(id, request_id, "invalid-user-identity"@),
            },
            Some((payout, mode)) => Admission::Admit { payout, mode, outputs: Seq::empty() },
        }
    }
}

/// With a GridPool node attached, an identity that is meant as an address and does not read as one
/// opens no standard channel: where it is looked at, it is refused.
pub proof fn address_like_identities_open_no_standard_channel(
    m: ChannelManager,
    d: Downstream,
    request_id: u32,
    identity: Seq<char>,
    now: u64,
)
    requires
        m.gridpool is Some,
        crate::address::is_address_like(
            crate::client::explicit_part(crate::text::trimmed(identity)),
        ),
        m.gridpool->0.script_of(
            crate::client::explicit_part(crate::text::trimmed(identity)),
        ) is Err,
    ensures
        standard_admission(m, d, request_id, identity, now) is Reply,
        !d.requires_custom_work && m.last_future_template is Some && m.last_new_prev_hash is Some
            ==> standard_admission(m, d, request_id, identity, now) == (Admission::Reply {
            replies: open_refusal(d.downstream_id, request_id, "invalid-user-identity"@),
        }),
{
}

/// With a GridPool node attached, an identity that is meant as an address and does not read as one
/// opens no extended channel: where it is looked at, it is refused.
pub proof fn address_like_identities_open_no_extended_channel(
    m: ChannelManager,
    d: Downstream,
    request_id: u32,
    identity: Seq<char>,
    allocated: bool,
)
    requires
        m.gridpool is Some,
        crate::address::is_address_like(
            crate::client::explicit_part(crate::text::trimmed(identity)),
        ),
        m.gridpool->0.script_of(
            crate::client::explicit_part(crate::text::trimmed(identity)),
        ) is Err,
    ensures
        extended_admission(m, d, request_id, identity, allocated) is Reply,
        !d.requires_standard_jobs && allocated ==> extended_admission(
            m,
            d,
            request_id,
            identity,
            allocated,
        ) == (Admission::Reply {
            replies: open_refusal(d.downstream_id, request_id, "invalid-user-identity"@),
        }),
{
}

/// The outputs of a job spend the value of the block, neither more nor less.
pub proof fn job_outputs_spend_the_total(
    m: ChannelManager,
    payout: PayoutNames,
    mode: crate::identity::Mode,
    total: u64,
    now: u64,
)
    requires
        mode matches crate::identity::Mode::Donate { percentage, script } ==> percentage <= 100,
    ensures
        job_outputs(m, payout, mode, total, now) matches Ok(outputs) ==> crate::work::total_value(
            outputs,
        ) == total,
{
    match (m.gridpool, payout) {
        (Some(client), Some(names)) => {
            crate::work::block_outputs_spend_the_total(
                client.work.coinbase_outputs@,
                total as int,
                client.script_of(client.slot_zero_address(names.0, now as int)),
            );
        },
        _ => {
            crate::identity::mode_outputs_spend_the_total(
                mode,
                total,
                m.coinbase_reward_script@,
            );
        },
    }
}

/// Refuses a channel.
fn refuse(downstream_id: usize, request_id: u32, code: &str) -> (step: OpenStep)
    ensures
        step matches OpenStep::Reply { replies } && crate::message::same_replies(
            replies,
            open_refusal(downstream_id, request_id, code@),
        ),
{
    let message = MiningMessage::OpenMiningChannelError { request_id, error_code: code.to_owned() };
    OpenStep::Reply { replies: Ok(one_message(downstream_id, message)) }
}

/// Ends a connection.
fn end_connection(downstream_id: usize, kind: PoolErrorKind) -> (step: OpenStep)
    ensures
        step matches OpenStep::Reply { replies } && crate::message::same_replies(
            replies,
            disconnect(downstream_id, kind@),
        ),
{
    OpenStep::Reply { replies: Err(PoolError::Disconnect { downstream_id, kind }) }
}

/// Whether a step says what was decided, for a channel with the given id.
pub open spec fn follows(
    step: OpenStep,
    admission: Admission,
    request_id: u32,
    channel_id: u32,
    identity: Seq<char>,
) -> bool {
    match admission {
        Admission::Reply { replies } => step matches OpenStep::Reply { replies: r }
            && crate::message::same_replies(r, replies),
        Admission::Admit { payout, mode, outputs } => step matches OpenStep::Create {
            ticket,
            prefix,
            outputs: o,
        } && {
            &&& ticket.request_id == request_id
            &&& ticket.channel_id == channel_id
            &&& ticket.user_identity@ == identity
            &&& names_of(ticket.payout) == payout
            &&& ticket.mode@ == mode
            &&& crate::work::outputs_of(o@) == outputs
            &&& ticket.wf()
            &&& crate::work::total_value(outputs) <= u64::MAX
        },
    }
}

impl OpenTicket {
    /// Whether the mode of the ticket is one that an identity can have.
    pub open spec fn wf(self) -> bool {
        self.mode matches PayoutMode::Donate { percentage, script } ==> percentage <= 100
    }
}

/// Whether a connection has used up the id of a channel and taken note of its mode.
pub open spec fn is_numbered(
    before: Downstream,
    after: Downstream,
    mode: crate::identity::Mode,
) -> bool {
    &&& after.next_channel_id == if before.next_channel_id == u32::MAX {
        0
    } else {
        (before.next_channel_id + 1) as u32
    }
    &&& after.payout_mode is Some && after.payout_mode->0@ == mode
    &&& same_channels(after, before)
}

/// Whether a connection has taken note of the mode of a channel, and no more.
pub open spec fn is_noted(
    before: Downstream,
    after: Downstream,
    mode: crate::identity::Mode,
) -> bool {
    &&& after.next_channel_id == before.next_channel_id
    &&& after.payout_mode is Some && after.payout_mode->0@ == mode
    &&& same_channels(after, before)
}

/// Whether all but the numbering of channels and the payout mode is the same in two states of a
/// connection.
pub open spec fn same_channels(a: Downstream, b: Downstream) -> bool {
    &&& a.downstream_id == b.downstream_id
    &&& a.requires_custom_work == b.requires_custom_work
    &&& a.requires_standard_jobs == b.requires_standard_jobs
    &&& a.negotiated_extensions == b.negotiated_extensions
    &&& a.group_channel == b.group_channel
    &&& a.standard_channels == b.standard_channels
    &&& a.extended_channels == b.extended_channels
    &&& a.last_job_ids == b.last_job_ids
}

/// What asking for a standard channel at a time does. If no extranonce prefix is left for a channel
/// that was let in, the pool ends.
pub open spec fn standard_asked(
    m: ChannelManager,
    before: Downstream,
    after: Downstream,
    request: OpenRequest,
    now: u64,
    step: OpenStep,
) -> bool {
    let identity = crate::identity::identity_of(request.user_identity@);
    let admission = standard_admission(m, before, request.request_id, identity, now);
    match admission {
        Admission::Reply { replies } => after == before && follows(
            step,
            admission,
            request.request_id,
            before.next_channel_id,
            identity,
        ),
        Admission::Admit { payout, mode, outputs } => {
            ||| {
                &&& is_numbered(before, after, mode)
                &&& follows(
                    step,
                    admission,
                    request.request_id,
                    before.next_channel_id,
                    identity,
                )
            }
            ||| {
                &&& is_noted(before, after, mode)
                &&& step matches OpenStep::Reply {
                    replies: Err(
                        PoolError::Shutdown { kind: PoolErrorKind::Extranonce { message } },
                    ),
                }
            }
        },
    }
}

/// What asking for an extended channel does. `allocated` tells whether there is an extranonce
/// prefix for it.
pub open spec fn extended_asked(
    m: ChannelManager,
    before: Downstream,
    after: Downstream,
    request: OpenRequest,
    allocated: bool,
    step: OpenStep,
) -> bool {
    let identity = crate::identity::identity_of(request.user_identity@);
    let admission = extended_admission(m, before, request.request_id, identity, allocated);
    &&& follows(step, admission, request.request_id, before.next_channel_id, identity)
    &&& match admission {
        Admission::Reply { replies } => after == before,
        Admission::Admit { payout, mode, outputs } => is_numbered(before, after, mode),
    }
}

/// Whether an extranonce prefix that was taken for a standard channel is a whole extranonce.
pub open spec fn is_standard_prefix(allocator: ExtranonceAllocator, step: OpenStep) -> bool {
    step matches OpenStep::Create { ticket, prefix, outputs } ==> crate::channel::prefix_bytes(
        prefix,
    ).len() == crate::channel::allocator_total(allocator)
}

/// Whether an extranonce prefix that was taken for an extended channel leaves of the extranonce what
/// miners may roll.
pub open spec fn is_extended_prefix(allocator: ExtranonceAllocator, step: OpenStep) -> bool {
    step matches OpenStep::Create { ticket, prefix, outputs } ==> crate::channel::prefix_bytes(
        prefix,
    ).len() + crate::channel::allocator_rollable(allocator) == crate::channel::allocator_total(
        allocator,
    )
}

/// Whether two allocators cut extranonces alike.
pub open spec fn same_lengths(a: ExtranonceAllocator, b: ExtranonceAllocator) -> bool {
    &&& crate::channel::allocator_total(a) == crate::channel::allocator_total(b)
    &&& crate::channel::allocator_rollable(a) == crate::channel::allocator_rollable(b)
}

/// A copy of a mode.
fn copy_mode(mode: &PayoutMode) -> (copy: PayoutMode)
    ensures
        copy@ == mode@,
{
    match mode {
        PayoutMode::Solo { script } => PayoutMode::Solo {
            script: crate::template::copy_bytes(script),
        },
        PayoutMode::Donate { percentage, script } => PayoutMode::Donate {
            percentage: *percentage,
            script: crate::template::copy_bytes(script),
        },
        PayoutMode::FullDonation => PayoutMode::FullDonation,
    }
}

/// Gives a channel that was let in the next id, if there is an extranonce prefix for it.
pub fn issue_ticket(
    downstream: &mut Downstream,
    request_id: u32,
    user_identity: String,
    payout: Option<ChannelPayout>,
    mode: PayoutMode,
    outputs: Vec<TxOut>,
    prefix: Result<AllocatedExtranoncePrefix, String>,
) -> (step: OpenStep)
    ensures
        match prefix {
            Ok(taken) => {
                &&& is_numbered(*old(downstream), *final(downstream), mode@)
                &&& step == (OpenStep::Create {
                    ticket: OpenTicket {
                        request_id,
                        channel_id: old(downstream).next_channel_id,
                        user_identity,
                        payout,
                        mode,
                    },
                    prefix: taken,
                    outputs,
                })
            },
            Err(message) => {
                &&& is_noted(*old(downstream), *final(downstream), mode@)
                &&& step matches OpenStep::Reply { replies } && crate::message::same_replies(
                    replies,
                    shutdown(crate::message::ErrorKind::Extranonce { message: message@ }),
                )
            },
        },
{
    downstream.payout_mode = Some(copy_mode(&mode));
    match prefix {
        Ok(taken) => {
            let channel_id = downstream.next_channel_id;
            downstream.next_channel_id = channel_id.wrapping_add(1);
            OpenStep::Create {
                ticket: OpenTicket { request_id, channel_id, user_identity, payout, mode },
                prefix: taken,
                outputs,
            }
        },
        Err(message) => OpenStep::Reply {
            replies: Err(PoolError::Shutdown { kind: PoolErrorKind::Extranonce { message } }),
        },
    }
}

impl ChannelManager {
    /// Who is paid for a channel with an identity, and the mode of the identity; `None` for an
    /// identity that is refused.
    pub fn identify(&self, identity: &str) -> (found: Option<(Option<ChannelPayout>, PayoutMode)>)
        ensures
            match found {
                Some(f) => identified(*self, identity@) == Some((names_of(f.0), f.1@)) && (
                f.1 matches PayoutMode::Donate { percentage, script } ==> percentage <= 100),
                None => identified(*self, identity@) is None,
            },
    {
        let payout = match &self.gridpool {
            Some(client) => match client.resolve_channel(identity) {
                Ok(payout) => Some(payout),
                Err(_) => return None,
            },
            None => None,
        };
        match read_payout_mode(identity) {
            Ok(mode) => Some((payout, mode)),
            Err(PayoutModeFault::NoPayoutMode) => Some((payout, PayoutMode::FullDonation)),
            Err(PayoutModeFault::Malformed) => None,
        }
    }

    /// The outputs of a job of a channel at a time, for a block worth `total`.
    pub fn outputs_for(
        &self,
        payout: &Option<ChannelPayout>,
        mode: &PayoutMode,
        total: u64,
        now: u64,
    ) -> (outputs: Result<Vec<TxOut>, String>)
        requires
            mode matches PayoutMode::Donate { percentage, script } ==> *percentage <= 100,
        ensures
            crate::client::same_outputs(
                outputs,
                job_outputs(*self, names_of(*payout), mode@, total, now),
            ),
    {
        if let Some(client) = &self.gridpool {
            if let Some(p) = payout {
                return client.coinbase_outputs_at(p, total, now);
            }
        }
        Ok(mode.coinbase_outputs(total, &self.coinbase_reward_script))
    }

    /// Decides about a standard channel that a miner asks for at a time, and takes an extranonce
    /// prefix for it.
    pub fn open_standard_at(
        &self,
        downstream: &mut Downstream,
        allocator: &mut ExtranonceAllocator,
        request: &OpenRequest,
        now: u64,
    ) -> (step: OpenStep)
        requires
            request.user_identity@.len() <= 255,
        ensures
            standard_asked(*self, *old(downstream), *final(downstream), *request, now, step),
            standard_admission(
                *self,
                *old(downstream),
                request.request_id,
                crate::identity::identity_of(request.user_identity@),
                now,
            ) is Reply ==> *final(allocator) == *old(allocator),
            is_standard_prefix(*old(allocator), step),
            same_lengths(*final(allocator), *old(allocator)),
    {
        let id = downstream.downstream_id;
        let request_id = request.request_id;
        if downstream.requires_custom_work {
            return refuse(id, request_id, "standard-channels-not-supported-for-custom-work");
        }
        let total = match &self.last_future_template {
            Some(template) => template.coinbase_tx_value_remaining,
            None => return end_connection(id, PoolErrorKind::FutureTemplateNotPresent),
        };
        if self.last_new_prev_hash.is_none() {
            return end_connection(id, PoolErrorKind::LastNewPrevhashNotFound);
        }
        let user_identity = identity_text(&request.user_identity);
        let (payout, mode) = match self.identify(user_identity.as_str()) {
            Some(found) => found,
            None => return refuse(id, request_id, "invalid-user-identity"),
        };
        let outputs = match self.outputs_for(&payout, &mode, total, now) {
            Ok(outputs) => outputs,
            Err(message) => return end_connection(id, PoolErrorKind::Configuration { message }),
        };
        proof {
            job_outputs_spend_the_total(*self, names_of(payout), mode@, total, now);
        }
        let prefix = allocate_standard(allocator);
        issue_ticket(downstream, request_id, user_identity, payout, mode, outputs, prefix)
    }

    /// Decides about a standard channel that a miner asks for, at the time that the clock shows,
    /// and takes an extranonce prefix for it.
    pub fn open_standard(
        &self,
        downstream: &mut Downstream,
        allocator: &mut ExtranonceAllocator,
        request: &OpenRequest,
    ) -> (step: OpenStep)
        requires
            request.user_identity@.len() <= 255,
        ensures
            exists|reading: std::time::SystemTime|
                {
                    let now = crate::clock::seconds_of(#[trigger] crate::clock::elapsed_at(reading));
                    &&& standard_asked(
                        *self,
                        *old(downstream),
                        *final(downstream),
                        *request,
                        now,
                        step,
                    )
                    &&& standard_admission(
                        *self,
                        *old(downstream),
                        request.request_id,
                        crate::identity::identity_of(request.user_identity@),
                        now,
                    ) is Reply ==> *final(allocator) == *old(allocator)
                },
            is_standard_prefix(*old(allocator), step),
            same_lengths(*final(allocator), *old(allocator)),
    {
        let now = now_seconds();
        self.open_standard_at(downstream, allocator, request, now)
    }

    /// Decides about an extended channel that a miner asks for, when an extranonce prefix was taken
    /// for it as `prefix` says.
    pub fn open_extended_with(
        &self,
        downstream: &mut Downstream,
        request: &OpenRequest,
        prefix: Option<AllocatedExtranoncePrefix>,
    ) -> (step: OpenStep)
        requires
            request.user_identity@.len() <= 255,
        ensures
            extended_asked(
                *self,
                *old(downstream),
                *final(downstream),
                *request,
                prefix is Some,
                step,
            ),
            step matches OpenStep::Create { ticket, prefix: taken, outputs } ==> prefix == Some(
                taken,
            ),
    {
        let id = downstream.downstream_id;
        let request_id = request.request_id;
        if downstream.requires_standard_jobs {
            return refuse(id, request_id, "extended-channels-not-supported-for-standard-jobs");
        }
        let taken = match prefix {
            Some(taken) => taken,
            None => return refuse(id, request_id, "min-extranonce-size-too-large"),
        };
        let user_identity = identity_text(&request.user_identity);
        let (payout, mode) = match self.identify(user_identity.as_str()) {
            Some(found) => found,
            None => return refuse(id, request_id, "invalid-user-identity"),
        };
        let outputs: Vec<TxOut> = Vec::new();
        assert(crate::work::outputs_of(outputs@) =~= Seq::<crate::work::Output>::empty());
        issue_ticket(downstream, request_id, user_identity, payout, mode, outputs, Ok(taken))
    }

    /// Decides about an extended channel that a miner asks for that wants to roll at least
    /// `min_extranonce_size` bytes of the extranonce, once an extranonce prefix was taken for it, and
    /// says why none was taken. A miner that takes standard jobs only is refused before.
    pub fn open_extended(
        &self,
        downstream: &mut Downstream,
        allocator: &mut ExtranonceAllocator,
        request: &OpenRequest,
        min_extranonce_size: u16,
    ) -> (outcome: (OpenStep, Option<AllocationFault>))
        requires
            request.user_identity@.len() <= 255,
        ensures
            extended_asked(
                *self,
                *old(downstream),
                *final(downstream),
                *request,
                outcome.1 is None,
                outcome.0,
            ),
            !old(downstream).requires_standard_jobs ==> (outcome.1 == Some(
                AllocationFault::RollableTooLarge,
            ) <==> min_extranonce_size > crate::channel::allocator_rollable(*old(allocator))),
            old(downstream).requires_standard_jobs ==> outcome.1 is None && *final(allocator)
                == *old(allocator),
            is_extended_prefix(*old(allocator), outcome.0),
            same_lengths(*final(allocator), *old(allocator)),
    {
        if downstream.requires_standard_jobs {
            return (self.open_extended_with(downstream, request, None), None);
        }
        match allocate_extended(allocator, min_extranonce_size) {
            Ok(prefix) => (self.open_extended_with(downstream, request, Some(prefix)), None),
            Err(fault) => (self.open_extended_with(downstream, request, None), Some(fault)),
        }
    }
}

/// A standard channel that was told its first job, and what its miner is told.
pub type StandardOpening = Result<
    (StandardChannel<'static>, Seq<crate::message::Route>),
    crate::message::Failure,
>;

/// The message that activates the first job of a channel.
pub open spec fn activation(
    channel_id: u32,
    job_id: u32,
    tip: crate::template::Activation,
) -> crate::message::Mining {
    crate::message::Mining::SetNewPrevHash {
        channel_id,
        job_id,
        prev_hash: tip.prev_hash,
        min_ntime: tip.header_timestamp,
        nbits: tip.n_bits,
    }
}

/// What a new standard channel becomes and what its miner is told: that the channel is open, its
/// first job, and the chain tip that activates the job. The pool ends if the channel takes the
/// template or the chain tip not.
pub open spec fn standard_opening(
    channel: StandardChannel<'static>,
    downstream_id: usize,
    group: u32,
    ticket: OpenTicket,
    template: crate::template::Announcement,
    tip: crate::template::Activation,
    outputs: Seq<crate::work::Output>,
) -> StandardOpening {
    let opened = crate::message::Mining::OpenStandardMiningChannelSuccess {
        request_id: ticket.request_id,
        channel_id: ticket.channel_id,
        target: crate::channel::standard_target_of(channel),
        extranonce_prefix: crate::channel::standard_prefix_of(channel),
        group_channel_id: group,
    };
    let (offered, fault) = crate::channel::standard_with_template(
        channel,
        crate::channel::template_message(template),
        outputs,
    );
    match fault {
        Some(message) => Err(
            crate::message::Failure::Shutdown {
                kind: crate::message::ErrorKind::Channel { message },
            },
        ),
        None => {
            let job_id = crate::channel::standard_future_id_of(offered, template.template_id)->0;
            let job = crate::channel::standard_message_of(
                crate::channel::standard_future_of(offered, job_id)->0,
            );
            let (ready, failure) = crate::channel::standard_with_prev_hash(
                offered,
                crate::channel::prev_hash_message(tip),
            );
            match failure {
                Some(message) => Err(
                    crate::message::Failure::Shutdown {
                        kind: crate::message::ErrorKind::Channel { message },
                    },
                ),
                None => Ok(
                    (
                        ready,
                        crate::message::to_miner(downstream_id, opened) + crate::message::to_miner(
                            downstream_id,
                            crate::message::Mining::NewMiningJob { job },
                        ) + crate::message::to_miner(
                            downstream_id,
                            activation(ticket.channel_id, job_id, tip),
                        ),
                    ),
                ),
            }
        },
    }
}

/// The list of payouts after a channel was made.
pub open spec fn is_payout_listed(
    before: Map<u128, ChannelPayout>,
    after: Map<u128, ChannelPayout>,
    number: u128,
    payout: Option<ChannelPayout>,
) -> bool {
    match payout {
        Some(p) => after == before.insert(number, p),
        None => after == before,
    }
}

/// Whether a channel that is listed is answered with `messages`: its difficulty is adjusted from
/// now on, or the clock stands before the epoch and the pool ends.
pub open spec fn is_adjusted(
    before: Map<u128, VardiffState>,
    after: Map<u128, VardiffState>,
    number: u128,
    messages: Seq<crate::message::Route>,
    replies: Result<Vec<RouteMessageTo>, PoolError>,
) -> bool {
    ||| {
        &&& crate::message::same_replies(replies, Ok(messages))
        &&& after == before.insert(number, after[number])
        &&& crate::channel::vardiff_shares(after[number]) == 0
    }
    ||| {
        &&& crate::message::same_replies(replies, shutdown(crate::message::ErrorKind::Vardiff))
        &&& after == before
    }
}

/// What becomes of the group of a connection that a channel may enter, and whether it fits.
pub open spec fn is_grouped(before: Downstream, after: Downstream, channel_id: u32) -> bool {
    &&& crate::channel::group_members(after.group_channel) == crate::channel::group_members(
        before.group_channel,
    ).insert(channel_id)
    &&& crate::manager::same_group(after, before)
}

/// What listing a standard channel does, when it was made as `made` says.
pub open spec fn standard_listed(
    m: ChannelManager,
    d: Downstream,
    m_after: ChannelManager,
    d_after: Downstream,
    ticket: OpenTicket,
    outputs: Seq<crate::work::Output>,
    made: Result<StandardChannel<'static>, OpenFault>,
    replies: Result<Vec<RouteMessageTo>, PoolError>,
) -> bool {
    let id = d.downstream_id;
    let number = crate::manager::slot(id, ticket.channel_id);
    match made {
        Err(OpenFault::Refused { code }) => {
            &&& m_after == m
            &&& d_after == d
            &&& crate::message::same_replies(replies, open_refusal(id, ticket.request_id, code@))
        },
        Err(OpenFault::Other { message }) => {
            &&& m_after == m
            &&& d_after == d
            &&& crate::message::same_replies(
                replies,
                disconnect(id, crate::message::ErrorKind::ChannelErrorSender),
            )
        },
        Ok(channel) => {
            let opening = standard_opening(
                channel,
                id,
                crate::channel::group_number(d.group_channel),
                ticket,
                m.last_future_template->0@,
                m.last_new_prev_hash->0@,
                outputs,
            );
            &&& crate::manager::same_but_lists(m_after, m)
            &&& is_payout_listed(
                m.gridpool_channels@,
                m_after.gridpool_channels@,
                number,
                ticket.payout,
            )
            &&& match opening {
                Err(failure) => {
                    &&& d_after == d
                    &&& m_after.vardiff == m.vardiff
                    &&& crate::message::same_replies(replies, Err(failure))
                },
                Ok((ready, messages)) => {
                    &&& d_after.standard_channels@ == d.standard_channels@.insert(
                        ticket.channel_id,
                        ready,
                    )
                    &&& d_after.extended_channels == d.extended_channels
                    &&& d_after.last_job_ids == d.last_job_ids
                    &&& crate::manager::same_but_channels(d_after, d)
                    &&& if d.requires_standard_jobs {
                        d_after.group_channel == d.group_channel
                    } else {
                        is_grouped(d, d_after, ticket.channel_id)
                    }
                    &&& if !d.requires_standard_jobs && crate::channel::standard_prefix_of(
                        channel,
                    ).len() != crate::channel::group_extranonce_size(d.group_channel) {
                        &&& crate::message::same_replies(
                            replies,
                            shutdown(crate::message::ErrorKind::Group),
                        )
                        &&& m_after.vardiff == m.vardiff
                    } else {
                        is_adjusted(m.vardiff@, m_after.vardiff@, number, messages, replies)
                    }
                },
            }
        },
    }
}

/// Whether a standard channel mines for outputs on a chain tip: its active job pays them first.
pub open spec fn standard_mines(
    channel: StandardChannel<'static>,
    outputs: Seq<crate::work::Output>,
    tip: crate::template::Activation,
) -> bool {
    &&& crate::channel::standard_tip_of(channel) == Some(crate::channel::kept_tip(tip))
    &&& crate::channel::standard_active_of(channel) is Some
    &&& crate::channel::starts_with(
        crate::channel::standard_fields_of(
            crate::channel::standard_active_of(channel)->0,
        ).coinbase_outputs,
        outputs,
    )
}

impl ChannelManager {
    /// Answers a miner whose channel is listed, and adjusts the difficulty of the channel from now
    /// on. Without a `state` to start from the pool ends.
    pub fn start_adjusting(
        &mut self,
        number: u128,
        state: Option<VardiffState>,
        messages: Vec<RouteMessageTo>,
    ) -> (replies: Result<Vec<RouteMessageTo>, PoolError>)
        ensures
            match state {
                Some(s) => {
                    &&& replies == Ok::<Vec<RouteMessageTo>, PoolError>(messages)
                    &&& final(self).vardiff@ == old(self).vardiff@.insert(number, s)
                },
                None => {
                    &&& crate::message::same_replies(
                        replies,
                        shutdown(crate::message::ErrorKind::Vardiff),
                    )
                    &&& final(self).vardiff == old(self).vardiff
                },
            },
            final(self).gridpool_channels == old(self).gridpool_channels,
            crate::manager::same_but_lists(*final(self), *old(self)),
    {
        match state {
            Some(state) => {
                self.vardiff.insert(number, state);
                Ok(messages)
            },
            None => Err(PoolError::Shutdown { kind: PoolErrorKind::Vardiff }),
        }
    }

    /// Lists a standard channel that was let in, when it was made as `made` says, tells it its
    /// first job, and answers its miner. A channel that was made has an id left for a job, as one
    /// that is new has.
    pub fn finish_open_standard(
        &mut self,
        downstream: &mut Downstream,
        ticket: OpenTicket,
        outputs: &Vec<TxOut>,
        made: Result<StandardChannel<'static>, OpenFault>,
    ) -> (replies: Result<Vec<RouteMessageTo>, PoolError>)
        requires
            old(self).wf(),
            old(self).last_future_template is Some,
            old(self).last_new_prev_hash is Some,
            crate::work::total_value(crate::work::outputs_of(outputs@)) <= u64::MAX,
            made matches Ok(channel) ==> crate::channel::standard_last_job_of(channel) < u32::MAX,
        ensures
            final(self).wf(),
            old(downstream).wf() ==> final(downstream).wf(),
            standard_listed(
                *old(self),
                *old(downstream),
                *final(self),
                *final(downstream),
                ticket,
                crate::work::outputs_of(outputs@),
                made,
                replies,
            ),
            made is Ok && replies is Ok && old(self).last_new_prev_hash->0.template_id == old(
                self,
            ).last_future_template->0.template_id ==> standard_mines(
                final(downstream).standard_channels@[ticket.channel_id],
                crate::work::outputs_of(outputs@),
                old(self).last_new_prev_hash->0@,
            ),
    {
        let id = downstream.downstream_id;
        let channel_id = ticket.channel_id;
        let mut channel = match made {
            Ok(channel) => channel,
            Err(OpenFault::Refused { code }) => {
                let message = MiningMessage::OpenMiningChannelError {
                    request_id: ticket.request_id,
                    error_code: code,
                };
                return Ok(one_message(id, message));
            },
            Err(OpenFault::Other { message }) => {
                return Err(
                    PoolError::Disconnect {
                        downstream_id: id,
                        kind: PoolErrorKind::ChannelErrorSender,
                    },
                );
            },
        };
        let number = slot_of(id, channel_id);
        if let Some(payout) = ticket.payout {
            self.gridpool_channels.insert(number, payout);
        }
        let extranonce_prefix = standard_prefix(&channel);
        let prefix_size = extranonce_prefix.len();
        let mut messages = one_message(
            id,
            MiningMessage::OpenStandardMiningChannelSuccess {
                request_id: ticket.request_id,
                channel_id,
                target: standard_target(&channel),
                extranonce_prefix,
                group_channel_id: group_id(&downstream.group_channel),
            },
        );
        let template = self.last_future_template.as_ref().unwrap();
        let tip = self.last_new_prev_hash.as_ref().unwrap();
        if let Err(message) = standard_take_template(
            &mut channel,
            template,
            outside_template(template),
            outputs,
        ) {
            return Err(PoolError::Shutdown { kind: PoolErrorKind::Channel { message } });
        }
        let job_id = standard_future_id(&channel, template.template_id).unwrap();
        let job = standard_message(standard_future(&channel, job_id).unwrap());
        push_message(&mut messages, id, MiningMessage::NewMiningJob { job });
        if let Err(message) = standard_take_prev_hash(&mut channel, tip, outside_prev_hash(tip)) {
            return Err(PoolError::Shutdown { kind: PoolErrorKind::Channel { message } });
        }
        push_message(
            &mut messages,
            id,
            MiningMessage::SetNewPrevHash {
                channel_id,
                job_id,
                prev_hash: tip.prev_hash,
                min_ntime: tip.header_timestamp,
                nbits: tip.n_bits,
            },
        );
        downstream.standard_channels.insert(channel_id, channel);
        if !downstream.requires_standard_jobs {
            if !group_add(&mut downstream.group_channel, channel_id, prefix_size) {
                return Err(PoolError::Shutdown { kind: PoolErrorKind::Group });
            }
        }
        self.start_adjusting(number, new_vardiff(), messages)
    }
}

/// An extended channel that was told its first job, and what its miner is told.
pub type ExtendedOpening = Result<
    (ExtendedChannel<'static>, Seq<crate::message::Route>),
    crate::message::Failure,
>;

/// The message that an extended channel is open.
pub open spec fn extended_opened(
    channel: ExtendedChannel<'static>,
    group: u32,
    ticket: OpenTicket,
) -> crate::message::Mining {
    crate::message::Mining::OpenExtendedMiningChannelSuccess {
        request_id: ticket.request_id,
        channel_id: ticket.channel_id,
        target: crate::channel::extended_target_of(channel),
        extranonce_prefix: crate::channel::extended_prefix_of(channel),
        extranonce_size: crate::channel::extended_rollable_of(channel),
        group_channel_id: group,
    }
}

/// What a new extended channel becomes with its first job and what its miner is told: that the
/// channel is open, the job, and the chain tip that activates it.
pub open spec fn extended_opening(
    channel: ExtendedChannel<'static>,
    downstream_id: usize,
    group: u32,
    ticket: OpenTicket,
    template: crate::template::Announcement,
    tip: crate::template::Activation,
    outputs: Seq<crate::work::Output>,
) -> ExtendedOpening {
    let (offered, fault) = crate::channel::extended_with_template(
        channel,
        crate::channel::template_message(template),
        outputs,
    );
    match fault {
        Some(message) => Err(
            crate::message::Failure::Shutdown {
                kind: crate::message::ErrorKind::Channel { message },
            },
        ),
        None => {
            let job_id = crate::channel::extended_future_id_of(offered, template.template_id)->0;
            let job = crate::channel::extended_message_of(
                crate::channel::extended_future_of(offered, job_id)->0,
            );
            let (ready, failure) = crate::channel::extended_with_prev_hash(
                offered,
                crate::channel::prev_hash_message(tip),
            );
            match failure {
                Some(message) => Err(
                    crate::message::Failure::Shutdown {
                        kind: crate::message::ErrorKind::Channel { message },
                    },
                ),
                None => Ok(
                    (
                        ready,
                        crate::message::to_miner(
                            downstream_id,
                            extended_opened(channel, group, ticket),
                        ) + crate::message::to_miner(
                            downstream_id,
                            crate::message::Mining::NewExtendedMiningJob { job },
                        ) + crate::message::to_miner(
                            downstream_id,
                            activation(ticket.channel_id, job_id, tip),
                        ),
                    ),
                ),
            }
        },
    }
}

/// What a new extended channel becomes and what its miner is told at a time. The connection ends
/// without a chain tip, without a template, or if the payouts do not work out. A miner that makes
/// its own jobs is only told that the channel is open.
pub open spec fn extended_start(
    m: ChannelManager,
    d: Downstream,
    channel: ExtendedChannel<'static>,
    ticket: OpenTicket,
    now: u64,
) -> ExtendedOpening {
    let id = d.downstream_id;
    let group = crate::channel::group_number(d.group_channel);
    if m.last_new_prev_hash is None {
        Err(
            crate::message::Failure::Disconnect {
                downstream_id: id,
                kind: crate::message::ErrorKind::LastNewPrevhashNotFound,
            },
        )
    } else if m.last_future_template is None {
        Err(
            crate::message::Failure::Disconnect {
                downstream_id: id,
                kind: crate::message::ErrorKind::FutureTemplateNotPresent,
            },
        )
    } else {
        let tip = m.last_new_prev_hash->0@;
        let template = m.last_future_template->0@;
        if d.requires_custom_work {
            let (ready, failure) = crate::channel::extended_with_prev_hash(
                channel,
                crate::channel::prev_hash_message(tip),
            );
            match failure {
                Some(message) => Err(
                    crate::message::Failure::Shutdown {
                        kind: crate::message::ErrorKind::Channel { message },
                    },
                ),
                None => Ok(
                    (
                        ready,
                        crate::message::to_miner(id, extended_opened(channel, group, ticket)),
                    ),
                ),
            }
        } else {
            match job_outputs(
                m,
                names_of(ticket.payout),
                ticket.mode@,
                template.coinbase_tx_value_remaining,
                now,
            ) {
                Err(message) => Err(
                    crate::message::Failure::Disconnect {
                        downstream_id: id,
                        kind: crate::message::ErrorKind::Configuration { message },
                    },
                ),
                Ok(outputs) => extended_opening(
                    channel,
                    id,
                    group,
                    ticket,
                    template,
                    tip,
                    outputs,
                ),
            }
        }
    }
}

/// What listing an extended channel at a time does, when it was made as `made` says.
pub open spec fn extended_listed(
    m: ChannelManager,
    d: Downstream,
    m_after: ChannelManager,
    d_after: Downstream,
    ticket: OpenTicket,
    made: Result<ExtendedChannel<'static>, OpenFault>,
    now: u64,
    replies: Result<Vec<RouteMessageTo>, PoolError>,
) -> bool {
    let id = d.downstream_id;
    let number = crate::manager::slot(id, ticket.channel_id);
    match made {
        Err(OpenFault::Refused { code }) => {
            &&& m_after == m
            &&& d_after == d
            &&& crate::message::same_replies(replies, open_refusal(id, ticket.request_id, code@))
        },
        Err(OpenFault::Other { message }) => {
            &&& m_after == m
            &&& d_after == d
            &&& crate::message::same_replies(
                replies,
                disconnect(id, crate::message::ErrorKind::Channel { message: message@ }),
            )
        },
        Ok(channel) => {
            &&& crate::manager::same_but_lists(m_after, m)
            &&& is_payout_listed(
                m.gridpool_channels@,
                m_after.gridpool_channels@,
                number,
                ticket.payout,
            )
            &&& match extended_start(m, d, channel, ticket, now) {
                Err(failure) => {
                    &&& d_after == d
                    &&& m_after.vardiff == m.vardiff
                    &&& crate::message::same_replies(replies, Err(failure))
                },
                Ok((ready, messages)) => {
                    let fits = d.requires_custom_work || crate::channel::extended_prefix_of(
                        ready,
                    ).len() + crate::channel::extended_rollable_of(ready)
                        == crate::channel::group_extranonce_size(d.group_channel);
                    &&& d_after.standard_channels == d.standard_channels
                    &&& crate::manager::same_but_channels(d_after, d)
                    &&& if d.requires_custom_work {
                        d_after.group_channel == d.group_channel
                    } else {
                        is_grouped(d, d_after, ticket.channel_id)
                    }
                    &&& if fits {
                        &&& d_after.extended_channels@ == d.extended_channels@.insert(
                            ticket.channel_id,
                            ready,
                        )
                        &&& d_after.last_job_ids@ == d.last_job_ids@.insert(
                            ticket.channel_id,
                            if d.requires_custom_work {
                                0
                            } else {
                                1
                            },
                        )
                        &&& is_adjusted(m.vardiff@, m_after.vardiff@, number, messages, replies)
                    } else {
                        &&& d_after.extended_channels == d.extended_channels
                        &&& d_after.last_job_ids == d.last_job_ids
                        &&& m_after.vardiff == m.vardiff
                        &&& crate::message::same_replies(
                            replies,
                            shutdown(crate::message::ErrorKind::Group),
                        )
                    }
                },
            }
        },
    }
}

/// Whether an extended channel mines for outputs on a chain tip: its active job pays them first.
pub open spec fn extended_mines(
    channel: ExtendedChannel<'static>,
    outputs: Seq<crate::work::Output>,
    tip: crate::template::Activation,
) -> bool {
    &&& crate::channel::extended_tip_of(channel) == Some(crate::channel::kept_tip(tip))
    &&& crate::channel::extended_active_of(channel) is Some
    &&& crate::channel::starts_with(
        crate::channel::extended_fields_of(
            crate::channel::extended_active_of(channel)->0,
        ).coinbase_outputs,
        outputs,
    )
}

/// Whether an extended channel of a miner that does not make its own jobs mines, once it is
/// opened at a time, for the outputs of the channel, if the last template and the last chain tip
/// belong together.
pub open spec fn extended_pays(
    m: ChannelManager,
    d: Downstream,
    d_after: Downstream,
    ticket: OpenTicket,
    made: Result<ExtendedChannel<'static>, OpenFault>,
    now: u64,
    replies: Result<Vec<RouteMessageTo>, PoolError>,
) -> bool {
    made is Ok && replies is Ok && !d.requires_custom_work && m.last_new_prev_hash->0.template_id
        == m.last_future_template->0.template_id ==> {
        let outputs = job_outputs(
            m,
            names_of(ticket.payout),
            ticket.mode@,
            m.last_future_template->0.coinbase_tx_value_remaining,
            now,
        );
        &&& outputs is Ok
        &&& extended_mines(
            d_after.extended_channels@[ticket.channel_id],
            outputs->Ok_0,
            m.last_new_prev_hash->0@,
        )
    }
}

impl ChannelManager {
    /// Lists an extended channel that was let in, at a time and when it was made as `made` says,
    /// tells it its first job, and answers its miner. A channel that was made is new: it made no job
    /// yet.
    pub fn finish_open_extended_at(
        &mut self,
        downstream: &mut Downstream,
        ticket: OpenTicket,
        made: Result<ExtendedChannel<'static>, OpenFault>,
        now: u64,
    ) -> (replies: Result<Vec<RouteMessageTo>, PoolError>)
        requires
            old(self).wf(),
            ticket.wf(),
            made matches Ok(channel) ==> crate::channel::extended_last_job_of(channel) == 0,
        ensures
            final(self).wf(),
            old(downstream).wf() ==> final(downstream).wf(),
            extended_listed(
                *old(self),
                *old(downstream),
                *final(self),
                *final(downstream),
                ticket,
                made,
                now,
                replies,
            ),
            extended_pays(
                *old(self),
                *old(downstream),
                *final(downstream),
                ticket,
                made,
                now,
                replies,
            ),
    {
        let id = downstream.downstream_id;
        let channel_id = ticket.channel_id;
        let mut channel = match made {
            Ok(channel) => channel,
            Err(OpenFault::Refused { code }) => {
                let message = MiningMessage::OpenMiningChannelError {
                    request_id: ticket.request_id,
                    error_code: code,
                };
                return Ok(one_message(id, message));
            },
            Err(OpenFault::Other { message }) => {
                return Err(
                    PoolError::Disconnect {
                        downstream_id: id,
                        kind: PoolErrorKind::Channel { message },
                    },
                );
            },
        };
        let ghost fresh = channel;
        let ghost before = *self;
        let outputs = match &self.last_future_template {
            Some(template) => self.outputs_for(
                &ticket.payout,
                &ticket.mode,
                template.coinbase_tx_value_remaining,
                now,
            ),
            None => Err(String::new()),
        };
        let number = slot_of(id, channel_id);
        if let Some(payout) = ticket.payout {
            self.gridpool_channels.insert(number, payout);
        }
        let mut messages = one_message(
            id,
            MiningMessage::OpenExtendedMiningChannelSuccess {
                request_id: ticket.request_id,
                channel_id,
                target: extended_target(&channel),
                extranonce_prefix: extended_prefix(&channel),
                extranonce_size: extended_rollable(&channel),
                group_channel_id: group_id(&downstream.group_channel),
            },
        );
        let tip = match &self.last_new_prev_hash {
            Some(tip) => tip,
            None => {
                return Err(
                    PoolError::Disconnect {
                        downstream_id: id,
                        kind: PoolErrorKind::LastNewPrevhashNotFound,
                    },
                );
            },
        };
        let template = match &self.last_future_template {
            Some(template) => template,
            None => {
                return Err(
                    PoolError::Disconnect {
                        downstream_id: id,
                        kind: PoolErrorKind::FutureTemplateNotPresent,
                    },
                );
            },
        };
        if downstream.requires_custom_work {
            if let Err(message) = extended_take_prev_hash(&mut channel, tip, outside_prev_hash(tip)) {
                return Err(PoolError::Shutdown { kind: PoolErrorKind::Channel { message } });
            }
        } else {
            proof {
                job_outputs_spend_the_total(
                    before,
                    names_of(ticket.payout),
                    ticket.mode@,
                    template.coinbase_tx_value_remaining,
                    now,
                );
            }
            let outputs = match outputs {
                Ok(outputs) => outputs,
                Err(message) => {
                    return Err(
                        PoolError::Disconnect {
                            downstream_id: id,
                            kind: PoolErrorKind::Configuration { message },
                        },
                    );
                },
            };
            if let Err(message) = extended_take_template(
                &mut channel,
                template,
                outside_template(template),
                &outputs,
            ) {
                return Err(PoolError::Shutdown { kind: PoolErrorKind::Channel { message } });
            }
            let job_id = extended_future_id(&channel, template.template_id).unwrap();
            let job = extended_message(extended_future(&channel, job_id).unwrap());
            push_message(&mut messages, id, MiningMessage::NewExtendedMiningJob { job });
            if let Err(message) = extended_take_prev_hash(&mut channel, tip, outside_prev_hash(tip)) {
                return Err(PoolError::Shutdown { kind: PoolErrorKind::Channel { message } });
            }
            push_message(
                &mut messages,
                id,
                MiningMessage::SetNewPrevHash {
                    channel_id,
                    job_id,
                    prev_hash: tip.prev_hash,
                    min_ntime: tip.header_timestamp,
                    nbits: tip.n_bits,
                },
            );
            let full_size = extended_full_size(&channel);
            if !group_add(&mut downstream.group_channel, channel_id, full_size) {
                return Err(PoolError::Shutdown { kind: PoolErrorKind::Group });
            }
        }
        downstream.extended_channels.insert(channel_id, channel);
        let last_job_id: u32 = if downstream.requires_custom_work {
            0
        } else {
            1
        };
        downstream.last_job_ids.insert(channel_id, last_job_id);
        self.start_adjusting(number, new_vardiff(), messages)
    }

    /// Lists an extended channel that was let in, at the time that the clock shows and when it was
    /// made as `made` says, tells it its first job, and answers its miner. A channel that was made is
    /// new: it made no job yet.
    pub fn finish_open_extended(
        &mut self,
        downstream: &mut Downstream,
        ticket: OpenTicket,
        made: Result<ExtendedChannel<'static>, OpenFault>,
    ) -> (replies: Result<Vec<RouteMessageTo>, PoolError>)
        requires
            old(self).wf(),
            ticket.wf(),
            made matches Ok(channel) ==> crate::channel::extended_last_job_of(channel) == 0,
        ensures
            final(self).wf(),
            old(downstream).wf() ==> final(downstream).wf(),
            exists|reading: std::time::SystemTime|
                {
                    let now = crate::clock::seconds_of(#[trigger] crate::clock::elapsed_at(reading));
                    &&& extended_listed(
                        *old(self),
                        *old(downstream),
                        *final(self),
                        *final(downstream),
                        ticket,
                        made,
                        now,
                        replies,
                    )
                    &&& extended_pays(
                        *old(self),
                        *old(downstream),
                        *final(downstream),
                        ticket,
                        made,
                        now,
                        replies,
                    )
                },
    {
        let now = now_seconds();
        self.finish_open_extended_at(downstream, ticket, made, now)
    }
}

/// A channel that was opened is known: its shares are judged, until it is closed.
pub proof fn opened_standard_channels_take_shares(
    m: ChannelManager,
    d: Downstream,
    m_after: ChannelManager,
    d_after: Downstream,
    ticket: OpenTicket,
    outputs: Seq<crate::work::Output>,
    made: Result<StandardChannel<'static>, OpenFault>,
    replies: Result<Vec<RouteMessageTo>, PoolError>,
)
    requires
        standard_listed(m, d, m_after, d_after, ticket, outputs, made, replies),
        made is Ok,
        replies is Ok,
    ensures
        d_after.standard_channels@.contains_key(ticket.channel_id),
        m_after.vardiff@.contains_key(
            crate::manager::slot(d_after.downstream_id, ticket.channel_id),
        ),
        ticket.payout is Some ==> m_after.gridpool_channels@.contains_key(
            crate::manager::slot(d_after.downstream_id, ticket.channel_id),
        ),
{
}

/// A channel that was opened is known: its shares are judged, until it is closed.
pub proof fn opened_extended_channels_take_shares(
    m: ChannelManager,
    d: Downstream,
    m_after: ChannelManager,
    d_after: Downstream,
    ticket: OpenTicket,
    made: Result<ExtendedChannel<'static>, OpenFault>,
    now: u64,
    replies: Result<Vec<RouteMessageTo>, PoolError>,
)
    requires
        extended_listed(m, d, m_after, d_after, ticket, made, now, replies),
        made is Ok,
        replies is Ok,
    ensures
        d_after.extended_channels@.contains_key(ticket.channel_id),
        m_after.vardiff@.contains_key(
            crate::manager::slot(d_after.downstream_id, ticket.channel_id),
        ),
        ticket.payout is Some ==> m_after.gridpool_channels@.contains_key(
            crate::manager::slot(d_after.downstream_id, ticket.channel_id),
        ),
{
}

/// Whether a channel that is opened and closed again left no trace in a manager and a connection.
pub open spec fn is_restored(
    m: ChannelManager,
    d: Downstream,
    m_after: ChannelManager,
    d_after: Downstream,
) -> bool {
    &&& d_after.standard_channels@ == d.standard_channels@
    &&& d_after.extended_channels@ == d.extended_channels@
    &&& d_after.last_job_ids@ == d.last_job_ids@
    &&& crate::channel::group_members(d_after.group_channel) == crate::channel::group_members(
        d.group_channel,
    )
    &&& crate::manager::same_group(d_after, d)
    &&& crate::manager::same_but_channels(d_after, d)
    &&& m_after.vardiff@ == m.vardiff@
    &&& m_after.gridpool_channels@ == m.gridpool_channels@
    &&& crate::manager::same_but_lists(m_after, m)
}

/// Closing a standard channel undoes its opening, whatever came of the opening.
pub proof fn closing_undoes_opening_standard(
    m: ChannelManager,
    d: Downstream,
    m_open: ChannelManager,
    d_open: Downstream,
    m_after: ChannelManager,
    d_after: Downstream,
    ticket: OpenTicket,
    outputs: Seq<crate::work::Output>,
    made: Result<StandardChannel<'static>, OpenFault>,
    replies: Result<Vec<RouteMessageTo>, PoolError>,
)
    requires
        crate::manager::is_forgotten(m, d, ticket.channel_id),
        standard_listed(m, d, m_open, d_open, ticket, outputs, made, replies),
        crate::manager::channel_closed(m_open, d_open, m_after, d_after, ticket.channel_id),
    ensures
        is_restored(m, d, m_after, d_after),
{
    assert(d_after.standard_channels@ =~= d.standard_channels@);
    assert(d_after.extended_channels@ =~= d.extended_channels@);
    assert(d_after.last_job_ids@ =~= d.last_job_ids@);
    assert(crate::channel::group_members(d_after.group_channel) =~= crate::channel::group_members(
        d.group_channel,
    ));
    assert(m_after.vardiff@ =~= m.vardiff@);
    assert(m_after.gridpool_channels@ =~= m.gridpool_channels@);
}

/// Closing an extended channel undoes its opening, whatever came of the opening.
pub proof fn closing_undoes_opening_extended(
    m: ChannelManager,
    d: Downstream,
    m_open: ChannelManager,
    d_open: Downstream,
    m_after: ChannelManager,
    d_after: Downstream,
    ticket: OpenTicket,
    made: Result<ExtendedChannel<'static>, OpenFault>,
    now: u64,
    replies: Result<Vec<RouteMessageTo>, PoolError>,
)
    requires
        crate::manager::is_forgotten(m, d, ticket.channel_id),
        extended_listed(m, d, m_open, d_open, ticket, made, now, replies),
        crate::manager::channel_closed(m_open, d_open, m_after, d_after, ticket.channel_id),
    ensures
        is_restored(m, d, m_after, d_after),
{
    assert(d_after.standard_channels@ =~= d.standard_channels@);
    assert(d_after.extended_channels@ =~= d.extended_channels@);
    assert(d_after.last_job_ids@ =~= d.last_job_ids@);
    assert(crate::channel::group_members(d_after.group_channel) =~= crate::channel::group_members(
        d.group_channel,
    ));
    assert(m_after.vardiff@ =~= m.vardiff@);
    assert(m_after.gridpool_channels@ =~= m.gridpool_channels@);
}

/// An identity is let in unless it says something malformed about payouts or, with a GridPool node
/// attached, is meant as an address that cannot be paid. The node pays the address that the
/// identity names, if it can be paid, and its fallback otherwise. The mode is what the identity
/// says, and a full donation if it says nothing.
pub proof fn identities_say_who_is_paid(m: ChannelManager, identity: Seq<char>)
    ensures
        ({
            let found = identified(m, identity);
            let said = crate::identity::payout_mode_of(identity);
            let explicit = crate::client::explicit_part(crate::text::trimmed(identity));
            let client = m.gridpool->0;
            let script = crate::address::payout_script(explicit, client.work.bitcoin_network@);
            let refused = m.gridpool is Some && script is Err && crate::address::is_address_like(
                explicit,
            );
            &&& found is None <==> refused || said == crate::identity::ModeOutcome::Err(
                PayoutModeFault::Malformed,
            )
            &&& found is Some ==> {
                &&& said is Ok ==> (found->0).1 == said->Ok_0
                &&& said is Err ==> (found->0).1 == crate::identity::Mode::FullDonation
                &&& m.gridpool is None ==> (found->0).0 is None
                &&& m.gridpool is Some ==> (found->0).0 is Some
                &&& m.gridpool is Some && script is Ok ==> ((found->0).0->0).0 == explicit
                &&& m.gridpool is Some && script is Err ==> ((found->0).0->0).0
                    == client.config.fallback_payout_address@
            }
        }),
{
}

/// Without a GridPool node a job pays as the mode of its channel says, to the pool's own script
/// where the pool is paid. With one, the outputs are those of the node, and the mode makes no
/// difference.
pub proof fn jobs_pay_by_the_node_or_by_the_mode(
    m: ChannelManager,
    payout: Option<ChannelPayout>,
    mode: PayoutMode,
    other: PayoutMode,
    total: u64,
    now: u64,
    outputs: Result<Vec<TxOut>, String>,
)
    requires
        mode matches PayoutMode::Donate { percentage, script } ==> percentage <= 100,
        call_ensures(ChannelManager::outputs_for, (&m, &payout, &mode, total, now), outputs),
    ensures
        m.gridpool is None || payout is None ==> {
            let list = outputs->Ok_0@;
            &&& outputs is Ok
            &&& mode matches PayoutMode::Solo { script } ==> list.len() == 1 && list[0].value
                == total && list[0].script_pubkey@ == script@
            &&& mode is FullDonation ==> list.len() == 1 && list[0].value == total
                && list[0].script_pubkey@ == m.coinbase_reward_script@
            &&& mode matches PayoutMode::Donate { percentage, script } ==> {
                &&& list.len() == 2
                &&& 100 * list[0].value <= total * percentage < 100 * (list[0].value + 1)
                &&& list[0].value + list[1].value == total
                &&& list[0].script_pubkey@ == m.coinbase_reward_script@
                &&& list[1].script_pubkey@ == script@
            }
        },
        m.gridpool is Some && payout is Some ==> {
            let names = names_of(payout);
            &&& crate::client::same_outputs(outputs, job_outputs(m, names, other@, total, now))
            &&& job_outputs(m, names, mode@, total, now) == job_outputs(
                m,
                names,
                other@,
                total,
                now,
            )
            &&& job_outputs(m, names, mode@, total, now) == m.gridpool->0.outputs_at(
                payout->0.payout_address@,
                total as int,
                now as int,
            )
        },
{
    if m.gridpool is None || payout is None {
        crate::identity::modes_pay_whom_they_say(
            mode,
            total,
            m.coinbase_reward_script@,
            outputs->Ok_0@,
        );
    }
}

/// Whether replies are the one message to a miner that its channel is not opened, with a code.
pub open spec fn tells_refusal(
    replies: Result<Vec<RouteMessageTo>, PoolError>,
    downstream_id: usize,
    request_id: u32,
    code: Seq<char>,
) -> bool {
    let list = replies->Ok_0@;
    let message = list[0]->message;
    &&& replies is Ok
    &&& list.len() == 1
    &&& list[0] is Downstream
    &&& list[0]->downstream_id == downstream_id
    &&& message is OpenMiningChannelError
    &&& message->OpenMiningChannelError_request_id == request_id
    &&& message->OpenMiningChannelError_error_code@ == code
}

/// Replies that refuse a channel are one message that says so.
proof fn lemma_refusal(
    replies: Result<Vec<RouteMessageTo>, PoolError>,
    downstream_id: usize,
    request_id: u32,
    code: Seq<char>,
)
    requires
        crate::message::same_replies(replies, open_refusal(downstream_id, request_id, code)),
    ensures
        tells_refusal(replies, downstream_id, request_id, code),
{
    let list = replies->Ok_0@;
    let views = crate::message::routes(list);
    assert(views.len() == list.len());
    assert(views[0] == list[0]@);
}

/// Who asks for a standard channel is answered with the first thing that is in its way: that it
/// makes its own jobs, that there is no template, that there is no chain tip, that its identity is
/// refused, or that the payouts do not work out. Then nothing changes. Otherwise the channel gets the
/// next id, which no later channel gets before the ids are used up, or the pool ends because no
/// extranonce prefix is left.
pub proof fn standard_channels_are_let_in_or_turned_away(
    m: ChannelManager,
    before: Downstream,
    after: Downstream,
    request: OpenRequest,
    now: u64,
    step: OpenStep,
)
    requires
        standard_asked(m, before, after, request, now, step),
    ensures
        ({
            let identity = crate::identity::identity_of(request.user_identity@);
            let id = before.downstream_id;
            let found = identified(m, identity);
            let replies = step->replies;
            let custom = before.requires_custom_work;
            let no_template = m.last_future_template is None;
            let no_tip = m.last_new_prev_hash is None;
            let outputs = job_outputs(
                m,
                (found->0).0,
                (found->0).1,
                m.last_future_template->0.coinbase_tx_value_remaining,
                now,
            );
            let turned_away = custom || no_template || no_tip || found is None || outputs is Err;
            &&& turned_away ==> step is Reply && after == before
            &&& custom ==> tells_refusal(
                replies,
                id,
                request.request_id,
                "standard-channels-not-supported-for-custom-work"@,
            )
            &&& !custom && no_template ==> replies == Err::<Vec<RouteMessageTo>, PoolError>(
                PoolError::Disconnect {
                    downstream_id: id,
                    kind: PoolErrorKind::FutureTemplateNotPresent,
                },
            )
            &&& !custom && !no_template && no_tip ==> replies == Err::<
                Vec<RouteMessageTo>,
                PoolError,
            >(
                PoolError::Disconnect {
                    downstream_id: id,
                    kind: PoolErrorKind::LastNewPrevhashNotFound,
                },
            )
            &&& !custom && !no_template && !no_tip && found is None ==> tells_refusal(
                replies,
                id,
                request.request_id,
                "invalid-user-identity"@,
            )
            &&& !custom && !no_template && !no_tip && found is Some && outputs is Err ==> {
                &&& replies is Err
                &&& replies->Err_0 is Disconnect
                &&& replies->Err_0->downstream_id == id
                &&& replies->Err_0->Disconnect_kind is Configuration
                &&& replies->Err_0->Disconnect_kind->Configuration_message@ == outputs->Err_0
            }
            &&& !turned_away && step is Create ==> {
                let ticket = step->ticket;
                &&& ticket.request_id == request.request_id
                &&& ticket.channel_id == before.next_channel_id
                &&& ticket.user_identity@ == identity
                &&& names_of(ticket.payout) == (found->0).0
                &&& ticket.mode@ == (found->0).1
                &&& crate::work::outputs_of(step->outputs@) == outputs->Ok_0
                &&& before.next_channel_id < u32::MAX ==> after.next_channel_id
                    == before.next_channel_id + 1
                &&& before.next_channel_id == u32::MAX ==> after.next_channel_id == 0
            }
            &&& !turned_away && step is Reply ==> {
                &&& replies is Err
                &&& replies->Err_0 is Shutdown
                &&& replies->Err_0->Shutdown_kind is Extranonce
                &&& after.next_channel_id == before.next_channel_id
            }
            &&& !turned_away ==> after.payout_mode is Some && after.payout_mode->0@ == (found->0).1
            &&& after.standard_channels == before.standard_channels
            &&& after.extended_channels == before.extended_channels
            &&& after.group_channel == before.group_channel
            &&& after.last_job_ids == before.last_job_ids
            &&& after.downstream_id == before.downstream_id
        }),
{
    let identity = crate::identity::identity_of(request.user_identity@);
    let id = before.downstream_id;
    if before.requires_custom_work {
        lemma_refusal(
            step->replies,
            id,
            request.request_id,
            "standard-channels-not-supported-for-custom-work"@,
        );
    } else if m.last_future_template is Some && m.last_new_prev_hash is Some && identified(
        m,
        identity,
    ) is None {
        lemma_refusal(step->replies, id, request.request_id, "invalid-user-identity"@);
    }
}

/// Who asks for an extended channel is answered with the first thing that is in its way: that it
/// takes standard jobs only, that there is no extranonce prefix, or that its identity is refused.
/// Then nothing changes. Otherwise the channel gets the next id.
pub proof fn extended_channels_are_let_in_or_turned_away(
    m: ChannelManager,
    before: Downstream,
    after: Downstream,
    request: OpenRequest,
    allocated: bool,
    step: OpenStep,
)
    requires
        extended_asked(m, before, after, request, allocated, step),
    ensures
        ({
            let identity = crate::identity::identity_of(request.user_identity@);
            let id = before.downstream_id;
            let found = identified(m, identity);
            let replies = step->replies;
            let standard = before.requires_standard_jobs;
            let turned_away = standard || !allocated || found is None;
            &&& turned_away <==> step is Reply
            &&& turned_away ==> after == before
            &&& standard ==> tells_refusal(
                replies,
                id,
                request.request_id,
                "extended-channels-not-supported-for-standard-jobs"@,
            )
            &&& !standard && !allocated ==> tells_refusal(
                replies,
                id,
                request.request_id,
                "min-extranonce-size-too-large"@,
            )
            &&& !standard && allocated && found is None ==> tells_refusal(
                replies,
                id,
                request.request_id,
                "invalid-user-identity"@,
            )
            &&& !turned_away ==> {
                let ticket = step->ticket;
                &&& ticket.request_id == request.request_id
                &&& ticket.channel_id == before.next_channel_id
                &&& ticket.user_identity@ == identity
                &&& names_of(ticket.payout) == (found->0).0
                &&& ticket.mode@ == (found->0).1
                &&& before.next_channel_id < u32::MAX ==> after.next_channel_id
                    == before.next_channel_id + 1
                &&& before.next_channel_id == u32::MAX ==> after.next_channel_id == 0
                &&& after.payout_mode is Some
                &&& after.payout_mode->0@ == (found->0).1
            }
            &&& after.standard_channels == before.standard_channels
            &&& after.extended_channels == before.extended_channels
            &&& after.group_channel == before.group_channel
            &&& after.last_job_ids == before.last_job_ids
            &&& after.downstream_id == before.downstream_id
        }),
{
    let identity = crate::identity::identity_of(request.user_identity@);
    let id = before.downstream_id;
    if before.requires_standard_jobs {
        lemma_refusal(
            step->replies,
            id,
            request.request_id,
            "extended-channels-not-supported-for-standard-jobs"@,
        );
    } else if !allocated {
        lemma_refusal(step->replies, id, request.request_id, "min-extranonce-size-too-large"@);
    } else if identified(m, identity) is None {
        lemma_refusal(step->replies, id, request.request_id, "invalid-user-identity"@);
    }
}

/// The miner of a standard channel that was opened is told three things, in this order: that the channel
/// is open, with its target and its extranonce, the first job, and the chain tip that activates the
/// job.
pub proof fn miners_of_standard_channels_are_told_their_first_job(
    m: ChannelManager,
    d: Downstream,
    m_after: ChannelManager,
    d_after: Downstream,
    ticket: OpenTicket,
    outputs: Seq<crate::work::Output>,
    made: Result<StandardChannel<'static>, OpenFault>,
    replies: Result<Vec<RouteMessageTo>, PoolError>,
)
    requires
        standard_listed(m, d, m_after, d_after, ticket, outputs, made, replies),
        made is Ok,
        replies is Ok,
    ensures
        ({
            let list = replies->Ok_0@;
            let channel = made->Ok_0;
            let opened = list[0]->message;
            let job = list[1]->message;
            let tip = list[2]->message;
            &&& list.len() == 3
            &&& forall|k: int|
                0 <= k < list.len() ==> (#[trigger] list[k]) is Downstream
                    && list[k]->downstream_id == d.downstream_id
            &&& opened is OpenStandardMiningChannelSuccess
            &&& opened->OpenStandardMiningChannelSuccess_request_id == ticket.request_id
            &&& opened->OpenStandardMiningChannelSuccess_channel_id == ticket.channel_id
            &&& opened->OpenStandardMiningChannelSuccess_target@ == crate::channel::standard_target_of(channel)
            &&& opened->OpenStandardMiningChannelSuccess_extranonce_prefix@
                == crate::channel::standard_prefix_of(channel)
            &&& opened->OpenStandardMiningChannelSuccess_group_channel_id
                == crate::channel::group_number(d.group_channel)
            &&& job is NewMiningJob
            &&& tip is SetNewPrevHash
            &&& tip->SetNewPrevHash_channel_id == ticket.channel_id
            &&& tip->prev_hash@ == m.last_new_prev_hash->0.prev_hash@
            &&& tip->min_ntime == m.last_new_prev_hash->0.header_timestamp
            &&& tip->nbits == m.last_new_prev_hash->0.n_bits
            &&& ({
                let template = m.last_future_template->0@;
                let offered = crate::channel::standard_with_template(
                    channel,
                    crate::channel::template_message(template),
                    outputs,
                ).0;
                let job_id = crate::channel::standard_future_id_of(
                    offered,
                    m.last_future_template->0.template_id,
                )->0;
                &&& tip->SetNewPrevHash_job_id == job_id
                &&& job->NewMiningJob_job == crate::channel::standard_message_of(
                    crate::channel::standard_future_of(offered, job_id)->0,
                )
            })
        }),
{
    let list = replies->Ok_0@;
    let views = crate::message::routes(list);
    assert(views.len() == list.len());
    assert forall|k: int| 0 <= k < list.len() implies (#[trigger] list[k])@ == views[k] by {
    }
    assert(views[0] == list[0]@);
    assert(list.len() > 1 ==> views[1] == list[1]@ && views[2] == list[2]@);
}

/// A standard channel that was opened, and no other, is listed anew: among the channels of its
/// connection, with a fresh adjustment of its difficulty, and, with whom to pay, for the GridPool
/// node. What another channel or connection has stays as it was.
pub proof fn opening_a_standard_channel_concerns_it_alone(
    m: ChannelManager,
    d: Downstream,
    m_after: ChannelManager,
    d_after: Downstream,
    ticket: OpenTicket,
    outputs: Seq<crate::work::Output>,
    made: Result<StandardChannel<'static>, OpenFault>,
    replies: Result<Vec<RouteMessageTo>, PoolError>,
    other: u32,
    connection: usize,
)
    requires
        standard_listed(m, d, m_after, d_after, ticket, outputs, made, replies),
        made is Ok,
        replies is Ok,
    ensures
        ({
            let channel_id = ticket.channel_id;
            let number = (d.downstream_id * 0x1_0000_0000 + channel_id) as u128;
            let elsewhere = (connection * 0x1_0000_0000 + other) as u128;
            let members = crate::channel::group_members(d.group_channel);
            let members_after = crate::channel::group_members(d_after.group_channel);
            &&& d_after.standard_channels@.contains_key(channel_id)
            &&& m_after.vardiff@.contains_key(number)
            &&& crate::channel::vardiff_shares(m_after.vardiff@[number]) == 0
            &&& ticket.payout is Some ==> m_after.gridpool_channels@.contains_key(number)
                && m_after.gridpool_channels@[number] == ticket.payout->0
            &&& ticket.payout is None ==> m_after.gridpool_channels@ == m.gridpool_channels@
            &&& !d.requires_standard_jobs ==> members_after.contains(channel_id)
            &&& d.requires_standard_jobs ==> members_after == members
            &&& other != channel_id ==> {
                &&& members_after.contains(other) <==> members.contains(other)
                &&& d_after.standard_channels@.contains_key(other) <==> d.standard_channels@.contains_key(
                    other,
                )
                &&& d.standard_channels@.contains_key(other) ==> d_after.standard_channels@[other]
                    == d.standard_channels@[other]
                &&& d_after.last_job_ids@.contains_key(other) <==> d.last_job_ids@.contains_key(
                    other,
                )
                &&& d.last_job_ids@.contains_key(other) ==> d_after.last_job_ids@[other]
                    == d.last_job_ids@[other]
            }
            &&& other != channel_id || connection != d.downstream_id ==> {
                &&& m_after.vardiff@.contains_key(elsewhere) <==> m.vardiff@.contains_key(elsewhere)
                &&& m.vardiff@.contains_key(elsewhere) ==> m_after.vardiff@[elsewhere]
                    == m.vardiff@[elsewhere]
                &&& m_after.gridpool_channels@.contains_key(elsewhere)
                    <==> m.gridpool_channels@.contains_key(elsewhere)
                &&& m.gridpool_channels@.contains_key(elsewhere)
                    ==> m_after.gridpool_channels@[elsewhere] == m.gridpool_channels@[elsewhere]
            }
            &&& d_after.extended_channels == d.extended_channels
            &&& d_after.downstream_id == d.downstream_id
            &&& d_after.next_channel_id == d.next_channel_id
            &&& m_after.gridpool == m.gridpool
        }),
{
}

/// A standard channel that could not be made is not listed, and nothing changes. Its miner is told
/// the code of what was wrong with the request; without a code its connection ends.
pub proof fn standard_channels_that_cannot_be_made_are_refused(
    m: ChannelManager,
    d: Downstream,
    m_after: ChannelManager,
    d_after: Downstream,
    ticket: OpenTicket,
    outputs: Seq<crate::work::Output>,
    made: Result<StandardChannel<'static>, OpenFault>,
    replies: Result<Vec<RouteMessageTo>, PoolError>,
)
    requires
        standard_listed(m, d, m_after, d_after, ticket, outputs, made, replies),
        made is Err,
    ensures
        m_after == m,
        d_after == d,
        made->Err_0 matches OpenFault::Refused { code } ==> tells_refusal(
            replies,
            d.downstream_id,
            ticket.request_id,
            code@,
        ),
        made->Err_0 matches OpenFault::Other { message } ==> {
            &&& replies is Err
            &&& replies->Err_0 is Disconnect
            &&& replies->Err_0->downstream_id == d.downstream_id
            &&& replies->Err_0->Disconnect_kind == PoolErrorKind::ChannelErrorSender
        },
{
    if let OpenFault::Refused { code } = made->Err_0 {
        lemma_refusal(replies, d.downstream_id, ticket.request_id, code@);
    }
}

/// The miner of an extended channel that was opened is told three things, in this order: that the channel
/// is open, with its target and its extranonce, the first job, and the chain tip that activates the
/// job. A miner that makes its own jobs is told only the first.
pub proof fn miners_of_extended_channels_are_told_their_first_job(
    m: ChannelManager,
    d: Downstream,
    m_after: ChannelManager,
    d_after: Downstream,
    ticket: OpenTicket,
    made: Result<ExtendedChannel<'static>, OpenFault>,
    now: u64,
    replies: Result<Vec<RouteMessageTo>, PoolError>,
)
    requires
        extended_listed(m, d, m_after, d_after, ticket, made, now, replies),
        made is Ok,
        replies is Ok,
    ensures
        ({
            let list = replies->Ok_0@;
            let channel = made->Ok_0;
            let opened = list[0]->message;
            let job = list[1]->message;
            let tip = list[2]->message;
            &&& list.len() == if d.requires_custom_work {
                1nat
            } else {
                3nat
            }
            &&& forall|k: int|
                0 <= k < list.len() ==> (#[trigger] list[k]) is Downstream
                    && list[k]->downstream_id == d.downstream_id
            &&& opened is OpenExtendedMiningChannelSuccess
            &&& opened->OpenExtendedMiningChannelSuccess_request_id == ticket.request_id
            &&& opened->OpenExtendedMiningChannelSuccess_channel_id == ticket.channel_id
            &&& opened->OpenExtendedMiningChannelSuccess_target@ == crate::channel::extended_target_of(channel)
            &&& opened->OpenExtendedMiningChannelSuccess_extranonce_prefix@
                == crate::channel::extended_prefix_of(channel)
            &&& opened->OpenExtendedMiningChannelSuccess_group_channel_id
                == crate::channel::group_number(d.group_channel)
            &&& opened->extranonce_size == crate::channel::extended_rollable_of(channel)
            &&& !d.requires_custom_work ==> {
                &&& job is NewExtendedMiningJob
                &&& tip is SetNewPrevHash
                &&& tip->SetNewPrevHash_channel_id == ticket.channel_id
                &&& tip->prev_hash@ == m.last_new_prev_hash->0.prev_hash@
                &&& tip->min_ntime == m.last_new_prev_hash->0.header_timestamp
                &&& tip->nbits == m.last_new_prev_hash->0.n_bits
            }
            &&& !d.requires_custom_work ==> ({
                let template = m.last_future_template->0@;
                let offered = crate::channel::extended_with_template(
                    channel,
                    crate::channel::template_message(template),
                    job_outputs(
                        m,
                        names_of(ticket.payout),
                        ticket.mode@,
                        m.last_future_template->0.coinbase_tx_value_remaining,
                        now,
                    )->Ok_0,
                ).0;
                let job_id = crate::channel::extended_future_id_of(
                    offered,
                    m.last_future_template->0.template_id,
                )->0;
                &&& tip->SetNewPrevHash_job_id == job_id
                &&& job->NewExtendedMiningJob_job == crate::channel::extended_message_of(
                    crate::channel::extended_future_of(offered, job_id)->0,
                )
            })
        }),
{
    let list = replies->Ok_0@;
    let views = crate::message::routes(list);
    assert(views.len() == list.len());
    assert forall|k: int| 0 <= k < list.len() implies (#[trigger] list[k])@ == views[k] by {
    }
    assert(views[0] == list[0]@);
    assert(list.len() > 1 ==> views[1] == list[1]@ && views[2] == list[2]@);
}

/// An extended channel that was opened, and no other, is listed anew: among the channels of its
/// connection, with a fresh adjustment of its difficulty, and, with whom to pay, for the GridPool
/// node. What another channel or connection has stays as it was.
pub proof fn opening_an_extended_channel_concerns_it_alone(
    m: ChannelManager,
    d: Downstream,
    m_after: ChannelManager,
    d_after: Downstream,
    ticket: OpenTicket,
    made: Result<ExtendedChannel<'static>, OpenFault>,
    now: u64,
    replies: Result<Vec<RouteMessageTo>, PoolError>,
    other: u32,
    connection: usize,
)
    requires
        extended_listed(m, d, m_after, d_after, ticket, made, now, replies),
        made is Ok,
        replies is Ok,
    ensures
        ({
            let channel_id = ticket.channel_id;
            let number = (d.downstream_id * 0x1_0000_0000 + channel_id) as u128;
            let elsewhere = (connection * 0x1_0000_0000 + other) as u128;
            let members = crate::channel::group_members(d.group_channel);
            let members_after = crate::channel::group_members(d_after.group_channel);
            &&& d_after.extended_channels@.contains_key(channel_id)
            &&& m_after.vardiff@.contains_key(number)
            &&& crate::channel::vardiff_shares(m_after.vardiff@[number]) == 0
            &&& ticket.payout is Some ==> m_after.gridpool_channels@.contains_key(number)
                && m_after.gridpool_channels@[number] == ticket.payout->0
            &&& ticket.payout is None ==> m_after.gridpool_channels@ == m.gridpool_channels@
            &&& !d.requires_custom_work ==> members_after.contains(channel_id)
            &&& d.requires_custom_work ==> members_after == members
            &&& other != channel_id ==> {
                &&& members_after.contains(other) <==> members.contains(other)
                &&& d_after.extended_channels@.contains_key(other) <==> d.extended_channels@.contains_key(
                    other,
                )
                &&& d.extended_channels@.contains_key(other) ==> d_after.extended_channels@[other]
                    == d.extended_channels@[other]
                &&& d_after.last_job_ids@.contains_key(other) <==> d.last_job_ids@.contains_key(
                    other,
                )
                &&& d.last_job_ids@.contains_key(other) ==> d_after.last_job_ids@[other]
                    == d.last_job_ids@[other]
            }
            &&& other != channel_id || connection != d.downstream_id ==> {
                &&& m_after.vardiff@.contains_key(elsewhere) <==> m.vardiff@.contains_key(elsewhere)
                &&& m.vardiff@.contains_key(elsewhere) ==> m_after.vardiff@[elsewhere]
                    == m.vardiff@[elsewhere]
                &&& m_after.gridpool_channels@.contains_key(elsewhere)
                    <==> m.gridpool_channels@.contains_key(elsewhere)
                &&& m.gridpool_channels@.contains_key(elsewhere)
                    ==> m_after.gridpool_channels@[elsewhere] == m.gridpool_channels@[elsewhere]
            }
            &&& d_after.standard_channels == d.standard_channels
            &&& d_after.downstream_id == d.downstream_id
            &&& d_after.next_channel_id == d.next_channel_id
            &&& m_after.gridpool == m.gridpool
        }),
{
}

/// An extended channel that could not be made is not listed, and nothing changes. Its miner is told
/// the code of what was wrong with the request; without a code its connection ends.
pub proof fn extended_channels_that_cannot_be_made_are_refused(
    m: ChannelManager,
    d: Downstream,
    m_after: ChannelManager,
    d_after: Downstream,
    ticket: OpenTicket,
    made: Result<ExtendedChannel<'static>, OpenFault>,
    now: u64,
    replies: Result<Vec<RouteMessageTo>, PoolError>,
)
    requires
        extended_listed(m, d, m_after, d_after, ticket, made, now, replies),
        made is Err,
    ensures
        m_after == m,
        d_after == d,
        made->Err_0 matches OpenFault::Refused { code } ==> tells_refusal(
            replies,
            d.downstream_id,
            ticket.request_id,
            code@,
        ),
        made->Err_0 matches OpenFault::Other { message } ==> {
            &&& replies is Err
            &&& replies->Err_0 is Disconnect
            &&& replies->Err_0->downstream_id == d.downstream_id
            &&& replies->Err_0->Disconnect_kind is Channel
            &&& replies->Err_0->Disconnect_kind->Channel_message@ == message@
        },
{
    if let OpenFault::Refused { code } = made->Err_0 {
        lemma_refusal(replies, d.downstream_id, ticket.request_id, code@);
    }
}

/// Without a chain tip, without a template, or where the payouts do not work out, the connection of
/// the miner of an extended channel ends for the first of these reasons, and the channel is not
/// listed. A miner that makes its own jobs needs no payouts.
pub proof fn extended_channels_need_a_tip_a_template_and_payouts(
    m: ChannelManager,
    d: Downstream,
    m_after: ChannelManager,
    d_after: Downstream,
    ticket: OpenTicket,
    made: Result<ExtendedChannel<'static>, OpenFault>,
    now: u64,
    replies: Result<Vec<RouteMessageTo>, PoolError>,
)
    requires
        extended_listed(m, d, m_after, d_after, ticket, made, now, replies),
        made is Ok,
    ensures
        ({
            let no_tip = m.last_new_prev_hash is None;
            let no_template = m.last_future_template is None;
            let outputs = job_outputs(
                m,
                names_of(ticket.payout),
                ticket.mode@,
                m.last_future_template->0.coinbase_tx_value_remaining,
                now,
            );
            let unpaid = !d.requires_custom_work && outputs is Err;
            &&& no_tip ==> replies == Err::<Vec<RouteMessageTo>, PoolError>(
                PoolError::Disconnect {
                    downstream_id: d.downstream_id,
                    kind: PoolErrorKind::LastNewPrevhashNotFound,
                },
            )
            &&& !no_tip && no_template ==> replies == Err::<Vec<RouteMessageTo>, PoolError>(
                PoolError::Disconnect {
                    downstream_id: d.downstream_id,
                    kind: PoolErrorKind::FutureTemplateNotPresent,
                },
            )
            &&& !no_tip && !no_template && unpaid ==> {
                &&& replies is Err
                &&& replies->Err_0 is Disconnect
                &&& replies->Err_0->downstream_id == d.downstream_id
                &&& replies->Err_0->Disconnect_kind is Configuration
                &&& replies->Err_0->Disconnect_kind->Configuration_message@ == outputs->Err_0
            }
            &&& no_tip || no_template || unpaid ==> d_after == d && m_after.vardiff == m.vardiff
        }),
{
}

/// A channel that enters the group of its connection has an extranonce as long as the group's, or
/// the pool ends.
pub proof fn channels_of_a_group_have_its_extranonce_size(
    m: ChannelManager,
    d: Downstream,
    m_after: ChannelManager,
    d_after: Downstream,
    ticket: OpenTicket,
    outputs: Seq<crate::work::Output>,
    standard: Result<StandardChannel<'static>, OpenFault>,
    extended: Result<ExtendedChannel<'static>, OpenFault>,
    now: u64,
    replies: Result<Vec<RouteMessageTo>, PoolError>,
)
    requires
        replies is Ok,
    ensures
        standard is Ok && !d.requires_standard_jobs && standard_listed(
            m,
            d,
            m_after,
            d_after,
            ticket,
            outputs,
            standard,
            replies,
        ) ==> crate::channel::standard_prefix_of(standard->Ok_0).len()
            == crate::channel::group_extranonce_size(d.group_channel),
        extended is Ok && !d.requires_custom_work && extended_listed(
            m,
            d,
            m_after,
            d_after,
            ticket,
            extended,
            now,
            replies,
        ) ==> {
            let listed = d_after.extended_channels@[ticket.channel_id];
            crate::channel::extended_prefix_of(listed).len()
                + crate::channel::extended_rollable_of(listed)
                == crate::channel::group_extranonce_size(d.group_channel)
        },
{
}

/// A ticket has what it was asked for with and the next id of the connection, which goes up by one
/// and starts again at zero behind the greatest. Without an extranonce prefix there is no ticket, no
/// id is used up, and the pool ends with the reason.
pub proof fn tickets_use_up_one_id(
    downstream: &mut Downstream,
    request_id: u32,
    user_identity: String,
    payout: Option<ChannelPayout>,
    mode: PayoutMode,
    outputs: Vec<TxOut>,
    prefix: Result<AllocatedExtranoncePrefix, String>,
    step: OpenStep,
)
    requires
        call_ensures(
            issue_ticket,
            (downstream, request_id, user_identity, payout, mode, outputs, prefix),
            step,
        ),
    ensures
        prefix is Ok ==> {
            let ticket = step->ticket;
            &&& step is Create
            &&& ticket.request_id == request_id
            &&& ticket.channel_id == old(downstream).next_channel_id
            &&& ticket.user_identity == user_identity
            &&& ticket.payout == payout
            &&& ticket.mode == mode
            &&& step->prefix == prefix->Ok_0
            &&& step->outputs == outputs
            &&& final(downstream).next_channel_id as int == (old(downstream).next_channel_id + 1)
                % 0x1_0000_0000
        },
        prefix is Err ==> {
            let replies = step->replies;
            &&& step is Reply
            &&& replies is Err
            &&& replies->Err_0 is Shutdown
            &&& replies->Err_0->Shutdown_kind is Extranonce
            &&& replies->Err_0->Shutdown_kind->Extranonce_message@ == prefix->Err_0@
            &&& final(downstream).next_channel_id == old(downstream).next_channel_id
        },
        final(downstream).payout_mode is Some,
        final(downstream).payout_mode->0@ == mode@,
        final(downstream).standard_channels == old(downstream).standard_channels,
        final(downstream).extended_channels == old(downstream).extended_channels,
        final(downstream).group_channel == old(downstream).group_channel,
        final(downstream).downstream_id == old(downstream).downstream_id,
{
}

/// With a state to start from, the difficulty of a channel is adjusted and its miner gets the
/// messages; without one nothing is listed and the pool ends.
pub proof fn adjusting_starts_with_a_state(
    manager: &mut ChannelManager,
    number: u128,
    state: Option<VardiffState>,
    messages: Vec<RouteMessageTo>,
    replies: Result<Vec<RouteMessageTo>, PoolError>,
    other: u128,
)
    requires
        call_ensures(ChannelManager::start_adjusting, (manager, number, state, messages), replies),
    ensures
        state is Some <==> replies is Ok,
        state is Some ==> {
            &&& replies->Ok_0 == messages
            &&& final(manager).vardiff@.contains_key(number)
            &&& final(manager).vardiff@[number] == state->0
            &&& other != number ==> (final(manager).vardiff@.contains_key(other) <==> old(
                manager,
            ).vardiff@.contains_key(other)) && final(manager).vardiff@[other] == old(
                manager,
            ).vardiff@[other]
        },
        state is None ==> {
            &&& replies->Err_0 == (PoolError::Shutdown { kind: PoolErrorKind::Vardiff })
            &&& final(manager).vardiff == old(manager).vardiff
        },
        final(manager).gridpool_channels == old(manager).gridpool_channels,
        final(manager).gridpool == old(manager).gridpool,
{
}

/// A standard channel that was opened has taken the template with the outputs and then the chain
/// tip; if it does not take the one or the other, the pool ends with the channel's own message and the
/// channel is not listed.
pub proof fn standard_channels_take_template_and_tip(
    m: ChannelManager,
    d: Downstream,
    m_after: ChannelManager,
    d_after: Downstream,
    ticket: OpenTicket,
    outputs: Seq<crate::work::Output>,
    made: Result<StandardChannel<'static>, OpenFault>,
    replies: Result<Vec<RouteMessageTo>, PoolError>,
)
    requires
        standard_listed(m, d, m_after, d_after, ticket, outputs, made, replies),
        made is Ok,
    ensures
        ({
            let template = crate::channel::template_message(m.last_future_template->0@);
            let tip = crate::channel::prev_hash_message(m.last_new_prev_hash->0@);
            let offered = crate::channel::standard_with_template(made->Ok_0, template, outputs);
            let ready = crate::channel::standard_with_prev_hash(offered.0, tip);
            let fault = if offered.1 is Some {
                offered.1
            } else {
                ready.1
            };
            &&& fault is None ==> d_after.standard_channels@ == d.standard_channels@.insert(
                ticket.channel_id,
                ready.0,
            )
            &&& fault is Some ==> {
                &&& d_after == d
                &&& replies is Err
                &&& replies->Err_0 is Shutdown
                &&& replies->Err_0->Shutdown_kind is Channel
                &&& replies->Err_0->Shutdown_kind->Channel_message@ == fault->0
            }
        }),
{
}

/// An extended channel that was opened has taken the template with the outputs of the channel, unless
/// its miner makes its own jobs, and then the chain tip; if it does not take the one or the other, the
/// pool ends with the channel's own message and the channel is not listed. A channel with a job counts
/// its jobs from one on.
pub proof fn extended_channels_take_template_and_tip(
    m: ChannelManager,
    d: Downstream,
    m_after: ChannelManager,
    d_after: Downstream,
    ticket: OpenTicket,
    made: Result<ExtendedChannel<'static>, OpenFault>,
    now: u64,
    replies: Result<Vec<RouteMessageTo>, PoolError>,
    outputs: Seq<crate::work::Output>,
)
    requires
        extended_listed(m, d, m_after, d_after, ticket, made, now, replies),
        made is Ok,
        m.last_future_template is Some,
        m.last_new_prev_hash is Some,
        job_outputs(
            m,
            names_of(ticket.payout),
            ticket.mode@,
            m.last_future_template->0.coinbase_tx_value_remaining,
            now,
        ) == Ok::<Seq<crate::work::Output>, Seq<char>>(outputs),
    ensures
        ({
            let template = crate::channel::template_message(m.last_future_template->0@);
            let tip = crate::channel::prev_hash_message(m.last_new_prev_hash->0@);
            let offered = crate::channel::extended_with_template(made->Ok_0, template, outputs);
            let start = if d.requires_custom_work {
                made->Ok_0
            } else {
                offered.0
            };
            let ready = crate::channel::extended_with_prev_hash(start, tip);
            let fault = if !d.requires_custom_work && offered.1 is Some {
                offered.1
            } else {
                ready.1
            };
            &&& replies is Ok ==> fault is None && d_after.extended_channels@
                == d.extended_channels@.insert(ticket.channel_id, ready.0)
            &&& replies is Ok ==> d_after.last_job_ids@[ticket.channel_id]
                == if d.requires_custom_work {
                0int
            } else {
                1int
            }
            &&& fault is Some ==> {
                &&& d_after == d
                &&& replies is Err
                &&& replies->Err_0 is Shutdown
                &&& replies->Err_0->Shutdown_kind is Channel
                &&& replies->Err_0->Shutdown_kind->Channel_message@ == fault->0
            }
        }),
{
}

/// A miner that wants to roll more of the extranonce than is left to roll gets no extended channel,
/// and is told that it wants too much.
pub proof fn miners_roll_what_is_left(
    m: ChannelManager,
    downstream: &mut Downstream,
    allocator: &mut ExtranonceAllocator,
    request: OpenRequest,
    min_extranonce_size: u16,
    outcome: (OpenStep, Option<AllocationFault>),
)
    requires
        call_ensures(
            ChannelManager::open_extended,
            (&m, downstream, allocator, &request, min_extranonce_size),
            outcome,
        ),
        !old(downstream).requires_standard_jobs,
    ensures
        outcome.1 == Some(AllocationFault::RollableTooLarge) <==> min_extranonce_size
            > crate::channel::allocator_rollable(*old(allocator)),
        outcome.1 is Some ==> {
            &&& outcome.0 is Reply
            &&& *final(downstream) == *old(downstream)
            &&& tells_refusal(
                outcome.0->replies,
                old(downstream).downstream_id,
                request.request_id,
                "min-extranonce-size-too-large"@,
            )
        },
        outcome.0 is Create ==> crate::channel::prefix_bytes(outcome.0->prefix).len()
            + crate::channel::allocator_rollable(*old(allocator))
            == crate::channel::allocator_total(*old(allocator)),
{
    extended_channels_are_let_in_or_turned_away(
        m,
        *old(downstream),
        *final(downstream),
        request,
        outcome.1 is None,
        outcome.0,
    );
}

/// Who is paid for an identity, and how, as it is found: the address that the identity names if it
/// can be paid, and the fallback otherwise, if a GridPool node is attached.
pub proof fn identities_are_found(
    m: ChannelManager,
    identity: &str,
    found: Option<(Option<ChannelPayout>, PayoutMode)>,
)
    requires
        call_ensures(ChannelManager::identify, (&m, identity), found),
        found is Some,
    ensures
        ({
            let (payout, mode) = found->0;
            let explicit = crate::client::explicit_part(crate::text::trimmed(identity@));
            let client = m.gridpool->0;
            let script = crate::address::payout_script(explicit, client.work.bitcoin_network@);
            let said = crate::identity::payout_mode_of(identity@);
            &&& payout is Some <==> m.gridpool is Some
            &&& payout is Some && script is Ok ==> payout->0.payout_address@ == explicit
            &&& payout is Some && script is Err ==> payout->0.payout_address@
                == client.config.fallback_payout_address@
            &&& said is Ok ==> mode@ == said->Ok_0
            &&& said is Err ==> mode is FullDonation && said->Err_0 is NoPayoutMode
        }),
{
    identities_say_who_is_paid(m, identity@);
}

/// Once a standard channel is made, whom it pays is listed for the GridPool node in any case. If the
/// opening then fails, its difficulty is not adjusted, and the pool or the connection ends.
pub proof fn standard_channels_that_fail_are_not_adjusted(
    m: ChannelManager,
    d: Downstream,
    m_after: ChannelManager,
    d_after: Downstream,
    ticket: OpenTicket,
    outputs: Seq<crate::work::Output>,
    made: Result<StandardChannel<'static>, OpenFault>,
    replies: Result<Vec<RouteMessageTo>, PoolError>,
)
    requires
        standard_listed(m, d, m_after, d_after, ticket, outputs, made, replies),
        made is Ok,
    ensures
        ({
            let number = (d.downstream_id * 0x1_0000_0000 + ticket.channel_id) as u128;
            &&& ticket.payout is Some ==> m_after.gridpool_channels@ == m.gridpool_channels@.insert(
                number,
                ticket.payout->0,
            )
            &&& ticket.payout is None ==> m_after.gridpool_channels@ == m.gridpool_channels@
            &&& replies is Err ==> m_after.vardiff@ == m.vardiff@
            &&& replies is Err && replies->Err_0 is Disconnect ==> replies->Err_0->downstream_id
                == d.downstream_id
            &&& m_after.gridpool == m.gridpool
            &&& m_after.last_future_template == m.last_future_template
            &&& m_after.last_new_prev_hash == m.last_new_prev_hash
            &&& m_after.pool_tag_string == m.pool_tag_string
            &&& m_after.coinbase_reward_script == m.coinbase_reward_script
            &&& d_after.downstream_id == d.downstream_id
            &&& d_after.payout_mode == d.payout_mode
            &&& d_after.requires_custom_work == d.requires_custom_work
            &&& d_after.requires_standard_jobs == d.requires_standard_jobs
            &&& d_after.negotiated_extensions == d.negotiated_extensions
        }),
{
}

/// Once an extended channel is made, whom it pays is listed for the GridPool node in any case. If the
/// opening then fails, its difficulty is not adjusted, and the pool or the connection ends.
pub proof fn extended_channels_that_fail_are_not_adjusted(
    m: ChannelManager,
    d: Downstream,
    m_after: ChannelManager,
    d_after: Downstream,
    ticket: OpenTicket,
    made: Result<ExtendedChannel<'static>, OpenFault>,
    now: u64,
    replies: Result<Vec<RouteMessageTo>, PoolError>,
)
    requires
        extended_listed(m, d, m_after, d_after, ticket, made, now, replies),
        made is Ok,
    ensures
        ({
            let number = (d.downstream_id * 0x1_0000_0000 + ticket.channel_id) as u128;
            &&& ticket.payout is Some ==> m_after.gridpool_channels@ == m.gridpool_channels@.insert(
                number,
                ticket.payout->0,
            )
            &&& ticket.payout is None ==> m_after.gridpool_channels@ == m.gridpool_channels@
            &&& replies is Err ==> m_after.vardiff@ == m.vardiff@
            &&& replies is Err && replies->Err_0 is Disconnect ==> replies->Err_0->downstream_id
                == d.downstream_id
            &&& m_after.gridpool == m.gridpool
            &&& m_after.last_future_template == m.last_future_template
            &&& m_after.last_new_prev_hash == m.last_new_prev_hash
            &&& m_after.pool_tag_string == m.pool_tag_string
            &&& m_after.coinbase_reward_script == m.coinbase_reward_script
            &&& d_after.downstream_id == d.downstream_id
            &&& d_after.payout_mode == d.payout_mode
            &&& d_after.requires_custom_work == d.requires_custom_work
            &&& d_after.requires_standard_jobs == d.requires_standard_jobs
            &&& d_after.negotiated_extensions == d.negotiated_extensions
        }),
{
}

/// A channel whose extranonce is not as long as that of its group ends the pool. A standard channel
/// stays listed then, and an extended one does not come into the list.
pub proof fn channels_that_do_not_fit_their_group_end_the_pool(
    m: ChannelManager,
    d: Downstream,
    m_after: ChannelManager,
    d_after: Downstream,
    ticket: OpenTicket,
    outputs: Seq<crate::work::Output>,
    standard: StandardChannel<'static>,
    extended: ExtendedChannel<'static>,
    now: u64,
    replies: Result<Vec<RouteMessageTo>, PoolError>,
)
    ensures
        ({
            let opening = standard_opening(
                standard,
                d.downstream_id,
                crate::channel::group_number(d.group_channel),
                ticket,
                m.last_future_template->0@,
                m.last_new_prev_hash->0@,
                outputs,
            );
            &&& standard_listed(m, d, m_after, d_after, ticket, outputs, Ok(standard), replies)
            &&& !d.requires_standard_jobs
            &&& opening is Ok
            &&& crate::channel::standard_prefix_of(standard).len()
                != crate::channel::group_extranonce_size(d.group_channel)
        }) ==> {
            &&& replies == Err::<Vec<RouteMessageTo>, PoolError>(
                PoolError::Shutdown { kind: PoolErrorKind::Group },
            )
            &&& d_after.standard_channels@.contains_key(ticket.channel_id)
        },
        ({
            let opening = extended_start(m, d, extended, ticket, now);
            let ready = (opening->Ok_0).0;
            &&& extended_listed(m, d, m_after, d_after, ticket, Ok(extended), now, replies)
            &&& !d.requires_custom_work
            &&& opening is Ok
            &&& crate::channel::extended_prefix_of(ready).len()
                + crate::channel::extended_rollable_of(ready)
                != crate::channel::group_extranonce_size(d.group_channel)
        }) ==> {
            &&& replies == Err::<Vec<RouteMessageTo>, PoolError>(
                PoolError::Shutdown { kind: PoolErrorKind::Group },
            )
            &&& d_after.extended_channels == d.extended_channels
            &&& d_after.last_job_ids == d.last_job_ids
        },
{
}

} // verus!
