//! Messages between the pool, its miners and the template provider, and what ends a connection or
//! the pool.

use crate::template::SubmitSolution;
use stratum_apps::stratum_core::mining_sv2::{NewExtendedMiningJob, NewMiningJob};
use vstd::prelude::*;

verus! {

/// A share of a standard channel.
#[derive(Clone, Copy, Debug)]
pub struct SubmitSharesStandard {
    pub channel_id: u32,
    pub sequence_number: u32,
    pub job_id: u32,
    pub nonce: u32,
    pub ntime: u32,
    pub version: u32,
}

/// A share of an extended channel.
#[derive(Clone, Debug)]
pub struct SubmitSharesExtended {
    pub channel_id: u32,
    pub sequence_number: u32,
    pub job_id: u32,
    pub nonce: u32,
    pub ntime: u32,
    pub version: u32,
    /// The part of the extranonce that the miner rolls.
    pub extranonce: Vec<u8>,
}

/// Why a share is not accepted.
#[derive(Clone, Copy, Debug, PartialEq, Eq, Structural)]
pub enum ShareFaultKind {
    Invalid,
    Stale,
    InvalidJobId,
    DoesNotMeetTarget,
    VersionRollingNotAllowed,
    DuplicateShare,
    BadExtranonceSize,
    InvalidCoinbase,
    NoChainTip,
}

/// A message to a miner.
#[derive(Debug)]
pub enum MiningMessage {
    OpenMiningChannelError { request_id: u32, error_code: String },
    OpenStandardMiningChannelSuccess {
        request_id: u32,
        channel_id: u32,
        target: [u8; 32],
        extranonce_prefix: Vec<u8>,
        group_channel_id: u32,
    },
    OpenExtendedMiningChannelSuccess {
        request_id: u32,
        channel_id: u32,
        target: [u8; 32],
        extranonce_prefix: Vec<u8>,
        extranonce_size: u16,
        group_channel_id: u32,
    },
    NewMiningJob { job: NewMiningJob<'static> },
    NewExtendedMiningJob { job: NewExtendedMiningJob<'static> },
    SetNewPrevHash { channel_id: u32, job_id: u32, prev_hash: [u8; 32], min_ntime: u32, nbits: u32 },
    SubmitSharesSuccess {
        channel_id: u32,
        last_sequence_number: u32,
        new_submits_accepted_count: u32,
        new_shares_sum: u64,
    },
    SubmitSharesError { channel_id: u32, sequence_number: u32, error_code: String },
    CloseChannel { channel_id: u32, reason_code: String },
    UpdateChannelError { channel_id: u32, error_code: String },
    SetTarget { channel_id: u32, maximum_target: [u8; 32] },
    SetCustomMiningJobSuccess { channel_id: u32, request_id: u32, job_id: u32 },
    SetCustomMiningJobError { request_id: u32, channel_id: u32, error_code: String },
}

/// A [`MiningMessage`] with sequences in place of lists, arrays and texts.
pub ghost enum Mining {
    OpenMiningChannelError { request_id: u32, error_code: Seq<char> },
    OpenStandardMiningChannelSuccess {
        request_id: u32,
        channel_id: u32,
        target: Seq<u8>,
        extranonce_prefix: Seq<u8>,
        group_channel_id: u32,
    },
    OpenExtendedMiningChannelSuccess {
        request_id: u32,
        channel_id: u32,
        target: Seq<u8>,
        extranonce_prefix: Seq<u8>,
        extranonce_size: u16,
        group_channel_id: u32,
    },
    NewMiningJob { job: NewMiningJob<'static> },
    NewExtendedMiningJob { job: NewExtendedMiningJob<'static> },
    SetNewPrevHash { channel_id: u32, job_id: u32, prev_hash: Seq<u8>, min_ntime: u32, nbits: u32 },
    SubmitSharesSuccess {
        channel_id: u32,
        last_sequence_number: u32,
        new_submits_accepted_count: u32,
        new_shares_sum: u64,
    },
    SubmitSharesError { channel_id: u32, sequence_number: u32, error_code: Seq<char> },
    CloseChannel { channel_id: u32, reason_code: Seq<char> },
    UpdateChannelError { channel_id: u32, error_code: Seq<char> },
    SetTarget { channel_id: u32, maximum_target: Seq<u8> },
    SetCustomMiningJobSuccess { channel_id: u32, request_id: u32, job_id: u32 },
    SetCustomMiningJobError { request_id: u32, channel_id: u32, error_code: Seq<char> },
}

impl View for MiningMessage {
    type V = Mining;

    open spec fn view(&self) -> Mining {
        match *self {
            MiningMessage::OpenMiningChannelError { request_id, error_code } =>
                Mining::OpenMiningChannelError { request_id, error_code: error_code@ },
            MiningMessage::OpenStandardMiningChannelSuccess {
                request_id,
                channel_id,
                target,
                extranonce_prefix,
                group_channel_id,
            } => Mining::OpenStandardMiningChannelSuccess {
                request_id,
                channel_id,
                target: target@,
                extranonce_prefix: extranonce_prefix@,
                group_channel_id,
            },
            MiningMessage::OpenExtendedMiningChannelSuccess {
                request_id,
                channel_id,
                target,
                extranonce_prefix,
                extranonce_size,
                group_channel_id,
            } => Mining::OpenExtendedMiningChannelSuccess {
                request_id,
                channel_id,
                target: target@,
                extranonce_prefix: extranonce_prefix@,
                extranonce_size,
                group_channel_id,
            },
            MiningMessage::NewMiningJob { job } => Mining::NewMiningJob { job },
            MiningMessage::NewExtendedMiningJob { job } => Mining::NewExtendedMiningJob { job },
            MiningMessage::SetNewPrevHash { channel_id, job_id, prev_hash, min_ntime, nbits } =>
                Mining::SetNewPrevHash {
                    channel_id,
                    job_id,
                    prev_hash: prev_hash@,
                    min_ntime,
                    nbits,
                },
            MiningMessage::SubmitSharesSuccess {
                channel_id,
                last_sequence_number,
                new_submits_accepted_count,
                new_shares_sum,
            } => Mining::SubmitSharesSuccess {
                channel_id,
                last_sequence_number,
                new_submits_accepted_count,
                new_shares_sum,
            },
            MiningMessage::SubmitSharesError { channel_id, sequence_number, error_code } =>
                Mining::SubmitSharesError { channel_id, sequence_number, error_code: error_code@ },
            MiningMessage::CloseChannel { channel_id, reason_code } => Mining::CloseChannel {
                channel_id,
                reason_code: reason_code@,
            },
            MiningMessage::UpdateChannelError { channel_id, error_code } =>
                Mining::UpdateChannelError { channel_id, error_code: error_code@ },
            MiningMessage::SetTarget { channel_id, maximum_target } => Mining::SetTarget {
                channel_id,
                maximum_target: maximum_target@,
            },
            MiningMessage::SetCustomMiningJobSuccess { channel_id, request_id, job_id } =>
                Mining::SetCustomMiningJobSuccess { channel_id, request_id, job_id },
            MiningMessage::SetCustomMiningJobError { request_id, channel_id, error_code } =>
                Mining::SetCustomMiningJobError { request_id, channel_id, error_code: error_code@ },
        }
    }
}

/// A message and where it goes.
#[derive(Debug)]
pub enum RouteMessageTo {
    /// To a miner.
    Downstream { downstream_id: usize, message: MiningMessage },
    /// To the template provider.
    TemplateProvider { solution: SubmitSolution },
}

/// A [`RouteMessageTo`] with sequences in place of lists, arrays and texts.
pub ghost enum Route {
    Downstream { downstream_id: usize, message: Mining },
    TemplateProvider {
        template_id: u64,
        version: u32,
        header_timestamp: u32,
        header_nonce: u32,
        coinbase_tx: Seq<u8>,
    },
}

impl View for RouteMessageTo {
    type V = Route;

    open spec fn view(&self) -> Route {
        match *self {
            RouteMessageTo::Downstream { downstream_id, message } => Route::Downstream {
                downstream_id,
                message: message@,
            },
            RouteMessageTo::TemplateProvider { solution } => Route::TemplateProvider {
                template_id: solution.template_id,
                version: solution.version,
                header_timestamp: solution.header_timestamp,
                header_nonce: solution.header_nonce,
                coinbase_tx: solution.coinbase_tx@,
            },
        }
    }
}

/// The messages that a list holds.
pub open spec fn routes(messages: Seq<RouteMessageTo>) -> Seq<Route> {
    messages.map_values(|message: RouteMessageTo| message@)
}

/// Why a connection or the pool ends.
#[derive(Debug)]
pub enum PoolErrorKind {
    /// There is no template yet.
    FutureTemplateNotPresent,
    /// There is no chain tip yet.
    LastNewPrevhashNotFound,
    /// The payouts do not work out.
    Configuration { message: String },
    /// A channel cannot be made.
    ChannelErrorSender,
    /// A channel refuses what it is given.
    Channel { message: String },
    /// A share cannot be judged.
    ShareValidation { kind: ShareFaultKind },
    /// No extranonce is left.
    Extranonce { message: String },
    /// Bytes do not fit their field of a message.
    FieldTooLong,
    /// A channel does not fit its group.
    Group,
    /// The clock stands before the epoch.
    Vardiff,
}

/// A [`PoolErrorKind`] with texts as sequences of characters.
pub ghost enum ErrorKind {
    FutureTemplateNotPresent,
    LastNewPrevhashNotFound,
    Configuration { message: Seq<char> },
    ChannelErrorSender,
    Channel { message: Seq<char> },
    ShareValidation { kind: ShareFaultKind },
    Extranonce { message: Seq<char> },
    FieldTooLong,
    Group,
    Vardiff,
}

impl View for PoolErrorKind {
    type V = ErrorKind;

    open spec fn view(&self) -> ErrorKind {
        match *self {
            PoolErrorKind::FutureTemplateNotPresent => ErrorKind::FutureTemplateNotPresent,
            PoolErrorKind::LastNewPrevhashNotFound => ErrorKind::LastNewPrevhashNotFound,
            PoolErrorKind::Configuration { message } => ErrorKind::Configuration {
                message: message@,
            },
            PoolErrorKind::ChannelErrorSender => ErrorKind::ChannelErrorSender,
            PoolErrorKind::Channel { message } => ErrorKind::Channel { message: message@ },
            PoolErrorKind::ShareValidation { kind } => ErrorKind::ShareValidation { kind },
            PoolErrorKind::Extranonce { message } => ErrorKind::Extranonce { message: message@ },
            PoolErrorKind::FieldTooLong => ErrorKind::FieldTooLong,
            PoolErrorKind::Group => ErrorKind::Group,
            PoolErrorKind::Vardiff => ErrorKind::Vardiff,
        }
    }
}

/// What ends: the connection of a miner, or the pool.
#[derive(Debug)]
pub enum PoolError {
    Disconnect { downstream_id: usize, kind: PoolErrorKind },
    Shutdown { kind: PoolErrorKind },
}

/// A [`PoolError`] with texts as sequences of characters.
pub ghost enum Failure {
    Disconnect { downstream_id: usize, kind: ErrorKind },
    Shutdown { kind: ErrorKind },
}

impl View for PoolError {
    type V = Failure;

    open spec fn view(&self) -> Failure {
        match *self {
            PoolError::Disconnect { downstream_id, kind } => Failure::Disconnect {
                downstream_id,
                kind: kind@,
            },
            PoolError::Shutdown { kind } => Failure::Shutdown { kind: kind@ },
        }
    }
}

/// Messages to send, or what ends.
pub type Replies = Result<Seq<Route>, Failure>;

/// Whether a result holds the messages, or the failure, that `expected` says.
pub open spec fn same_replies(
    result: Result<Vec<RouteMessageTo>, PoolError>,
    expected: Replies,
) -> bool {
    match result {
        Ok(messages) => expected == Replies::Ok(routes(messages@)),
        Err(error) => expected == Replies::Err(error@),
    }
}

/// The messages, or the failure, that a result holds.
pub open spec fn content(result: Result<Vec<RouteMessageTo>, PoolError>) -> Replies {
    match result {
        Ok(messages) => Ok(routes(messages@)),
        Err(error) => Err(error@),
    }
}

/// One message to a miner.
pub open spec fn to_miner(downstream_id: usize, message: Mining) -> Seq<Route> {
    seq![Route::Downstream { downstream_id, message }]
}

/// A list of one message to a miner.
pub(crate) fn one_message(downstream_id: usize, message: MiningMessage) -> (messages: Vec<
    RouteMessageTo,
>)
    ensures
        routes(messages@) == to_miner(downstream_id, message@),
{
    let mut messages: Vec<RouteMessageTo> = Vec::new();
    messages.push(RouteMessageTo::Downstream { downstream_id, message });
    assert(routes(messages@) =~= to_miner(downstream_id, message@));
    messages
}

/// Puts one more message to a miner behind the others.
pub(crate) fn push_message(
    messages: &mut Vec<RouteMessageTo>,
    downstream_id: usize,
    message: MiningMessage,
)
    ensures
        routes(final(messages)@) == routes(old(messages)@) + to_miner(downstream_id, message@),
{
    messages.push(RouteMessageTo::Downstream { downstream_id, message });
    assert(routes(messages@) =~= routes(old(messages)@) + to_miner(downstream_id, message@));
}

} // verus!
