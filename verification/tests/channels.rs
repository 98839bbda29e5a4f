use gridpool::client::GridPoolClient;
use gridpool::channel::{
    Accounting, AllocationFault, ChannelTip, ShareAccepted, ShareCounts, StandardJobParts,
};
use gridpool::evidence::{prove_extended, prove_standard};
use gridpool::identity::PayoutMode;
use gridpool::manager::{
    channel_kind, handle_set_custom_mining_job, handle_update_channel, refuse_custom_job,
    reply_to_share, worker_field,
    ChannelKind, ChannelManager, CustomJobRequest, DeclaratorVerdict, Downstream, ExtensionField,
    ShareHead,
};
use gridpool::merkle::apply_merkle_path;
use gridpool::message::{
    MiningMessage, PoolError, PoolErrorKind, RouteMessageTo, ShareFaultKind, SubmitSharesExtended,
    SubmitSharesStandard,
};
use gridpool::number::Double;
use gridpool::opening::{issue_ticket, OpenFault, OpenRequest, OpenStep, OpenTicket};
use gridpool::settings::GridPoolConfig;
use gridpool::telemetry::Telemetry;
use gridpool::template::{GetBlockTemplate, RpcTemplate};
use gridpool::work::{ChannelPayout, GridPoolOutput, ShareAdvice, TxOut, WorkSelection};
use std::collections::HashMap;
use stratum_apps::stratum_core::bitcoin::block::Header;
use stratum_apps::stratum_core::bitcoin::consensus::deserialize;
use stratum_apps::stratum_core::bitcoin::hashes::Hash as BitcoinHash;
use stratum_apps::stratum_core::bitcoin::{Target, Transaction};
use stratum_apps::stratum_core::channels_sv2::extranonce_manager::ExtranonceAllocator;
use stratum_apps::stratum_core::channels_sv2::server::extended::ExtendedChannel;
use stratum_apps::stratum_core::channels_sv2::server::group::GroupChannel;
use stratum_apps::stratum_core::channels_sv2::server::share_accounting::ShareValidationError;
use stratum_apps::stratum_core::channels_sv2::server::standard::StandardChannel;
use stratum_apps::stratum_core::channels_sv2::VardiffState;
use stratum_apps::stratum_core::mining_sv2::SetCustomMiningJob;

const FALLBACK: &str = "bc1qrwsx8fs0l6z7ugp5cvzy6lhss7jlyru3kg9s8y";
const FALLBACK_SCRIPT: &str = "00141ba063a60ffe85ee2034c3044d7ef087a5f20f91";
const TIP: &str = "00000000000000000001aaaabbbbccccddddeeeeffff00001111222233334444";
const EXTRANONCE: u8 = 20;
const TAG: &str = "gridpool";

fn double(value: f64) -> Double {
    Double { bits: value.to_bits() }
}

fn client() -> GridPoolClient {
    GridPoolClient {
        config: GridPoolConfig {
            node_url: "http://127.0.0.1:5000".into(),
            fallback_payout_address: FALLBACK.into(),
            operator_fee_address: None,
            operator_fee_percent: double(0.0),
            operator_fee_seconds: 0,
            adapter_token_file: "/tmp/gridpool-test.token".into(),
            proof_spool_dir: None,
            refresh_seconds: 10,
            telemetry_flush_seconds: 5,
            fee_cycle_seconds: 1_500,
        },
        token: "0123456789abcdef0123456789abcdef".into(),
        work: WorkSelection {
            bitcoin_network: "mainnet".into(),
            active_snapshot_id: "snapshot".into(),
            current_tip_block_hash: None,
            minimum_difficulty_to_enter_reserve: double(0.0),
            coinbase_outputs: vec![GridPoolOutput {
                value: 100,
                script_pub_key_hex: FALLBACK_SCRIPT.into(),
            }],
        },
        advice: ShareAdvice {
            pulse_proofs_enabled: false,
            minimum_pulse_difficulty: double(0.0),
            pulse_target_interval_seconds: 60,
        },
        last_pulse: HashMap::new(),
        telemetry: Telemetry::new(),
    }
}

fn template(bits: &str) -> RpcTemplate {
    let answer = GetBlockTemplate {
        version: 0x2000_0000,
        previousblockhash: TIP.into(),
        transactions: Vec::new(),
        coinbase_flags: String::new(),
        coinbasevalue: 5_000,
        longpollid: None,
        mintime: 100,
        curtime: 200,
        bits: bits.into(),
        height: 840_000,
    };
    RpcTemplate::from_gbt(3, &answer, 0).unwrap()
}

fn manager(bits: &str, gridpool: bool) -> ChannelManager {
    ChannelManager {
        gridpool: if gridpool { Some(client()) } else { None },
        gridpool_channels: HashMap::new(),
        vardiff: HashMap::new(),
        last_future_template: Some(template(bits).new_template(true).unwrap()),
        last_new_prev_hash: Some(template(bits).set_new_prev_hash()),
        pool_tag_string: TAG.into(),
        coinbase_reward_script: vec![0x51],
    }
}

fn downstream() -> Downstream {
    Downstream {
        downstream_id: 4,
        requires_custom_work: false,
        requires_standard_jobs: false,
        negotiated_extensions: Vec::new(),
        next_channel_id: 10,
        payout_mode: None,
        group_channel: GroupChannel::new_for_pool(1, usize::from(EXTRANONCE), TAG.into()).unwrap(),
        standard_channels: HashMap::new(),
        extended_channels: HashMap::new(),
        last_job_ids: HashMap::new(),
    }
}

fn allocator() -> ExtranonceAllocator {
    ExtranonceAllocator::new(vec![7, 7], EXTRANONCE, 16).unwrap()
}

fn request(identity: &str) -> OpenRequest {
    OpenRequest { request_id: 77, user_identity: identity.as_bytes().to_vec() }
}

fn easy() -> Target {
    Target::from_le_bytes([0xff; 32])
}

fn open_standard(
    manager: &mut ChannelManager,
    downstream: &mut Downstream,
    identity: &str,
) -> Result<Vec<RouteMessageTo>, PoolError> {
    let mut allocator = allocator();
    match manager.open_standard_at(downstream, &mut allocator, &request(identity), 0) {
        OpenStep::Reply { replies } => replies,
        OpenStep::Create { ticket, prefix, outputs } => {
            let channel = StandardChannel::new_for_pool(
                ticket.channel_id,
                ticket.user_identity.clone(),
                prefix,
                easy(),
                0.5,
                2,
                60.0,
                TAG.into(),
            )
            .unwrap();
            manager.finish_open_standard(downstream, ticket, &outputs, Ok(channel))
        }
    }
}

fn open_extended(
    manager: &mut ChannelManager,
    downstream: &mut Downstream,
    identity: &str,
    min_size: u16,
) -> Result<Vec<RouteMessageTo>, PoolError> {
    let mut allocator = allocator();
    let rollable = u16::from(allocator.rollable_extranonce_size());
    match manager.open_extended(downstream, &mut allocator, &request(identity), min_size).0 {
        OpenStep::Reply { replies } => replies,
        OpenStep::Create { ticket, prefix, .. } => {
            let channel = ExtendedChannel::new_for_pool(
                ticket.channel_id,
                ticket.user_identity.clone(),
                prefix,
                easy(),
                0.5,
                true,
                rollable,
                2,
                60.0,
                TAG.into(),
            )
            .unwrap();
            manager.finish_open_extended_at(downstream, ticket, Ok(channel), 0)
        }
    }
}

fn standard_share(job_id: u32, nonce: u32) -> SubmitSharesStandard {
    SubmitSharesStandard {
        channel_id: 10,
        sequence_number: 5,
        job_id,
        nonce,
        ntime: 250,
        version: 0x2000_0000,
    }
}

fn extended_share(job_id: u32, nonce: u32, extranonce: Vec<u8>) -> SubmitSharesExtended {
    SubmitSharesExtended {
        channel_id: 10,
        sequence_number: 5,
        job_id,
        nonce,
        ntime: 250,
        version: 0x2000_0000,
        extranonce,
    }
}

fn error_code(replies: Result<Vec<RouteMessageTo>, PoolError>) -> String {
    let mut messages = replies.unwrap();
    assert_eq!(messages.len(), 1);
    match messages.remove(0) {
        RouteMessageTo::Downstream { downstream_id: 4, message } => match message {
            MiningMessage::OpenMiningChannelError { request_id: 77, error_code } => error_code,
            MiningMessage::SubmitSharesError { channel_id: 10, sequence_number: 5, error_code } => {
                error_code
            }
            MiningMessage::UpdateChannelError { channel_id: 10, error_code } => error_code,
            MiningMessage::SetCustomMiningJobError { request_id: 77, channel_id: 10, error_code } => {
                error_code
            }
            other => panic!("{other:?}"),
        },
        other => panic!("{other:?}"),
    }
}

fn job_id(messages: &[RouteMessageTo]) -> u32 {
    messages
        .iter()
        .find_map(|message| match message {
            RouteMessageTo::Downstream {
                message: MiningMessage::SetNewPrevHash { job_id, .. },
                ..
            } => Some(*job_id),
            _ => None,
        })
        .unwrap()
}

#[test]
fn standard_channels_open() {
    let mut manager = manager("1d00ffff", true);
    let mut downstream = downstream();
    let messages = open_standard(&mut manager, &mut downstream, "rig").unwrap();
    assert_eq!(messages.len(), 3);
    let RouteMessageTo::Downstream { downstream_id: 4, message: MiningMessage::OpenStandardMiningChannelSuccess {
        request_id, channel_id, target, extranonce_prefix, group_channel_id,
    } } = &messages[0] else {
        panic!("not opened");
    };
    assert_eq!((*request_id, *channel_id, *group_channel_id), (77, 10, 1));
    let channel = &downstream.standard_channels[&10];
    assert_eq!(*target, channel.get_target().to_le_bytes());
    assert_eq!(extranonce_prefix.as_slice(), channel.get_extranonce_prefix());
    assert_eq!(extranonce_prefix.len(), usize::from(EXTRANONCE));
    let RouteMessageTo::Downstream { message: MiningMessage::NewMiningJob { job }, .. } = &messages[1] else {
        panic!("no job");
    };
    assert_eq!(job.channel_id, 10);
    let RouteMessageTo::Downstream { message: MiningMessage::SetNewPrevHash {
        channel_id: 10, job_id, prev_hash, min_ntime: 200, nbits: 0x1d00_ffff,
    }, .. } = &messages[2] else {
        panic!("no tip");
    };
    assert_eq!(*job_id, job.job_id);
    assert_eq!(*prev_hash, template("1d00ffff").prev_hash);
    assert_eq!(channel.get_active_job().unwrap().get_job_id(), *job_id);
    assert!(downstream.group_channel.has_channel_id(10));
    assert_eq!(downstream.next_channel_id, 11);
    assert_eq!(manager.gridpool_channels.len(), 1);
    assert_eq!(manager.gridpool_channels.values().next().unwrap().payout_address, FALLBACK);
    assert_eq!(manager.vardiff.len(), 1);
    let outputs = channel.get_active_job().unwrap().get_coinbase_outputs();
    assert_eq!(outputs[0].value.to_sat(), 4_900);
    assert_eq!(outputs[1].value.to_sat(), 100);
    assert_eq!(outputs[2].value.to_sat(), 0);
}

#[test]
fn standard_channels_are_refused() {
    let mut custom = downstream();
    custom.requires_custom_work = true;
    assert_eq!(
        error_code(open_standard(&mut manager("1d00ffff", true), &mut custom, "rig")),
        "standard-channels-not-supported-for-custom-work"
    );
    let mut no_template = manager("1d00ffff", true);
    no_template.last_future_template = None;
    assert!(matches!(
        open_standard(&mut no_template, &mut downstream(), "rig"),
        Err(PoolError::Disconnect { downstream_id: 4, kind: PoolErrorKind::FutureTemplateNotPresent })
    ));
    let mut no_tip = manager("1d00ffff", true);
    no_tip.last_new_prev_hash = None;
    assert!(matches!(
        open_standard(&mut no_tip, &mut downstream(), "rig"),
        Err(PoolError::Disconnect { downstream_id: 4, kind: PoolErrorKind::LastNewPrevhashNotFound })
    ));
    let mut kept = downstream();
    for identity in ["bc1qnotarealaddress", "sri/unknown/pattern"] {
        assert_eq!(
            error_code(open_standard(&mut manager("1d00ffff", true), &mut kept, identity)),
            "invalid-user-identity"
        );
    }
    assert_eq!(kept.next_channel_id, 10);
    assert!(kept.payout_mode.is_none());
    let mut poor = manager("1d00ffff", true);
    poor.last_future_template.as_mut().unwrap().coinbase_tx_value_remaining = 99;
    assert!(matches!(
        open_standard(&mut poor, &mut downstream(), "rig"),
        Err(PoolError::Disconnect { kind: PoolErrorKind::Configuration { message }, .. })
            if message == "GridPool payout suffix exceeds available coinbase value"
    ));
}

#[test]
fn channels_that_cannot_be_made_are_answered() {
    let mut manager = manager("1d00ffff", true);
    let mut downstream = downstream();
    let ticket = || OpenTicket {
        request_id: 77,
        channel_id: 10,
        user_identity: "rig".into(),
        payout: None,
        mode: PayoutMode::FullDonation,
    };
    let refused = OpenFault::Refused { code: "invalid-nominal-hashrate".into() };
    assert_eq!(
        error_code(manager.finish_open_standard(&mut downstream, ticket(), &Vec::new(), Err(refused.clone()))),
        "invalid-nominal-hashrate"
    );
    assert_eq!(
        error_code(manager.finish_open_extended(&mut downstream, ticket(), Err(refused))),
        "invalid-nominal-hashrate"
    );
    let other = OpenFault::Other { message: "ScriptSigSizeTooLarge".into() };
    assert!(matches!(
        manager.finish_open_standard(&mut downstream, ticket(), &Vec::new(), Err(other.clone())),
        Err(PoolError::Disconnect { downstream_id: 4, kind: PoolErrorKind::ChannelErrorSender })
    ));
    assert!(matches!(
        manager.finish_open_extended(&mut downstream, ticket(), Err(other)),
        Err(PoolError::Disconnect { kind: PoolErrorKind::Channel { message }, .. })
            if message == "ScriptSigSizeTooLarge"
    ));
    assert!(manager.vardiff.is_empty());
}

#[test]
fn a_lack_of_extranonces_ends_the_pool() {
    let mut downstream = downstream();
    let step = issue_ticket(
        &mut downstream,
        77,
        "rig".into(),
        None,
        PayoutMode::FullDonation,
        Vec::new(),
        Err("none left".into()),
    );
    assert!(matches!(
        step,
        OpenStep::Reply { replies: Err(PoolError::Shutdown { kind: PoolErrorKind::Extranonce { message } }) }
            if message == "none left"
    ));
    assert_eq!(downstream.next_channel_id, 10);
    assert!(matches!(downstream.payout_mode, Some(PayoutMode::FullDonation)));
    let mut tiny = ExtranonceAllocator::new(Vec::new(), EXTRANONCE, 1).unwrap();
    let manager = manager("1d00ffff", false);
    let first = manager.open_standard(&mut downstream, &mut tiny, &request("rig"));
    assert!(matches!(first, OpenStep::Create { .. }));
    let second = manager.open_standard(&mut downstream, &mut tiny, &request("rig"));
    assert!(matches!(
        second,
        OpenStep::Reply { replies: Err(PoolError::Shutdown { kind: PoolErrorKind::Extranonce { .. } }) }
    ));
}

#[test]
fn templates_that_do_not_fit_end_the_pool() {
    let mut manager = manager("1d00ffff", false);
    let mut downstream = downstream();
    let mut allocator = allocator();
    let step = manager.open_standard_at(&mut downstream, &mut allocator, &request("rig"), 0);
    let OpenStep::Create { ticket, prefix, .. } = step else {
        panic!("refused");
    };
    let channel = StandardChannel::new_for_pool(
        10, "rig".into(), prefix, easy(), 0.5, 2, 60.0, TAG.into(),
    )
    .unwrap();
    let wrong = vec![TxOut { value: 1, script_pubkey: vec![0x51] }];
    assert!(matches!(
        manager.finish_open_standard(&mut downstream, ticket, &wrong, Ok(channel)),
        Err(PoolError::Shutdown { kind: PoolErrorKind::Channel { message } })
            if message.contains("InvalidCoinbaseOutputsSum")
    ));
    assert!(downstream.standard_channels.is_empty());
}

#[test]
fn channels_have_to_fit_their_group() {
    let mut manager = manager("1d00ffff", false);
    let mut misfit = downstream();
    misfit.group_channel = GroupChannel::new_for_pool(1, 8, TAG.into()).unwrap();
    assert!(matches!(
        open_standard(&mut manager, &mut misfit, "rig"),
        Err(PoolError::Shutdown { kind: PoolErrorKind::Group })
    ));
    assert!(misfit.group_channel.has_channel_id(10));
    let mut alone = downstream();
    alone.group_channel = GroupChannel::new_for_pool(1, 8, TAG.into()).unwrap();
    alone.requires_standard_jobs = true;
    assert!(open_standard(&mut manager, &mut alone, "rig").is_ok());
    assert!(!alone.group_channel.has_channel_id(10));
}

#[test]
fn extended_channels_open() {
    let mut manager = manager("1d00ffff", true);
    let mut downstream = downstream();
    let messages = open_extended(&mut manager, &mut downstream, "rig", 4).unwrap();
    assert_eq!(messages.len(), 3);
    let RouteMessageTo::Downstream { message: MiningMessage::OpenExtendedMiningChannelSuccess {
        request_id: 77, channel_id: 10, extranonce_prefix, extranonce_size, group_channel_id: 1, ..
    }, .. } = &messages[0] else {
        panic!("not opened");
    };
    assert_eq!(extranonce_prefix.len() + usize::from(*extranonce_size), usize::from(EXTRANONCE));
    let RouteMessageTo::Downstream { message: MiningMessage::NewExtendedMiningJob { job }, .. } = &messages[1] else {
        panic!("no job");
    };
    assert_eq!(job.job_id, job_id(&messages));
    assert!(downstream.group_channel.has_channel_id(10));
    assert_eq!(manager.gridpool_channels.len(), 1);
    assert_eq!(manager.vardiff.len(), 1);
    let channel = &downstream.extended_channels[&10];
    assert_eq!(channel.get_active_job().unwrap().get_coinbase_outputs()[0].value.to_sat(), 4_900);
}

#[test]
fn extended_channels_are_refused() {
    let mut standard = downstream();
    standard.requires_standard_jobs = true;
    assert_eq!(
        error_code(open_extended(&mut manager("1d00ffff", true), &mut standard, "rig", 4)),
        "extended-channels-not-supported-for-standard-jobs"
    );
    assert_eq!(
        error_code(open_extended(&mut manager("1d00ffff", true), &mut downstream(), "bc1qnotarealaddress", 30)),
        "min-extranonce-size-too-large"
    );
    assert_eq!(
        error_code(open_extended(&mut manager("1d00ffff", true), &mut downstream(), "bc1qnotarealaddress", 4)),
        "invalid-user-identity"
    );
    let mut no_tip = manager("1d00ffff", true);
    no_tip.last_new_prev_hash = None;
    no_tip.last_future_template = None;
    let mut kept = downstream();
    assert!(matches!(
        open_extended(&mut no_tip, &mut kept, "rig", 4),
        Err(PoolError::Disconnect { kind: PoolErrorKind::LastNewPrevhashNotFound, .. })
    ));
    assert_eq!(no_tip.gridpool_channels.len(), 1);
    assert!(kept.extended_channels.is_empty());
    let mut no_template = manager("1d00ffff", true);
    no_template.last_future_template = None;
    assert!(matches!(
        open_extended(&mut no_template, &mut downstream(), "rig", 4),
        Err(PoolError::Disconnect { kind: PoolErrorKind::FutureTemplateNotPresent, .. })
    ));
}

#[test]
fn miners_with_their_own_jobs_get_none() {
    let mut manager = manager("1d00ffff", false);
    let mut downstream = downstream();
    downstream.requires_custom_work = true;
    let messages = open_extended(&mut manager, &mut downstream, "rig", 4).unwrap();
    assert_eq!(messages.len(), 1);
    let channel = &downstream.extended_channels[&10];
    assert!(channel.get_active_job().is_none());
    assert!(channel.get_chain_tip().is_some());
    assert!(!downstream.group_channel.has_channel_id(10));
}

#[test]
fn identities_that_are_no_text_are_shown_in_hexadecimal() {
    let manager = manager("1d00ffff", false);
    let mut downstream = downstream();
    let bytes = OpenRequest { request_id: 77, user_identity: vec![0xff, 0x01] };
    let (step, fault) = manager.open_extended(&mut downstream, &mut allocator(), &bytes, 4);
    assert!(fault.is_none());
    assert!(matches!(
        step,
        OpenStep::Create { ticket, .. } if ticket.user_identity == "0xff01"
    ));
}

#[test]
fn payout_modes_come_from_the_identity() {
    let manager = manager("1d00ffff", false);
    let (payout, mode) = manager.identify("rig").unwrap();
    assert!(payout.is_none());
    assert!(matches!(mode, PayoutMode::FullDonation));
    let (_, solo) = manager.identify(&format!("sri/solo/{FALLBACK}/rig")).unwrap();
    let outputs = manager.outputs_for(&None, &solo, 1_000, 0).unwrap();
    assert_eq!(outputs.len(), 1);
    assert_eq!(hex::encode(&outputs[0].script_pubkey), FALLBACK_SCRIPT);
    let (_, legacy) = manager.identify(&format!("{FALLBACK}.rig")).unwrap();
    assert!(matches!(legacy, PayoutMode::Solo { .. }));
    let (_, donate) = manager.identify(&format!("sri/donate/15/{FALLBACK}/rig")).unwrap();
    let outputs = manager.outputs_for(&None, &donate, 1_009, 0).unwrap();
    assert_eq!(outputs[0], TxOut { value: 151, script_pubkey: vec![0x51] });
    assert_eq!(outputs[1].value, 858);
    assert!(manager.identify("sri/donate/100/x/rig").is_none());
    assert!(manager.identify("sri/solo/nonsense/rig").is_none());
    let most = manager.outputs_for(&None, &donate, u64::MAX, 0).unwrap();
    assert_eq!(most[0].value as u128 + most[1].value as u128, u64::MAX as u128);
}

#[test]
fn good_shares_are_counted_and_proved() {
    let mut manager = manager("1d00ffff", true);
    let mut downstream = downstream();
    let job = job_id(&open_standard(&mut manager, &mut downstream, "rig").unwrap());
    assert!(manager.can_take_standard_share(&downstream, 10));
    let adjusted = manager.vardiff.values().next().unwrap().timestamp_of_last_update;
    let share = standard_share(job, 1);
    let answer = manager.handle_submit_shares_standard_at(&mut downstream, &share, 1_000, 1);
    assert!(answer.replies.unwrap().is_empty());
    let evidence = answer.proof.unwrap();
    assert_eq!(evidence.miner_address, FALLBACK);
    assert_eq!(evidence.username, "rig");
    assert_eq!(evidence.prev_block_hash.as_deref(), Some(TIP));
    assert!(evidence.payout_snapshot_id.is_none());
    let header: Header = deserialize(&hex::decode(&evidence.header_hex).unwrap()).unwrap();
    let coinbase: Transaction = deserialize(&hex::decode(&evidence.coinbase_hex).unwrap()).unwrap();
    assert_eq!(header.nonce, 1);
    assert_eq!(header.time, 250);
    assert_eq!(header.merkle_root.to_byte_array(), coinbase.compute_txid().to_byte_array());
    assert!(evidence.merkle_path.is_empty());
    let reached = Target::from_le_bytes(header.block_hash().to_byte_array()).difficulty_float();
    assert_eq!(f64::from_bits(evidence.difficulty.bits), reached);
    let second = manager.handle_submit_shares_standard(&mut downstream, &standard_share(job, 2));
    let replies = second.replies.unwrap();
    assert!(matches!(
        replies[0],
        RouteMessageTo::Downstream { message: MiningMessage::SubmitSharesSuccess {
            channel_id: 10, last_sequence_number: 5, new_submits_accepted_count: 2, ..
        }, .. }
    ));
    let again = manager.handle_submit_shares_standard_at(&mut downstream, &share, 2_000, 2);
    assert_eq!(error_code(again.replies), "duplicate-share");
    assert!(again.proof.is_none());
    let state = manager.vardiff.values().next().unwrap();
    assert_eq!(state.shares_since_last_update, 3);
    assert_eq!(state.timestamp_of_last_update, adjusted);
    let batch = manager.gridpool.as_mut().unwrap().flush_telemetry().unwrap();
    assert_eq!(batch.entries[0].accepted_share_count, 2);
    assert_eq!(batch.entries[0].rejected_share_count, 1);
    let target = downstream.standard_channels[&10].get_target().difficulty_float();
    assert_eq!(batch.entries[0].accepted_work[0], double(target));
}

#[test]
fn extended_shares_are_counted_and_proved() {
    let mut manager = manager("1d00ffff", true);
    let mut downstream = downstream();
    let job = job_id(&open_extended(&mut manager, &mut downstream, "rig", 4).unwrap());
    let size = downstream.extended_channels[&10].get_rollable_extranonce_size();
    let share = extended_share(job, 1, vec![9; usize::from(size)]);
    let answer = manager.handle_submit_shares_extended_at(&mut downstream, &share, 1_000, 1);
    assert!(answer.replies.unwrap().is_empty());
    let evidence = answer.proof.unwrap();
    let header: Header = deserialize(&hex::decode(&evidence.header_hex).unwrap()).unwrap();
    let coinbase: Transaction = deserialize(&hex::decode(&evidence.coinbase_hex).unwrap()).unwrap();
    assert_eq!(header.merkle_root.to_byte_array(), coinbase.compute_txid().to_byte_array());
    assert!(evidence.coinbase_hex.contains(&"09".repeat(usize::from(size))));
    let reached = Target::from_le_bytes(header.block_hash().to_byte_array()).difficulty_float();
    assert_eq!(f64::from_bits(evidence.difficulty.bits), reached);
    let active = downstream.extended_channels[&10].get_active_job().unwrap();
    assert_eq!(active.get_job_id(), job);
    let short = extended_share(job, 1, vec![9]);
    let refused = manager.handle_submit_shares_extended(&mut downstream, &short);
    assert_eq!(error_code(refused.replies), "bad-extranonce-size");
}

#[test]
fn found_blocks_go_to_the_template_provider() {
    let mut manager = manager("207fffff", true);
    manager.gridpool.as_mut().unwrap().work.minimum_difficulty_to_enter_reserve = double(f64::MAX);
    let mut downstream = downstream();
    let job = job_id(&open_standard(&mut manager, &mut downstream, "rig").unwrap());
    let found = (0..1_000).find_map(|nonce| {
        let share = standard_share(job, nonce);
        let answer = manager.handle_submit_shares_standard_at(&mut downstream, &share, 0, 0);
        let replies = answer.replies.unwrap();
        match replies.first() {
            Some(RouteMessageTo::TemplateProvider { .. }) => Some((nonce, answer.proof, replies)),
            _ => {
                assert!(answer.proof.is_none());
                None
            }
        }
    });
    let (nonce, evidence, replies) = found.unwrap();
    assert_eq!(replies.len(), 2);
    let RouteMessageTo::TemplateProvider { solution } = &replies[0] else {
        panic!("no solution");
    };
    assert_eq!(solution.header_nonce, nonce);
    assert_eq!(solution.template_id, 3);
    assert_eq!(hex::encode(&solution.coinbase_tx), evidence.unwrap().coinbase_hex);
    assert!(template("207fffff").solution_block(solution).is_ok());
    assert!(matches!(
        replies[1],
        RouteMessageTo::Downstream { message: MiningMessage::SubmitSharesSuccess { .. }, .. }
    ));
}

#[test]
fn extended_blocks_go_to_the_template_provider() {
    let mut manager = manager("207fffff", false);
    let mut downstream = downstream();
    let job = job_id(&open_extended(&mut manager, &mut downstream, "rig", 4).unwrap());
    let size = usize::from(downstream.extended_channels[&10].get_rollable_extranonce_size());
    let solution = (0..1_000)
        .find_map(|nonce| {
            let share = extended_share(job, nonce, vec![3; size]);
            let answer = manager.handle_submit_shares_extended_at(&mut downstream, &share, 0, 0);
            assert!(answer.proof.is_none());
            match answer.replies.unwrap().into_iter().next() {
                Some(RouteMessageTo::TemplateProvider { solution }) => Some(solution),
                _ => None,
            }
        })
        .unwrap();
    assert!(template("207fffff").solution_block(&solution).is_ok());
}

#[test]
fn shares_of_unknown_jobs_are_refused() {
    let mut manager = manager("1d00ffff", true);
    let mut downstream = downstream();
    open_standard(&mut manager, &mut downstream, "rig").unwrap();
    let answer = manager.handle_submit_shares_standard(&mut downstream, &standard_share(999, 1));
    assert_eq!(error_code(answer.replies), "invalid-job-id");
}

#[test]
fn closed_channels_are_forgotten() {
    let mut manager = manager("1d00ffff", true);
    let mut downstream = downstream();
    let job = job_id(&open_standard(&mut manager, &mut downstream, "rig").unwrap());
    manager.handle_close_channel(&mut downstream, 10);
    assert!(downstream.standard_channels.is_empty());
    assert!(!downstream.group_channel.has_channel_id(10));
    assert!(manager.vardiff.is_empty());
    assert!(manager.gridpool_channels.is_empty());
    let answer = manager.handle_submit_shares_standard(&mut downstream, &standard_share(job, 1));
    assert_eq!(error_code(answer.replies), "invalid-channel-id");
    let answer = manager.handle_submit_shares_extended(&mut downstream, &extended_share(job, 1, Vec::new()));
    assert_eq!(error_code(answer.replies), "invalid-channel-id");
    manager.handle_close_channel(&mut downstream, 10);
}

#[test]
fn channels_without_adjustment_are_closed() {
    let mut manager = manager("1d00ffff", true);
    let mut downstream = downstream();
    let job = job_id(&open_standard(&mut manager, &mut downstream, "rig").unwrap());
    manager.vardiff.clear();
    let answer = manager.handle_submit_shares_standard(&mut downstream, &standard_share(job, 1));
    assert!(matches!(
        &answer.replies.unwrap()[0],
        RouteMessageTo::Downstream { message: MiningMessage::CloseChannel { channel_id: 10, reason_code }, .. }
            if reason_code == "invalid-channel-id"
    ));
}

#[test]
fn other_channels_are_left_alone() {
    let mut manager = manager("1d00ffff", true);
    let mut downstream = downstream();
    let job = job_id(&open_standard(&mut manager, &mut downstream, "rig").unwrap());
    open_standard(&mut manager, &mut downstream, "rig").unwrap();
    manager.handle_submit_shares_standard(&mut downstream, &standard_share(job, 1));
    let mut counts: Vec<u32> =
        manager.vardiff.values().map(|state| state.shares_since_last_update).collect();
    counts.sort_unstable();
    assert_eq!(counts, vec![0, 1]);
    let accounting = downstream.standard_channels[&11].get_share_accounting();
    assert_eq!(accounting.get_shares_accepted(), 0);
}

#[test]
fn answers_follow_the_finding() {
    let head = ShareHead { channel_id: 10, sequence_number: 5, version: 1, ntime: 2, nonce: 3 };
    let accounting = Accounting {
        should_acknowledge: false,
        last_sequence_number: 8,
        last_batch_accepted: 3,
        last_batch_work_sum: 21,
    };
    let refused = |extended: bool, error: ShareValidationError| {
        reply_to_share(extended, 4, head, Err(error), accounting)
    };
    assert_eq!(error_code(refused(false, ShareValidationError::Invalid("a"))), "a");
    assert_eq!(error_code(refused(false, ShareValidationError::Stale("b"))), "b");
    assert_eq!(error_code(refused(false, ShareValidationError::InvalidJobId("c"))), "c");
    assert_eq!(error_code(refused(false, ShareValidationError::DoesNotMeetTarget("d"))), "d");
    assert_eq!(
        error_code(refused(false, ShareValidationError::VersionRollingNotAllowed("e"))),
        "e"
    );
    assert_eq!(error_code(refused(false, ShareValidationError::DuplicateShare("f"))), "f");
    assert_eq!(error_code(refused(true, ShareValidationError::BadExtranonceSize("g"))), "g");
    assert!(matches!(
        refused(false, ShareValidationError::BadExtranonceSize("g")),
        Err(PoolError::Disconnect {
            downstream_id: 4,
            kind: PoolErrorKind::ShareValidation { kind: ShareFaultKind::BadExtranonceSize },
        })
    ));
    assert!(matches!(
        refused(true, ShareValidationError::NoChainTip),
        Err(PoolError::Disconnect {
            kind: PoolErrorKind::ShareValidation { kind: ShareFaultKind::NoChainTip }, ..
        })
    ));
    assert!(matches!(
        refused(true, ShareValidationError::InvalidCoinbase),
        Err(PoolError::Disconnect {
            kind: PoolErrorKind::ShareValidation { kind: ShareFaultKind::InvalidCoinbase }, ..
        })
    ));
    let block = |template_id: Option<u64>, length: usize| ShareAccepted::BlockFound {
        hash: [0; 32],
        template_id,
        coinbase: vec![1; length],
    };
    let custom = reply_to_share(true, 4, head, Ok(block(None, 70_000)), accounting).unwrap();
    assert_eq!(custom.len(), 1);
    let long = reply_to_share(true, 4, head, Ok(block(Some(1), 70_000)), accounting);
    assert!(matches!(
        long,
        Err(PoolError::Shutdown { kind: PoolErrorKind::FieldTooLong })
    ));
    let found = reply_to_share(true, 4, head, Ok(block(Some(1), 65_535)), accounting).unwrap();
    assert!(matches!(
        &found[0],
        RouteMessageTo::TemplateProvider { solution }
            if solution.version == 1 && solution.header_timestamp == 2 && solution.header_nonce == 3
    ));
    assert!(matches!(
        found[1],
        RouteMessageTo::Downstream { message: MiningMessage::SubmitSharesSuccess {
            channel_id: 10,
            last_sequence_number: 8,
            new_submits_accepted_count: 3,
            new_shares_sum: 21,
        }, .. }
    ));
}

#[test]
fn updates_are_answered_with_the_target() {
    let mut manager = manager("1d00ffff", false);
    let mut downstream = downstream();
    assert_eq!(
        error_code(Ok(handle_update_channel(&downstream, 10, None))),
        "invalid-channel-id"
    );
    open_standard(&mut manager, &mut downstream, "rig").unwrap();
    open_extended(&mut manager, &mut downstream, "rig", 4).unwrap();
    let channel = downstream.standard_channels.get_mut(&10).unwrap();
    channel.update_channel(1_000_000.0, Some(easy())).unwrap();
    let target = channel.get_target().to_le_bytes();
    let messages = handle_update_channel(&downstream, 10, None);
    assert_eq!(messages.len(), 1);
    assert!(matches!(
        messages[0],
        RouteMessageTo::Downstream { message: MiningMessage::SetTarget { channel_id: 10, maximum_target }, .. }
            if maximum_target == target
    ));
    let target = downstream.extended_channels[&11].get_target().to_le_bytes();
    let messages = handle_update_channel(&downstream, 11, Some("invalid-nominal-hashrate".into()));
    assert_eq!(messages.len(), 2);
    assert!(matches!(
        &messages[0],
        RouteMessageTo::Downstream { message: MiningMessage::UpdateChannelError { channel_id: 11, error_code }, .. }
            if error_code == "invalid-nominal-hashrate"
    ));
    assert!(matches!(
        messages[1],
        RouteMessageTo::Downstream { message: MiningMessage::SetTarget { maximum_target, .. }, .. }
            if maximum_target == target
    ));
}

fn custom_job(outputs: Vec<u8>) -> CustomJobRequest {
    let job = SetCustomMiningJob {
        channel_id: 10,
        request_id: 77,
        token: vec![1].try_into().unwrap(),
        version: 0x2000_0000,
        prev_hash: [4; 32].into(),
        min_ntime: 300,
        nbits: 0x1d00_ffff,
        coinbase_tx_version: 2,
        coinbase_prefix: vec![1, 1].try_into().unwrap(),
        coinbase_tx_input_n_sequence: u32::MAX,
        coinbase_tx_outputs: outputs.try_into().unwrap(),
        coinbase_tx_locktime: 0,
        merkle_path: Vec::new().try_into().unwrap(),
    };
    CustomJobRequest { request_id: 77, channel_id: 10, job }
}

#[test]
fn custom_jobs_are_committed() {
    let mut manager = manager("1d00ffff", false);
    let mut downstream = downstream();
    assert_eq!(
        error_code(handle_set_custom_mining_job(&mut downstream, custom_job(vec![0]), DeclaratorVerdict::Absent)),
        "jd-not-supported"
    );
    assert_eq!(
        error_code(handle_set_custom_mining_job(&mut downstream, custom_job(vec![0]), DeclaratorVerdict::Validated)),
        "invalid-channel-id"
    );
    downstream.requires_custom_work = true;
    open_extended(&mut manager, &mut downstream, "rig", 4).unwrap();
    let refusal = DeclaratorVerdict::Refused {
        request_id: 77,
        channel_id: 10,
        error_code: "stale-chain-tip".into(),
    };
    assert_eq!(
        error_code(handle_set_custom_mining_job(&mut downstream, custom_job(vec![0]), refusal)),
        "stale-chain-tip"
    );
    assert!(downstream.extended_channels[&10].get_active_job().is_none());
    assert_eq!(downstream.last_job_ids[&10], 0);
    let broken = handle_set_custom_mining_job(&mut downstream, custom_job(vec![9, 9]), DeclaratorVerdict::Validated);
    assert!(matches!(
        broken,
        Err(PoolError::Disconnect { downstream_id: 4, kind: PoolErrorKind::Channel { .. } })
    ));
    assert_eq!(downstream.last_job_ids[&10], 1);
    assert!(downstream.can_take_job(10));
    let outputs = vec![1, 5, 0, 0, 0, 0, 0, 0, 0, 1, 0x51];
    let messages = handle_set_custom_mining_job(&mut downstream, custom_job(outputs), DeclaratorVerdict::Validated).unwrap();
    let job = downstream.extended_channels[&10].get_active_job().unwrap().get_job_id();
    assert!(matches!(
        messages[0],
        RouteMessageTo::Downstream { message: MiningMessage::SetCustomMiningJobSuccess {
            channel_id: 10, request_id: 77, job_id,
        }, .. } if job_id == job
    ));
    assert_eq!(job, 1);
    assert_eq!(downstream.last_job_ids[&10], 1);
    let outputs = vec![1, 6, 0, 0, 0, 0, 0, 0, 0, 1, 0x51];
    handle_set_custom_mining_job(&mut downstream, custom_job(outputs), DeclaratorVerdict::Validated).unwrap();
    assert_eq!(downstream.extended_channels[&10].get_active_job().unwrap().get_job_id(), 2);
    assert_eq!(downstream.last_job_ids[&10], 2);
    downstream.last_job_ids.insert(10, u32::MAX);
    assert!(!downstream.can_take_job(10));
    assert!(downstream.can_take_job(11));
}

#[test]
fn jobs_that_are_not_validated_are_refused_without_a_connection() {
    let absent = refuse_custom_job(4, 77, 10, DeclaratorVerdict::Absent).unwrap();
    assert_eq!(error_code(Ok(absent)), "jd-not-supported");
    let verdict = DeclaratorVerdict::Refused {
        request_id: 78,
        channel_id: 11,
        error_code: "stale-chain-tip".into(),
    };
    let refused = refuse_custom_job(4, 77, 10, verdict).unwrap();
    assert_eq!(refused.len(), 1);
    assert!(matches!(
        &refused[0],
        RouteMessageTo::Downstream { downstream_id: 4, message: MiningMessage::SetCustomMiningJobError {
            request_id: 78, channel_id: 11, error_code,
        } } if error_code == "stale-chain-tip"
    ));
    assert!(refuse_custom_job(4, 77, 10, DeclaratorVerdict::Validated).is_none());
}

#[test]
fn prefixes_are_as_long_as_their_channels_need() {
    let manager = manager("1d00ffff", false);
    let mut allocator = allocator();
    let rollable = usize::from(allocator.rollable_extranonce_size());
    let step = manager.open_standard(&mut downstream(), &mut allocator, &request("rig"));
    assert!(matches!(
        step,
        OpenStep::Create { prefix, .. } if prefix.len() == usize::from(EXTRANONCE)
    ));
    let (step, _) = manager.open_extended(&mut downstream(), &mut allocator, &request("rig"), 4);
    assert!(matches!(
        step,
        OpenStep::Create { prefix, .. } if prefix.len() + rollable == usize::from(EXTRANONCE)
    ));
}

#[test]
fn miners_are_told_why_there_is_no_prefix() {
    let manager = manager("1d00ffff", false);
    let mut small = ExtranonceAllocator::new(vec![7, 7], EXTRANONCE, 1).unwrap();
    let rollable = u16::from(small.rollable_extranonce_size());
    let (step, fault) =
        manager.open_extended(&mut downstream(), &mut small, &request("rig"), rollable + 1);
    assert_eq!(fault, Some(AllocationFault::RollableTooLarge));
    assert!(matches!(step, OpenStep::Reply { .. }));
    assert_eq!(small.allocated_count(), 0);
    let (kept, fault) =
        manager.open_extended(&mut downstream(), &mut small, &request("rig"), rollable);
    assert_eq!(fault, None);
    assert!(matches!(kept, OpenStep::Create { .. }));
    let (step, fault) = manager.open_extended(&mut downstream(), &mut small, &request("rig"), 0);
    assert_eq!(fault, Some(AllocationFault::Exhausted));
    let OpenStep::Reply { replies } = step else {
        panic!("no refusal");
    };
    assert_eq!(error_code(replies), "min-extranonce-size-too-large");
    let mut standard = downstream();
    standard.requires_standard_jobs = true;
    let (_, fault) = manager.open_extended(&mut standard, &mut small, &request("rig"), 99);
    assert_eq!(fault, None);
}

#[test]
fn shares_need_room_to_be_counted() {
    let some = ShareCounts {
        accepted: 1,
        batch: 2,
        blocks: 3,
        stale: 4,
        unknown_job: 5,
        duplicate: 6,
        too_easy: 7,
        bad_extranonce: 8,
        version_rolled: 9,
    };
    assert!(some.can_count_standard());
    assert!(some.can_count_extended());
    let full = ShareCounts { version_rolled: u32::MAX, ..some };
    assert!(full.can_count_standard());
    assert!(!full.can_count_extended());
    assert!(!ShareCounts { accepted: u32::MAX, ..some }.can_count_standard());
    assert!(!ShareCounts { duplicate: u32::MAX, ..some }.can_count_extended());
    let mut manager = manager("1d00ffff", false);
    let mut downstream = downstream();
    assert!(manager.can_take_extended_share(&downstream, 10));
    open_extended(&mut manager, &mut downstream, "rig", 4).unwrap();
    assert_eq!(downstream.last_job_ids[&10], 1);
    assert!(manager.can_take_extended_share(&downstream, 10));
    manager.vardiff.values_mut().next().unwrap().shares_since_last_update = u32::MAX;
    assert!(!manager.can_take_extended_share(&downstream, 10));
}

#[test]
fn workers_are_named_by_the_extension() {
    let field = |extension_type: u16, field_type: u8| ExtensionField {
        extension_type,
        field_type,
        value: Vec::new(),
    };
    let fields = vec![field(2, 2), field(1, 1), field(2, 1), field(2, 1)];
    assert_eq!(worker_field(&vec![1, 2], &fields), Some(2));
    assert_eq!(worker_field(&vec![1, 3], &fields), None);
    assert_eq!(worker_field(&vec![2], &fields[..2].to_vec()), None);
}

fn job_parts() -> StandardJobParts {
    StandardJobParts {
        job_id: 1,
        coinbase_prefix: vec![3, 0x40, 0xd1, 0x0c],
        coinbase_tx_version: 2,
        coinbase_tx_input_sequence: u32::MAX,
        coinbase_tx_locktime: 0,
        merkle_path: vec![[1; 32], [2; 32]],
        extranonce_prefix: vec![0xaa; 5],
        coinbase_outputs: vec![TxOut { value: 7, script_pubkey: vec![0x51] }],
        merkle_root: [3; 32],
    }
}

fn payout() -> ChannelPayout {
    ChannelPayout { payout_address: "address".into(), username: "rig".into() }
}

#[test]
fn standard_coinbases_hold_the_tag() {
    let tip = ChannelTip { prev_hash: [5; 32], nbits: 0x1d00_ffff };
    let evidence =
        prove_standard("tag", &job_parts(), tip, &standard_share(1, 9), &payout(), double(2.0)).unwrap();
    let coinbase: Transaction = deserialize(&hex::decode(&evidence.coinbase_hex).unwrap()).unwrap();
    let mut script = vec![3, 0x40, 0xd1, 0x0c, 6];
    script.extend(b"/tag//");
    script.push(5);
    script.extend([0xaa; 5]);
    assert_eq!(coinbase.input[0].script_sig.to_bytes(), script);
    assert_eq!(coinbase.input[0].witness.to_vec(), vec![vec![0; 32]]);
    assert_eq!(coinbase.output[0].value.to_sat(), 7);
    assert!(coinbase.is_coinbase());
    assert_eq!(evidence.merkle_path, vec![hex::encode([1; 32]), hex::encode([2; 32])]);
    let header: Header = deserialize(&hex::decode(&evidence.header_hex).unwrap()).unwrap();
    assert_eq!(header.merkle_root.to_byte_array(), [3; 32]);
    assert_eq!(evidence.prev_block_hash, Some(header.prev_blockhash.to_string()));
    let longest = "x".repeat(58);
    assert!(prove_standard(&longest, &job_parts(), tip, &standard_share(1, 9), &payout(), double(2.0)).is_some());
    let too_long = "x".repeat(59);
    assert!(prove_standard(&too_long, &job_parts(), tip, &standard_share(1, 9), &payout(), double(2.0)).is_none());
}

#[test]
fn extended_headers_follow_their_coinbase() {
    let tip = ChannelTip { prev_hash: [5; 32], nbits: 0x1d00_ffff };
    let job = gridpool::channel::ExtendedJobParts {
        job_id: 1,
        extranonce_prefix: vec![2],
        coinbase_tx_prefix: vec![1],
        coinbase_tx_suffix: vec![4],
        merkle_path: vec![[1; 32], [2; 32]],
        coinbase_outputs: Vec::new(),
    };
    let share = extended_share(1, 9, vec![3]);
    let read = gridpool::block::DecodedTransaction {
        txid: [6; 32],
        wtxid: [7; 32],
        encoding: Vec::new(),
    };
    let evidence = prove_extended(&job, tip, &share, Ok(read), &payout(), double(2.0)).unwrap();
    assert_eq!(evidence.coinbase_hex, "01020304");
    let header: Header = deserialize(&hex::decode(&evidence.header_hex).unwrap()).unwrap();
    assert_eq!(
        header.merkle_root.to_byte_array(),
        apply_merkle_path([6; 32], &job.merkle_path)
    );
    assert!(prove_extended(&job, tip, &share, Err("broken".into()), &payout(), double(2.0)).is_none());
}

#[test]
fn answers_are_the_same_without_the_adapter() {
    let mut with = manager("207fffff", true);
    let mut without = manager("207fffff", false);
    with.gridpool.as_mut().unwrap().work.coinbase_outputs.clear();
    without.coinbase_reward_script = hex::decode(FALLBACK_SCRIPT).unwrap();
    let mut first = downstream();
    let mut second = downstream();
    let job = job_id(&open_standard(&mut with, &mut first, "rig").unwrap());
    assert_eq!(job, job_id(&open_standard(&mut without, &mut second, "rig").unwrap()));
    for nonce in 0..20 {
        let share = standard_share(job, nonce);
        let a = with.handle_submit_shares_standard_at(&mut first, &share, 0, 0);
        let b = without.handle_submit_shares_standard_at(&mut second, &share, 0, 0);
        assert_eq!(format!("{:?}", a.replies), format!("{:?}", b.replies));
        assert!(a.proof.is_some());
        assert!(b.proof.is_none());
    }
}

#[test]
fn closing_undoes_opening() {
    let mut manager = manager("1d00ffff", true);
    let mut downstream = downstream();
    open_extended(&mut manager, &mut downstream, "rig", 4).unwrap();
    open_standard(&mut manager, &mut downstream, "rig").unwrap();
    manager.handle_close_channel(&mut downstream, 11);
    assert!(downstream.standard_channels.is_empty());
    assert!(downstream.extended_channels.contains_key(&10));
    assert!(downstream.group_channel.has_channel_id(10));
    assert!(!downstream.group_channel.has_channel_id(11));
    assert_eq!(manager.vardiff.len(), 1);
    assert_eq!(manager.gridpool_channels.len(), 1);
    manager.handle_close_channel(&mut downstream, 10);
    assert!(downstream.extended_channels.is_empty());
    assert!(manager.vardiff.is_empty());
    assert!(manager.gridpool_channels.is_empty());
    assert_eq!(downstream.group_channel.get_group_channel_id(), 1);
}

#[test]
fn channels_have_a_kind() {
    let mut manager = manager("1d00ffff", false);
    let mut downstream = downstream();
    open_standard(&mut manager, &mut downstream, "rig").unwrap();
    open_extended(&mut manager, &mut downstream, "rig", 4).unwrap();
    assert_eq!(channel_kind(&downstream, 10), Some(ChannelKind::Standard));
    assert_eq!(channel_kind(&downstream, 11), Some(ChannelKind::Extended));
    assert_eq!(channel_kind(&downstream, 12), None);
}

#[test]
fn extended_channels_follow_their_prefix() {
    let manager = manager("1d00ffff", false);
    let mut downstream = downstream();
    let refused = manager.open_extended_with(&mut downstream, &request("rig"), None);
    let OpenStep::Reply { replies } = refused else {
        panic!("admitted");
    };
    assert_eq!(error_code(replies), "min-extranonce-size-too-large");
    assert_eq!(downstream.next_channel_id, 10);
    let prefix = allocator().allocate_extended(4).unwrap();
    let step = manager.open_extended_with(&mut downstream, &request("rig"), Some(prefix));
    assert!(matches!(
        step,
        OpenStep::Create { ticket, .. } if ticket.channel_id == 10 && ticket.user_identity == "rig"
    ));
    assert_eq!(downstream.next_channel_id, 11);
}

#[test]
fn difficulty_is_adjusted_from_a_state() {
    let mut manager = manager("1d00ffff", false);
    assert!(matches!(
        manager.start_adjusting(7, None, Vec::new()),
        Err(PoolError::Shutdown { kind: PoolErrorKind::Vardiff })
    ));
    assert!(manager.vardiff.is_empty());
    let state = VardiffState::new().unwrap();
    assert!(manager.start_adjusting(7, Some(state), Vec::new()).unwrap().is_empty());
    assert_eq!(manager.vardiff[&7].shares_since_last_update, 0);
}

#[test]
fn fee_jobs_are_counted_as_fee_work() {
    const OPERATOR: &str = "bc1qce93hy5rhg02s6aeu7mfdvxg76x66pqqtrvzs3";
    let mut manager = manager("1d00ffff", true);
    let adapter = manager.gridpool.as_mut().unwrap();
    adapter.config.operator_fee_address = Some(OPERATOR.into());
    adapter.config.operator_fee_percent = double(100.0);
    adapter.config.operator_fee_seconds = 1_500;
    let mut downstream = downstream();
    let job = job_id(&open_extended(&mut manager, &mut downstream, "rig", 4).unwrap());
    let size = usize::from(downstream.extended_channels[&10].get_rollable_extranonce_size());
    let share = extended_share(job, 1, vec![1; size]);
    manager.handle_submit_shares_extended(&mut downstream, &share);
    let batch = manager.gridpool.as_mut().unwrap().flush_telemetry().unwrap();
    assert_eq!(batch.entries[0].accepted_work.len(), 1);
    assert_eq!(batch.entries[0].fee_work, batch.entries[0].accepted_work);
}
