use gridpool::address::{
    describe_address, looks_like_address, parse_address, parse_network, AddressFailure, Network,
};
use gridpool::calendar::iso8601_millis;
use gridpool::client::{
    adapter_token, assemble_outputs, assign_payout, fee_slice_open, first_output_pays,
    GridPoolClient, RefreshStep, TIP_POLLS,
};
use gridpool::clock::{now_millis, to_millis, to_seconds};
use gridpool::number::Double;
use gridpool::settings::{
    endpoint, proof_spool_dir, validate_config, GridPoolConfig, SpoolDirectory,
};
use gridpool::spool::{is_proof_file, next_action, proof_file_name, SpoolAction, SpoolEvent};
use gridpool::telemetry::{Telemetry, TelemetryDelta};
use gridpool::work::{
    ChannelPayout, GridPoolOutput, ShareAdvice, ShareSubmission, TxOut, WorkSelection,
};
use std::collections::HashMap;

const FALLBACK: &str = "bc1qrwsx8fs0l6z7ugp5cvzy6lhss7jlyru3kg9s8y";
const OPERATOR: &str = "bc1qce93hy5rhg02s6aeu7mfdvxg76x66pqqtrvzs3";
const FALLBACK_SCRIPT: &str = "00141ba063a60ffe85ee2034c3044d7ef087a5f20f91";

fn double(value: f64) -> Double {
    Double { bits: value.to_bits() }
}

fn config() -> GridPoolConfig {
    GridPoolConfig {
        node_url: "http://127.0.0.1:5000".into(),
        fallback_payout_address: FALLBACK.into(),
        operator_fee_address: Some(OPERATOR.into()),
        operator_fee_percent: double(2.0),
        operator_fee_seconds: (1_500.0_f64 * 2.0 / 100.0).round() as u64,
        adapter_token_file: "/tmp/gridpool-test.token".into(),
        proof_spool_dir: None,
        refresh_seconds: 10,
        telemetry_flush_seconds: 5,
        fee_cycle_seconds: 1_500,
    }
}

fn work() -> WorkSelection {
    WorkSelection {
        bitcoin_network: "mainnet".into(),
        active_snapshot_id: "snapshot".into(),
        current_tip_block_hash: None,
        minimum_difficulty_to_enter_reserve: double(100.0),
        coinbase_outputs: vec![GridPoolOutput {
            value: 100,
            script_pub_key_hex: FALLBACK_SCRIPT.into(),
        }],
    }
}

fn advice() -> ShareAdvice {
    ShareAdvice {
        pulse_proofs_enabled: true,
        minimum_pulse_difficulty: double(10.0),
        pulse_target_interval_seconds: 60,
    }
}

fn client() -> GridPoolClient {
    GridPoolClient {
        config: config(),
        token: "0123456789abcdef0123456789abcdef".into(),
        work: work(),
        advice: advice(),
        last_pulse: HashMap::new(),
        telemetry: Telemetry::new(),
    }
}

fn delta(accepted: bool, work: f64, achieved: f64, fee_work: bool) -> TelemetryDelta {
    TelemetryDelta {
        channel_id: 7,
        payout_address: FALLBACK.into(),
        username: "rig".into(),
        accepted,
        work_difficulty: double(work),
        achieved_difficulty: double(achieved),
        fee_work,
    }
}

#[test]
fn address_like_invalid_identity_fails_closed() {
    assert!(looks_like_address("bc1qnotarealaddress"));
    assert!(!looks_like_address("worker-01"));
}

#[test]
fn unix_epoch_format_is_rfc3339() {
    assert_eq!(iso8601_millis(0), "1970-01-01T00:00:00.000Z");
}

#[test]
fn worker_falls_back_but_address_errors_fail_closed() {
    let client = client();
    let fallback = client.resolve_channel("garage-rig").unwrap();
    assert_eq!(
        fallback.payout_address,
        client.config.fallback_payout_address
    );
    let explicit = client
        .resolve_channel("bc1qrwsx8fs0l6z7ugp5cvzy6lhss7jlyru3kg9s8y.worker")
        .unwrap();
    assert_eq!(
        explicit.payout_address,
        client.config.fallback_payout_address
    );
    assert!(client
        .resolve_channel("tb1qa0sm0hxzj0x25rh8gw5xlzwlsfvvyz8u96w3p8")
        .is_err());
    assert!(client.resolve_channel("bc1qnotarealaddress").is_err());
}

#[test]
fn payout_suffix_leaves_remainder_in_slot_zero() {
    let client = client();
    let payout = client.resolve_channel("garage-rig").unwrap();
    let outputs = client.coinbase_outputs(&payout, 1_000).unwrap();
    assert_eq!(outputs.len(), 2);
    assert_eq!(outputs[0].value, 900);
    assert_eq!(outputs[1].value, 100);
}

#[test]
fn two_percent_window_is_exactly_thirty_seconds_per_cycle() {
    let client = client();
    let active = (0..1_500)
        .filter(|second| client.fee_active(&client.config.fallback_payout_address, *second))
        .count();
    assert_eq!(active, 30);
}

#[test]
fn every_window_of_a_cycle_holds_the_fee_slice() {
    let client = client();
    for start in [1_u64, 777, 1_499, 1_700_000_000] {
        let active = (start..start + 1_500)
            .filter(|second| client.fee_active(FALLBACK, *second))
            .count();
        assert_eq!(active, 30);
    }
}

#[test]
fn fee_slices_of_addresses_are_staggered() {
    let client = client();
    let first = (0..1_500).find(|s| client.fee_active(FALLBACK, *s) && !client.fee_active(FALLBACK, *s + 1_499));
    let second = (0..1_500).find(|s| client.fee_active(OPERATOR, *s) && !client.fee_active(OPERATOR, *s + 1_499));
    assert_ne!(first, second);
}

#[test]
fn fee_slice_boundaries() {
    assert!(!fee_slice_open(99, 1_500, 100, 30));
    assert!(fee_slice_open(100, 1_500, 100, 30));
    assert!(fee_slice_open(129, 1_500, 100, 30));
    assert!(!fee_slice_open(130, 1_500, 100, 30));
    assert!(fee_slice_open(1_600, 1_500, 100, 30));
}

#[test]
fn no_fee_without_percentage_or_address() {
    let mut free = client();
    free.config.operator_fee_percent = double(0.0);
    assert!((0..1_500).all(|s| !free.fee_active(FALLBACK, s)));
    let mut nobody = client();
    nobody.config.operator_fee_address = None;
    assert!((0..1_500).all(|s| !nobody.fee_active(FALLBACK, s)));
}

#[test]
fn fee_slice_pays_the_operator() {
    let client = client();
    let payout = client.resolve_channel("garage-rig").unwrap();
    let on = (0..1_500).find(|s| client.fee_active(FALLBACK, *s)).unwrap();
    let off = (0..1_500).find(|s| !client.fee_active(FALLBACK, *s)).unwrap();
    let operator = parse_address(OPERATOR, "mainnet").unwrap();
    let fallback = parse_address(FALLBACK, "mainnet").unwrap();
    let fee = client.coinbase_outputs_at(&payout, 1_000, on).unwrap();
    assert_eq!(fee[0].script_pubkey, operator);
    assert!(client.is_fee_job(&fee, &payout));
    let own = client.coinbase_outputs_at(&payout, 1_000, off).unwrap();
    assert_eq!(own[0].script_pubkey, fallback);
    assert!(!client.is_fee_job(&own, &payout));
    let operator_payout = ChannelPayout {
        payout_address: OPERATOR.into(),
        username: String::new(),
    };
    assert!(!client.is_fee_job(&fee, &operator_payout));
    assert!(!client.is_fee_job(&[], &payout));
}

#[test]
fn identities_name_their_payout() {
    let client = client();
    let solo = client
        .resolve_channel(&format!("  sri/solo/{OPERATOR}/rig/extra \n"))
        .unwrap();
    assert_eq!(solo.payout_address, OPERATOR);
    assert_eq!(solo.username, format!("sri/solo/{OPERATOR}/rig/extra"));
    let empty = client.resolve_channel(" \t").unwrap();
    assert_eq!(empty.payout_address, FALLBACK);
    assert_eq!(empty.username, "sv2");
    let worker = client.resolve_channel(" rig.one ").unwrap();
    assert_eq!(worker.payout_address, FALLBACK);
    assert_eq!(worker.username, "rig.one");
}

#[test]
fn payouts_follow_the_reading_of_an_address() {
    let paid = assign_payout("1abc.rig", Ok(vec![1, 2]), "fallback").unwrap();
    assert_eq!(paid.payout_address, "1abc");
    assert_eq!(paid.username, "1abc.rig");
    assert_eq!(
        assign_payout("1abc.rig", Err("broken".into()), "fallback").unwrap_err(),
        "broken"
    );
    let worker = assign_payout("rig", Err("broken".into()), "fallback").unwrap();
    assert_eq!(worker.payout_address, "fallback");
}

#[test]
fn address_messages() {
    let wrong = parse_address("tb1qa0sm0hxzj0x25rh8gw5xlzwlsfvvyz8u96w3p8", "mainnet").unwrap_err();
    assert!(wrong.starts_with(
        "wrong-network payout address 'tb1qa0sm0hxzj0x25rh8gw5xlzwlsfvvyz8u96w3p8': "
    ));
    let broken = parse_address("bc1qnotarealaddress", "bitcoin").unwrap_err();
    assert!(broken.starts_with("invalid payout address 'bc1qnotarealaddress': "));
    assert_eq!(
        parse_address(FALLBACK, "litecoin").unwrap_err(),
        "unsupported Bitcoin network 'litecoin'"
    );
    assert_eq!(
        describe_address("x", Err(AddressFailure::Malformed("y".into()))).unwrap_err(),
        "invalid payout address 'x': y"
    );
}

#[test]
fn networks_have_several_names() {
    assert!(matches!(parse_network("MainNet"), Ok(Network::Bitcoin)));
    assert!(matches!(parse_network("bitcoin"), Ok(Network::Bitcoin)));
    assert!(matches!(parse_network("testnet3"), Ok(Network::Testnet)));
    assert!(matches!(parse_network("testnet4"), Ok(Network::Testnet4)));
    assert!(matches!(parse_network("signet"), Ok(Network::Signet)));
    assert!(matches!(parse_network("REGTEST"), Ok(Network::Regtest)));
    assert!(parse_network("").is_err());
}

#[test]
fn address_likeness() {
    for text in ["BC1q", "Tb1", "bcrt1x", "1x", "3x", "mx", "nx", "2x"] {
        assert!(looks_like_address(text));
    }
    for text in ["", "bc2", "rig", "N", "M"] {
        assert!(!looks_like_address(text));
    }
}

#[test]
fn payout_errors_come_in_order() {
    let mut overflow = client();
    overflow.work.coinbase_outputs = vec![
        GridPoolOutput { value: u64::MAX, script_pub_key_hex: "zz".into() },
        GridPoolOutput { value: 1, script_pub_key_hex: "00".into() },
    ];
    let payout = overflow.resolve_channel("rig").unwrap();
    assert_eq!(
        overflow.coinbase_outputs(&payout, 5).unwrap_err(),
        "GridPool payout suffix overflow"
    );
    let small = client();
    assert_eq!(
        small.coinbase_outputs(&payout, 99).unwrap_err(),
        "GridPool payout suffix exceeds available coinbase value"
    );
    let mut script = client();
    script.work.coinbase_outputs[0].script_pub_key_hex = "zz".into();
    let message = script.coinbase_outputs(&payout, 100).unwrap_err();
    assert!(message.starts_with("invalid GridPool payout script: "));
    let exact = small.coinbase_outputs(&payout, 100).unwrap();
    assert_eq!(exact[0].value, 0);
}

#[test]
fn constraints_leave_one_satoshi() {
    let outputs = client().constraint_outputs().unwrap();
    assert_eq!(outputs.len(), 2);
    assert_eq!(outputs[0].value, 1);
    assert_eq!(outputs[1].value, 100);
}

#[test]
fn outputs_follow_the_script_of_slot_zero() {
    let suffix = work().coinbase_outputs;
    let outputs = assemble_outputs(&suffix, 250, Ok(vec![0x51])).unwrap();
    assert_eq!(outputs[0].value, 150);
    assert_eq!(outputs[0].script_pubkey, vec![0x51]);
    assert_eq!(
        assemble_outputs(&suffix, 250, Err("no script".into())).unwrap_err(),
        "no script"
    );
    assert!(first_output_pays(&outputs, Ok(vec![0x51])));
    assert!(!first_output_pays(&outputs, Ok(vec![0x52])));
    assert!(!first_output_pays(&outputs, Err("no script".into())));
}

#[test]
fn settings_are_checked_in_order() {
    assert!(validate_config(&config()).is_ok());
    for percent in [-0.5, 100.5, f64::NAN, f64::INFINITY] {
        let mut bad = config();
        bad.operator_fee_percent = double(percent);
        bad.operator_fee_address = None;
        assert_eq!(
            validate_config(&bad).unwrap_err(),
            "GridPool operator_fee_percent must be between 0 and 100"
        );
    }
    let mut bare = config();
    bare.operator_fee_address = None;
    bare.refresh_seconds = 0;
    assert_eq!(
        validate_config(&bare).unwrap_err(),
        "GridPool operator_fee_address is required when the operator fee is enabled"
    );
    let mut free = config();
    free.operator_fee_percent = double(-0.0);
    free.operator_fee_address = None;
    assert!(validate_config(&free).is_ok());
    let mut idle = config();
    idle.fee_cycle_seconds = 0;
    assert_eq!(
        validate_config(&idle).unwrap_err(),
        "GridPool intervals must be positive"
    );
}

#[test]
fn endpoints_have_one_slash() {
    assert_eq!(
        endpoint("http://node:5000//", "/api/mining"),
        "http://node:5000/api/mining"
    );
    assert_eq!(endpoint("http://node", "api"), "http://node/api");
}

#[test]
fn spool_directory_stands_beside_the_token() {
    let mut given = config();
    given.proof_spool_dir = Some("/spool".into());
    assert!(matches!(
        proof_spool_dir(&given, Some("/tmp".into())),
        SpoolDirectory::Configured(directory) if directory == "/spool"
    ));
    assert!(matches!(
        proof_spool_dir(&config(), Some("/tmp".into())),
        SpoolDirectory::Inside { parent, name } if parent == "/tmp" && name == "sv2-proof-spool"
    ));
    assert!(matches!(
        proof_spool_dir(&config(), None),
        SpoolDirectory::Inside { parent, name } if parent == "." && name == "sv2-proof-spool"
    ));
}

#[test]
fn connecting_checks_everything() {
    let token = " 0123456789abcdef0123456789abcdef\n";
    let made = GridPoolClient::connect(config(), token, work(), advice()).unwrap();
    assert_eq!(made.token, "0123456789abcdef0123456789abcdef");
    assert_eq!(made.work().active_snapshot_id, "snapshot");
    assert_eq!(
        GridPoolClient::connect(config(), "short", work(), advice()).unwrap_err(),
        "GridPool adapter token must contain at least 32 characters"
    );
    let mut elsewhere = work();
    elsewhere.bitcoin_network = "regtest".into();
    assert!(GridPoolClient::connect(config(), token, elsewhere, advice())
        .unwrap_err()
        .starts_with("wrong-network payout address"));
    let mut unknown = work();
    unknown.bitcoin_network = "moon".into();
    assert_eq!(
        GridPoolClient::connect(config(), token, unknown, advice()).unwrap_err(),
        "unsupported Bitcoin network 'moon'"
    );
    let mut operator = config();
    operator.operator_fee_address = Some("nonsense".into());
    assert!(GridPoolClient::connect(operator, token, work(), advice())
        .unwrap_err()
        .starts_with("invalid payout address 'nonsense'"));
}

#[test]
fn tokens_are_trimmed() {
    assert_eq!(
        adapter_token("\t0123456789abcdef0123456789abcdef ").unwrap(),
        "0123456789abcdef0123456789abcdef"
    );
    assert!(adapter_token("0123456789abcdef0123456789abcde                 ").is_err());
}

#[test]
fn work_is_taken_over_when_the_tip_moves() {
    let mut client = client();
    let tip = Some("aa".to_string());
    let mut fetched = work();
    fetched.current_tip_block_hash = Some("aa".into());
    assert!(matches!(
        client.refresh_for_chain_tip(&tip, 0, fetched.clone()),
        RefreshStep::Poll { pause_ms: 25 }
    ));
    assert!(client.work().current_tip_block_hash.is_none());
    assert!(matches!(
        client.refresh_for_chain_tip(&tip, TIP_POLLS - 1, fetched.clone()),
        RefreshStep::GiveUp { pause_ms: 25, message }
            if message == "GridPool work selection did not advance to the new chain tip"
    ));
    let mut moved = work();
    moved.current_tip_block_hash = Some("bb".into());
    assert!(matches!(
        client.refresh_for_chain_tip(&tip, 3, moved),
        RefreshStep::Adopted
    ));
    assert_eq!(client.work().current_tip_block_hash, Some("bb".into()));
    assert!(matches!(
        client.refresh_for_chain_tip(&None, 0, fetched),
        RefreshStep::Adopted
    ));
    assert_eq!(client.work().current_tip_block_hash, Some("aa".into()));
}

#[test]
fn blocks_and_reserve_shares_are_always_proved() {
    let mut client = client();
    assert!(client.should_submit_proof_at(1, double(0.0), true, 0));
    assert!(client.should_submit_proof_at(1, double(100.0), false, 0));
    assert!(client.last_pulse.is_empty());
    assert!(client.should_submit_proof(1, double(100.0), false));
}

#[test]
fn pulses_keep_their_distance() {
    let mut client = client();
    assert!(!client.should_submit_proof_at(1, double(9.9), false, 1_000));
    assert!(!client.should_submit_proof_at(1, double(10.0), false, 59));
    assert!(client.should_submit_proof_at(1, double(10.0), false, 1_000));
    assert!(!client.should_submit_proof_at(1, double(10.0), false, 1_059));
    assert!(!client.should_submit_proof_at(1, double(10.0), false, 10));
    assert!(client.should_submit_proof_at(2, double(10.0), false, 1_001));
    assert!(client.should_submit_proof_at(1, double(10.0), false, 1_060));
    assert_eq!(client.last_pulse[&1], 1_060);
    client.advice.pulse_proofs_enabled = false;
    assert!(!client.should_submit_proof_at(1, double(50.0), false, 9_000));
}

#[test]
fn pulse_interval_is_at_least_a_second() {
    let mut client = client();
    client.advice.pulse_target_interval_seconds = 0;
    assert!(client.should_submit_proof_at(1, double(10.0), false, 1));
    assert!(!client.should_submit_proof_at(1, double(10.0), false, 1));
    assert!(client.should_submit_proof_at(1, double(10.0), false, 2));
}

#[test]
fn telemetry_is_gathered_for_each_channel() {
    let mut client = client();
    client.record_telemetry_at(delta(true, 4.0, 9.0, true), 1_000);
    client.record_telemetry_at(delta(true, -1.0, 3.0, false), 2_500);
    client.record_telemetry_at(delta(false, 8.0, 99.0, true), 2_000);
    let mut other = delta(false, 0.0, 0.0, false);
    other.channel_id = 8;
    client.record_telemetry_at(other, 5_000);
    let batch = client.flush_telemetry().unwrap();
    assert_eq!(batch.source_instance, "gridpool-sv2-pool");
    assert_eq!(batch.entries.len(), 2);
    let entry = &batch.entries[0];
    assert_eq!(entry.channel_id, "7");
    assert_eq!(entry.payout_address, FALLBACK);
    assert_eq!(entry.window_start_utc, "1970-01-01T00:00:01.000Z");
    assert_eq!(entry.window_end_utc, "1970-01-01T00:00:02.000Z");
    assert_eq!(entry.accepted_share_count, 2);
    assert_eq!(entry.rejected_share_count, 1);
    assert_eq!(entry.accepted_work, vec![double(4.0), double(0.0)]);
    assert_eq!(entry.fee_work, vec![double(4.0)]);
    assert_eq!(entry.best_difficulty, double(9.0));
    assert_eq!(batch.entries[1].rejected_share_count, 1);
    assert!(client.flush_telemetry().is_none());
}

#[test]
fn a_window_never_ends_before_it_starts() {
    let mut client = client();
    client.record_telemetry_at(delta(true, 1.0, 1.0, false), 9_000);
    client.record_telemetry_at(delta(true, 1.0, 1.0, false), 4_000);
    let batch = client.flush_telemetry().unwrap();
    assert_eq!(batch.entries[0].window_end_utc, "1970-01-01T00:00:09.000Z");
}

#[test]
fn telemetry_reads_the_clock() {
    let mut client = client();
    assert!(client.can_record(7, FALLBACK, false));
    client.record_telemetry(delta(true, 1.0, 1.0, false));
    let batch = client.flush_telemetry().unwrap();
    assert!(batch.entries[0].window_start_utc.as_str() > "2020-01-01T00:00:00.000Z");
}

#[test]
fn empty_delta() {
    let delta = TelemetryDelta::default();
    assert_eq!(delta.channel_id, 0);
    assert!(!delta.accepted);
    assert_eq!(delta.work_difficulty, double(0.0));
    assert!(delta.username.is_empty());
}

#[test]
fn dates_follow_the_calendar() {
    assert_eq!(iso8601_millis(951_782_400_123), "2000-02-29T00:00:00.123Z");
    assert_eq!(iso8601_millis(1_709_251_199_999), "2024-02-29T23:59:59.999Z");
    assert_eq!(iso8601_millis(4_107_542_400_000), "2100-03-01T00:00:00.000Z");
    assert_eq!(iso8601_millis(253_402_300_800_000), "10000-01-01T00:00:00.000Z");
}

#[test]
fn timestamps_are_ordered_as_their_instants() {
    let instants = [0, 1, 999, 1_000, 59_999, 60_000, 3_600_000, 86_399_999, 86_400_000,
        951_782_400_123, 4_107_542_400_000, 253_402_300_799_999];
    for pair in instants.windows(2) {
        assert!(iso8601_millis(pair[0]) < iso8601_millis(pair[1]));
    }
    assert!(iso8601_millis(253_402_300_800_000) < iso8601_millis(253_402_300_799_999));
}

#[test]
fn times_are_counted_from_the_epoch() {
    assert_eq!(to_millis(Some((3, 999_999_999))), 3_999);
    assert_eq!(to_millis(None), 0);
    assert_eq!(to_seconds(Some((3, 999_999_999))), 3);
    assert_eq!(to_seconds(None), 0);
    assert!(now_millis() > 1_577_836_800_000);
}

#[test]
fn doubles_compare_like_numbers() {
    let values = [f64::NEG_INFINITY, -2.5, -0.0, 0.0, 1e-300, 1.0, f64::INFINITY, f64::NAN];
    for a in values {
        for b in values {
            assert_eq!(double(a).at_least(double(b)), a >= b);
            let greater = f64::from_bits(double(a).max(double(b)).bits);
            if a.is_nan() && b.is_nan() {
                assert!(greater.is_nan());
            } else {
                assert!(greater == a.max(b));
            }
        }
    }
}

#[test]
fn proofs_wait_under_their_header() {
    let submission = ShareSubmission {
        miner_address: String::new(),
        username: String::new(),
        header_hex: "00ff".into(),
        coinbase_hex: String::new(),
        merkle_path: Vec::new(),
        payout_snapshot_id: None,
        prev_block_hash: None,
        difficulty: double(1.0),
    };
    assert_eq!(proof_file_name(&submission), "00ff.json");
    assert!(is_proof_file(&proof_file_name(&submission)));
}

#[test]
fn proofs_are_known_by_their_extension() {
    assert!(is_proof_file("a.json"));
    assert!(is_proof_file("a.b.json"));
    for name in ["", ".json", "json", "ajson", "a.jso", "a.JSON", "a.json.tmp", "a.json~"] {
        assert!(!is_proof_file(name), "{name}");
    }
}

#[test]
fn proofs_stay_until_the_node_has_them() {
    assert_eq!(next_action(SpoolEvent::Encoded), SpoolAction::Write);
    assert_eq!(next_action(SpoolEvent::NotEncoded), SpoolAction::Abandon);
    assert_eq!(next_action(SpoolEvent::Written), SpoolAction::Submit);
    assert_eq!(next_action(SpoolEvent::NotWritten), SpoolAction::Abandon);
    assert_eq!(next_action(SpoolEvent::Found), SpoolAction::Submit);
    assert_eq!(next_action(SpoolEvent::Answered { success: true }), SpoolAction::Remove);
    assert_eq!(next_action(SpoolEvent::Answered { success: false }), SpoolAction::Leave);
    assert_eq!(next_action(SpoolEvent::Unanswered), SpoolAction::Leave);
}

#[test]
fn fresh_work_and_advice_are_taken_over() {
    let mut client = client();
    let mut fresh = work();
    fresh.active_snapshot_id = "next".into();
    client.set_work(fresh);
    assert_eq!(client.work().active_snapshot_id, "next");
    let mut quiet = advice();
    quiet.pulse_proofs_enabled = false;
    client.set_advice(quiet);
    assert!(!client.advice.pulse_proofs_enabled);
}

#[test]
fn outputs_compare_by_value_and_script() {
    let output = TxOut { value: 1, script_pubkey: vec![2] };
    assert_eq!(output, TxOut { value: 1, script_pubkey: vec![2] });
    assert_ne!(output, TxOut { value: 1, script_pubkey: vec![3] });
}
