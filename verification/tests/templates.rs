use gridpool::block::{BlockHeader, DecodedTransaction, WorkFault};
use gridpool::merkle::{
    apply_merkle_path, coinbase_merkle_path, hash_pair, merkle_path_for_first_leaf, merkle_root,
};
use gridpool::provider::{
    BitcoinRpcTemplateProvider, CoinbaseOutputConstraints, PollStep, ProviderRequest, ProviderWait,
    PublishedTemplate, RequestStep, TransactionDataReply, MAX_RETAINED_TEMPLATES,
};
use gridpool::rpc::{
    submit_verdict, template_request, BitcoinRpcConfig, RpcClient, RpcEnvelope, RpcError,
    RpcFailure,
};
use gridpool::template::{
    admit_transaction, select_transaction_prefix, witness_commitment_output, GetBlockTemplate,
    GetBlockTemplateTransaction, RpcTemplate, SubmitSolution,
};
use stratum_apps::stratum_core::bitcoin::absolute::LockTime;
use stratum_apps::stratum_core::bitcoin::consensus::{deserialize, serialize};
use stratum_apps::stratum_core::bitcoin::hashes::{sha256d, Hash as BitcoinHash};
use stratum_apps::stratum_core::bitcoin::{
    transaction, Amount, Block, CompactTarget, OutPoint, ScriptBuf, Sequence, Target, Transaction,
    TxIn, TxOut, Witness,
};

const TIP: &str = "00000000000000000001aaaabbbbccccddddeeeeffff00001111222233334444";
const OTHER_TIP: &str = "00000000000000000002aaaabbbbccccddddeeeeffff00001111222233334444";

fn transaction(tag: u8, witness: bool) -> Transaction {
    Transaction {
        version: transaction::Version::TWO,
        lock_time: LockTime::ZERO,
        input: vec![TxIn {
            previous_output: OutPoint {
                txid: sha256d::Hash::from_byte_array([tag; 32]).into(),
                vout: u32::from(tag),
            },
            script_sig: ScriptBuf::new(),
            sequence: Sequence::MAX,
            witness: if witness { Witness::from(vec![vec![tag; 4]]) } else { Witness::new() },
        }],
        output: vec![TxOut {
            value: Amount::from_sat(1_000 + u64::from(tag)),
            script_pubkey: ScriptBuf::from_bytes(vec![0x51]),
        }],
    }
}

fn coinbase() -> Transaction {
    let mut coinbase = transaction(0, true);
    coinbase.input[0].previous_output = OutPoint::null();
    coinbase.input[0].script_sig = ScriptBuf::from_bytes(vec![1, 1]);
    coinbase
}

fn listed(tag: u8) -> GetBlockTemplateTransaction {
    let tx = transaction(tag, tag % 2 == 0);
    GetBlockTemplateTransaction {
        data: hex::encode(serialize(&tx)),
        txid: tx.compute_txid().to_string(),
        hash: tx.compute_wtxid().to_string(),
        weight: Some(tx.weight().to_wu()),
    }
}

fn gbt() -> GetBlockTemplate {
    GetBlockTemplate {
        version: 0x2000_0000,
        previousblockhash: TIP.into(),
        transactions: vec![listed(1), listed(2), listed(3)],
        coinbase_flags: "0a0b".into(),
        coinbasevalue: 5_000,
        longpollid: Some("mark".into()),
        mintime: 100,
        curtime: 200,
        bits: "207fffff".into(),
        height: 840_000,
    }
}

fn solution(template_id: u64, nonce: u32) -> SubmitSolution {
    SubmitSolution {
        template_id,
        version: 0x2000_0004,
        header_timestamp: 777,
        header_nonce: nonce,
        coinbase_tx: serialize(&coinbase()),
    }
}

fn rpc_config() -> BitcoinRpcConfig {
    BitcoinRpcConfig {
        url: "http://127.0.0.1:8332".into(),
        username: Some("user".into()),
        password: Some("pass".into()),
        cookie_file: None,
        timeout_seconds: 30,
        retry_seconds: 5,
        min_interval: 3,
    }
}

fn constraints() -> CoinbaseOutputConstraints {
    CoinbaseOutputConstraints {
        coinbase_output_max_additional_size: 200,
        coinbase_output_max_additional_sigops: 4,
    }
}

fn provider() -> BitcoinRpcTemplateProvider {
    let mut provider = BitcoinRpcTemplateProvider::new(rpc_config(), "").unwrap();
    provider.on_request(ProviderRequest::Constraints(constraints()));
    provider
}

#[test]
fn first_leaf_merkle_path_reconstructs_root() {
    let txids = [[1_u8; 32], [2_u8; 32], [3_u8; 32]];
    let path = coinbase_merkle_path(&txids);
    let coinbase = [9_u8; 32];
    let reconstructed = apply_merkle_path(coinbase, &path);
    let mut full = vec![coinbase];
    full.extend(txids);
    assert_eq!(reconstructed, merkle_root(full));
}

#[test]
fn transaction_selection_keeps_a_prefix() {
    let txs = vec![
        GetBlockTemplateTransaction {
            data: "00".to_string(),
            txid: String::new(),
            hash: String::new(),
            weight: Some(100),
        },
        GetBlockTemplateTransaction {
            data: "00".to_string(),
            txid: String::new(),
            hash: String::new(),
            weight: Some(200),
        },
    ];
    assert_eq!(select_transaction_prefix(&txs, 620), 2);
    assert_eq!(select_transaction_prefix(&txs, 500), 1);
}

#[test]
fn witness_commitment_has_standard_prefix() {
    let output = witness_commitment_output(&[[7_u8; 32]]);
    assert_eq!(
        &output.script_pubkey[..6],
        &[0x6a, 0x24, 0xaa, 0x21, 0xa9, 0xed]
    );
}

#[test]
fn rpc_null_result_deserializes_as_successful_optional_value() {
    let mut value: serde_json::Value =
        serde_json::from_str(r#"{"result":null,"error":null,"id":1}"#).unwrap();
    let envelope = RpcEnvelope {
        result: value["result"].take(),
        error: match value["error"].is_null() {
            true => None,
            false => Some(RpcError { code: 0, message: String::new() }),
        },
    };
    let result: Option<String> =
        serde_json::from_value(envelope.into_result("submitblock").unwrap()).unwrap();
    assert_eq!(result, None);
}

#[test]
fn merkle_paths_of_all_sizes_reconstruct_the_root() {
    for count in 0..20_u8 {
        let txids: Vec<[u8; 32]> = (1..=count).map(|tag| [tag; 32]).collect();
        let path = coinbase_merkle_path(&txids);
        let mut full = vec![[200_u8; 32]];
        full.extend(txids);
        assert_eq!(apply_merkle_path([200_u8; 32], &path), merkle_root(full.clone()));
        assert_eq!(path, merkle_path_for_first_leaf(full));
    }
}

#[test]
fn merkle_roots_of_few_leaves() {
    assert_eq!(merkle_root(Vec::new()), [0; 32]);
    assert_eq!(merkle_root(vec![[5; 32]]), [5; 32]);
    assert_eq!(merkle_root(vec![[5; 32], [6; 32]]), hash_pair([5; 32], [6; 32]));
    assert_eq!(
        merkle_root(vec![[5; 32], [6; 32], [7; 32]]),
        hash_pair(hash_pair([5; 32], [6; 32]), hash_pair([7; 32], [7; 32]))
    );
    let mut both = vec![5_u8; 32];
    both.extend([6_u8; 32]);
    assert_eq!(
        hash_pair([5; 32], [6; 32]),
        sha256d::Hash::hash(&both).to_byte_array()
    );
}

#[test]
fn weights_count_bytes_where_none_is_given() {
    let tx = |data: &str, weight: Option<u64>| GetBlockTemplateTransaction {
        data: data.into(),
        txid: String::new(),
        hash: String::new(),
        weight,
    };
    let txs = vec![tx("0011", None), tx("xyz", None), tx("00", Some(u64::MAX))];
    assert_eq!(select_transaction_prefix(&txs, 327), 0);
    assert_eq!(select_transaction_prefix(&txs, 328), 2);
    assert_eq!(select_transaction_prefix(&txs, u64::MAX), 3);
    assert_eq!(select_transaction_prefix(&txs, u64::MAX - 1), 2);
}

#[test]
fn witness_commitment_is_that_of_the_crate() {
    let txs: Vec<Transaction> = (0..3).map(|tag| transaction(tag + 1, true)).collect();
    let wtxids: Vec<[u8; 32]> =
        txs.iter().map(|tx| tx.compute_wtxid().to_byte_array()).collect();
    let output = witness_commitment_output(&wtxids);
    assert_eq!(output.value, 0);
    let mut txdata = vec![coinbase()];
    txdata.extend(txs);
    let block = Block {
        header: deserialize(&[0_u8; 80]).unwrap(),
        txdata,
    };
    let root = block.witness_root().unwrap();
    let commitment = Block::compute_witness_commitment(&root, &[0; 32]);
    assert_eq!(&output.script_pubkey[6..], &commitment.to_byte_array());
}

#[test]
fn a_template_holds_what_the_node_says() {
    let template = RpcTemplate::from_gbt(9, &gbt(), 200).unwrap();
    assert_eq!(template.id, 9);
    assert_eq!(template.version, 0x2000_0000);
    assert_eq!(template.bits, 0x207f_ffff);
    assert_eq!(
        template.target,
        Target::from_compact(CompactTarget::from_consensus(0x207f_ffff)).to_le_bytes()
    );
    let mut tip = template.prev_hash;
    tip.reverse();
    assert_eq!(hex::encode(tip), TIP);
    assert_eq!(template.coinbase_prefix, vec![3, 0x40, 0xd1, 0x0c, 0x0a, 0x0b]);
    assert_eq!(template.coinbase_value, 5_000);
    assert_eq!(template.transaction_bytes.len(), 3);
    assert_eq!(hex::encode(&template.transaction_bytes[1]), gbt().transactions[1].data);
    let txids: Vec<[u8; 32]> = (1..4)
        .map(|tag| transaction(tag, tag % 2 == 0).compute_txid().to_byte_array())
        .collect();
    assert_eq!(template.merkle_path, coinbase_merkle_path(&txids));
    assert_eq!(template.required_outputs.len(), 1);
}

#[test]
fn versions_keep_their_bits() {
    let mut negative = gbt();
    negative.version = -2;
    assert_eq!(RpcTemplate::from_gbt(1, &negative, 0).unwrap().version, 0xffff_fffe);
}

#[test]
fn heights_are_pushed_as_script_numbers() {
    for (height, script) in [
        (0_u64, vec![0_u8]),
        (16, vec![0x60]),
        (17, vec![1, 17]),
        (128, vec![2, 128, 0]),
        (65_536, vec![3, 0, 0, 1]),
        (u64::MAX, vec![0x4f]),
    ] {
        let mut answer = gbt();
        answer.height = height;
        answer.coinbase_flags = String::new();
        assert_eq!(RpcTemplate::from_gbt(1, &answer, 0).unwrap().coinbase_prefix, script);
    }
}

#[test]
fn the_coinbase_reserve_trims_the_end() {
    let mut full = gbt();
    for tx in &mut full.transactions {
        tx.weight = Some(1_300_000);
    }
    assert_eq!(RpcTemplate::from_gbt(1, &full, 0).unwrap().transaction_bytes.len(), 3);
    assert_eq!(
        RpcTemplate::from_gbt(1, &full, 24_920).unwrap().transaction_bytes.len(),
        3
    );
    let trimmed = RpcTemplate::from_gbt(1, &full, 24_921).unwrap();
    assert_eq!(trimmed.transaction_bytes.len(), 2);
    let txids: Vec<[u8; 32]> = (1..3)
        .map(|tag| transaction(tag, tag % 2 == 0).compute_txid().to_byte_array())
        .collect();
    assert_eq!(trimmed.merkle_path, coinbase_merkle_path(&txids));
    assert_eq!(
        RpcTemplate::from_gbt(1, &full, u32::MAX).unwrap().transaction_bytes.len(),
        0
    );
}

#[test]
fn templates_are_refused_in_order() {
    let message = |change: fn(&mut GetBlockTemplate)| {
        let mut answer = gbt();
        change(&mut answer);
        RpcTemplate::from_gbt(1, &answer, 0).unwrap_err()
    };
    assert!(message(|a| {
        a.previousblockhash = "00".into();
        a.bits = "x".into();
    })
    .starts_with("invalid GBT previousblockhash: "));
    assert!(message(|a| {
        a.bits = "x".into();
        a.transactions[0].data = "x".into();
    })
    .starts_with("invalid GBT bits: "));
    assert!(message(|a| {
        a.transactions[1].data = "x".into();
        a.coinbase_flags = "x".into();
    })
    .starts_with("invalid GBT transaction hex: "));
    assert!(message(|a| a.transactions[1].data = "00".into())
        .starts_with("invalid GBT transaction: "));
    assert!(message(|a| a.transactions[1].txid = "00".into()).starts_with("invalid GBT txid: "));
    assert!(message(|a| a.transactions[1].hash = "00".into()).starts_with("invalid GBT wtxid: "));
    assert_eq!(
        message(|a| a.transactions[2].txid = OTHER_TIP.into()),
        format!("GBT transaction {OTHER_TIP} hash mismatch")
    );
    assert!(message(|a| a.coinbase_flags = "0".into())
        .starts_with("invalid GBT coinbaseaux.flags: "));
    assert_eq!(
        message(|a| a.coinbase_flags = "00".repeat(97)),
        "GBT coinbase script prefix exceeds consensus limit"
    );
}

#[test]
fn transactions_have_to_match_their_identifiers() {
    let tx = transaction(4, true);
    let read = || DecodedTransaction {
        txid: tx.compute_txid().to_byte_array(),
        wtxid: tx.compute_wtxid().to_byte_array(),
        encoding: serialize(&tx),
    };
    let listed = listed(4);
    assert_eq!(
        admit_transaction(&listed, Ok(read())).unwrap().encoding,
        serialize(&tx)
    );
    let mut other = read();
    other.wtxid = other.txid;
    assert_eq!(
        admit_transaction(&listed, Ok(other)).unwrap_err(),
        format!("GBT transaction {} hash mismatch", listed.txid)
    );
    assert_eq!(
        admit_transaction(&listed, Err("cut off".into())).unwrap_err(),
        "invalid GBT transaction: cut off"
    );
}

#[test]
fn announcements_and_activations() {
    let template = RpcTemplate::from_gbt(9, &gbt(), 200).unwrap();
    let message = template.new_template(true).unwrap();
    assert_eq!(message.template_id, 9);
    assert!(message.future_template);
    assert_eq!(message.coinbase_tx_version, 2);
    assert_eq!(message.coinbase_tx_input_sequence, u32::MAX);
    assert_eq!(message.coinbase_tx_value_remaining, 5_000);
    assert_eq!(message.coinbase_tx_outputs_count, 1);
    let output: TxOut = deserialize(&message.coinbase_tx_outputs).unwrap();
    assert_eq!(output.value, Amount::ZERO);
    assert_eq!(
        output.script_pubkey.to_bytes(),
        template.required_outputs[0].script_pubkey
    );
    assert_eq!(message.coinbase_tx_locktime, 0);
    assert_eq!(message.merkle_path, template.merkle_path);
    let tip = template.set_new_prev_hash();
    assert_eq!(tip.header_timestamp, 200);
    assert_eq!(tip.n_bits, 0x207f_ffff);
    assert_eq!(tip.target, template.target);
    let mut late = gbt();
    late.mintime = 300;
    let late = RpcTemplate::from_gbt(9, &late, 200).unwrap();
    assert_eq!(late.set_new_prev_hash().header_timestamp, 300);
}

#[test]
fn announcements_have_limits() {
    let mut template = RpcTemplate::from_gbt(9, &gbt(), 200).unwrap();
    template.merkle_path = vec![[0; 32]; 256];
    assert_eq!(
        template.new_template(false).unwrap_err(),
        "coinbase merkle path exceeds SV2 Seq0255"
    );
    template.required_outputs[0].script_pubkey = vec![0; 65_600];
    assert_eq!(
        template.new_template(false).unwrap_err(),
        "required coinbase outputs exceed SV2 B064K"
    );
    template.coinbase_prefix = vec![0; 256];
    assert_eq!(
        template.new_template(false).unwrap_err(),
        "coinbase prefix exceeds SV2 B0255"
    );
}

#[test]
fn solved_blocks_are_what_the_crate_reads() {
    let template = RpcTemplate::from_gbt(9, &gbt(), 200).unwrap();
    let solved = (0..1_000)
        .find_map(|nonce| template.solution_block(&solution(9, nonce)).ok())
        .unwrap();
    let block: Block = deserialize(&hex::decode(solved.to_hex()).unwrap()).unwrap();
    assert!(block.check_merkle_root());
    assert_eq!(block.txdata.len(), 4);
    assert_eq!(block.txdata[0], coinbase());
    assert_eq!(block.txdata[2], transaction(2, true));
    assert_eq!(block.header.time, 777);
    assert_eq!(block.header.prev_blockhash.to_string(), TIP);
    assert!(block.header.validate_pow(block.header.target()).is_ok());
    assert_eq!(hex::encode(serialize(&block)), solved.to_hex());
}

#[test]
fn bad_solutions_are_refused() {
    let template = RpcTemplate::from_gbt(9, &gbt(), 200).unwrap();
    let mut broken = solution(9, 0);
    broken.coinbase_tx = vec![1, 2, 3];
    assert!(template
        .solution_block(&broken)
        .unwrap_err()
        .starts_with("invalid solved coinbase transaction: "));
    let mut hard = gbt();
    hard.bits = "1d00ffff".into();
    let hard = RpcTemplate::from_gbt(9, &hard, 200).unwrap();
    assert_eq!(
        hard.solution_block(&solution(9, 0)).unwrap_err(),
        "SV2 solution does not meet network target: block target correct but not attained"
    );
    let mut confused = RpcTemplate::from_gbt(9, &gbt(), 200).unwrap();
    confused.target = hard.target;
    assert_eq!(
        confused.solution_block(&solution(9, 0)).unwrap_err(),
        "SV2 solution does not meet network target: block target incorrect"
    );
}

#[test]
fn blocks_follow_the_finding_on_their_work() {
    let template = RpcTemplate::from_gbt(9, &gbt(), 200).unwrap();
    let header = template.solution_header(&solution(9, 3), [8; 32]);
    assert_eq!(header.merkle_root, apply_merkle_path([8; 32], &template.merkle_path));
    assert_eq!(header.nonce, 3);
    let block = template.conclude_block(header, vec![1, 2], None).unwrap();
    assert_eq!(block.transactions.len(), 4);
    assert_eq!(block.transactions[0], vec![1, 2]);
    let header = BlockHeader { version: 1, ..header };
    assert!(template
        .conclude_block(header, Vec::new(), Some(WorkFault::BadProofOfWork))
        .is_err());
}

#[test]
fn credentials_come_from_the_cookie_first() {
    let client = RpcClient::new(&rpc_config(), "").unwrap();
    assert_eq!(client.username.as_deref(), Some("user"));
    assert_eq!(client.password.as_deref(), Some("pass"));
    assert_eq!(client.timeout_seconds, 30);
    let mut cookie = rpc_config();
    cookie.cookie_file = Some("/node/.cookie".into());
    cookie.timeout_seconds = 3;
    let client = RpcClient::new(&cookie, " __cookie__:se:cret\n").unwrap();
    assert_eq!(client.username.as_deref(), Some("__cookie__"));
    assert_eq!(client.password.as_deref(), Some("se:cret"));
    assert_eq!(client.timeout_seconds, 10);
    assert_eq!(
        RpcClient::new(&cookie, "nothing").unwrap_err(),
        "Bitcoin RPC cookie /node/.cookie is not in username:password form"
    );
    let mut half = rpc_config();
    half.password = None;
    assert_eq!(
        RpcClient::new(&half, "").unwrap_err(),
        "Bitcoin RPC username and password must be configured together"
    );
    half.username = None;
    assert!(RpcClient::new(&half, "").unwrap().username.is_none());
}

#[test]
fn calls_are_numbered() {
    let mut client = RpcClient::new(&rpc_config(), "").unwrap();
    let first = client.request("getblocktemplate");
    assert_eq!(first.jsonrpc, "1.0");
    assert_eq!(first.id, 1);
    assert_eq!(first.method, "getblocktemplate");
    assert_eq!(client.request("submitblock").id, 2);
    client.next_request_id = u64::MAX;
    assert_eq!(client.request("submitblock").id, u64::MAX);
    assert_eq!(client.request("submitblock").id, 0);
}

#[test]
fn failed_calls_are_described() {
    let envelope = RpcEnvelope {
        result: 1,
        error: Some(RpcError { code: -28, message: "warming up".into() }),
    };
    assert_eq!(
        envelope.into_result("getblocktemplate").unwrap_err(),
        "Bitcoin RPC getblocktemplate error -28: warming up"
    );
    let envelope = RpcEnvelope { result: 1, error: None };
    assert_eq!(envelope.into_result("getblocktemplate").unwrap(), 1);
    let text = |failure: RpcFailure| failure.describe("m");
    assert_eq!(
        text(RpcFailure::Transport { error: "e".into() }),
        "Bitcoin RPC m transport failure: e"
    );
    assert_eq!(
        text(RpcFailure::ResponseRead { error: "e".into() }),
        "Bitcoin RPC m response read failure: e"
    );
    assert_eq!(
        text(RpcFailure::InvalidJson { status: "500".into(), error: "e".into() }),
        "Bitcoin RPC m returned HTTP 500 with invalid JSON: e"
    );
    assert_eq!(
        text(RpcFailure::InvalidResult { error: "e".into() }),
        "Bitcoin RPC m returned an invalid result: e"
    );
    assert_eq!(
        text(RpcFailure::Reported { code: i64::MIN, message: "e".into() }),
        "Bitcoin RPC m error -9223372036854775808: e"
    );
}

#[test]
fn templates_are_asked_for_with_their_mark() {
    let request = template_request(Some("mark".into()));
    assert_eq!(request.rules, vec!["segwit"]);
    assert_eq!(request.capabilities, vec!["longpoll", "coinbasevalue", "workid"]);
    assert_eq!(request.longpollid.as_deref(), Some("mark"));
}

#[test]
fn submitted_blocks_are_accepted_in_silence() {
    assert!(submit_verdict(None).is_ok());
    assert_eq!(
        submit_verdict(Some("high-hash".into())).unwrap_err(),
        "Bitcoin node rejected solved block: high-hash"
    );
}

#[test]
fn the_provider_waits_for_constraints() {
    let mut provider = BitcoinRpcTemplateProvider::new(rpc_config(), "").unwrap();
    assert_eq!(provider.retry_seconds, 5);
    assert_eq!(provider.rpc.timeout_seconds, rpc_config().timeout_seconds.max(10));
    assert_eq!(provider.rpc.next_request_id, 1);
    assert!(matches!(provider.wait(), ProviderWait::Request));
    assert!(matches!(
        provider.on_request(ProviderRequest::Solution(solution(1, 0))),
        RequestStep::Ignore
    ));
    assert!(matches!(
        provider.on_request(ProviderRequest::TransactionData { template_id: 1 }),
        RequestStep::Ignore
    ));
    assert!(matches!(
        provider.on_request(ProviderRequest::Constraints(constraints())),
        RequestStep::Refresh { initial: true }
    ));
    assert!(matches!(
        provider.wait(),
        ProviderWait::RequestOrTemplate { longpollid: None }
    ));
    assert_eq!(provider.on_refreshed(true, None), Some(5));
    assert!(matches!(provider.wait(), ProviderWait::Request));
    provider.on_request(ProviderRequest::Constraints(constraints()));
    assert!(matches!(
        provider.on_request(ProviderRequest::Constraints(constraints())),
        RequestStep::Refresh { initial: false }
    ));
    assert_eq!(provider.on_refreshed(false, None), None);
    assert!(matches!(
        provider.on_request(ProviderRequest::Other),
        RequestStep::Ignore
    ));
    let published = PublishedTemplate { prev_hash: [1; 32], longpollid: Some("mark".into()) };
    assert_eq!(provider.on_refreshed(false, Some(published)), None);
    assert!(matches!(
        provider.wait(),
        ProviderWait::RequestOrTemplate { longpollid: Some(mark) } if mark == "mark"
    ));
}

#[test]
fn a_retry_takes_at_least_a_second() {
    let mut config = rpc_config();
    config.retry_seconds = 0;
    let provider = BitcoinRpcTemplateProvider::new(config, "").unwrap();
    assert_eq!(provider.retry_seconds, 1);
}

#[test]
fn published_templates_answer_questions() {
    let mut provider = provider();
    let publication = provider.publish_gbt(constraints(), &gbt(), true, true).unwrap();
    assert_eq!(publication.new_template.template_id, 1);
    assert!(publication.new_template.future_template);
    assert_eq!(publication.set_new_prev_hash.unwrap().template_id, 1);
    assert_eq!(publication.published.longpollid.as_deref(), Some("mark"));
    let again = provider.publish_gbt(constraints(), &gbt(), false, false).unwrap();
    assert_eq!(again.new_template.template_id, 2);
    assert!(again.set_new_prev_hash.is_none());
    let step = provider.on_request(ProviderRequest::TransactionData { template_id: 1 });
    let RequestStep::Answer { reply: Ok(TransactionDataReply::Success {
        template_id, transaction_list, excess_data,
    }) } = step else {
        panic!("no transactions");
    };
    assert_eq!(template_id, 1);
    assert_eq!(transaction_list.len(), 3);
    assert!(excess_data.is_empty());
    let solved = (0..1_000)
        .find_map(|nonce| {
            match provider.on_request(ProviderRequest::Solution(solution(1, nonce))) {
                RequestStep::Submit { block } => block.ok(),
                _ => None,
            }
        })
        .unwrap();
    assert_eq!(solved.transactions[1..], transaction_list[..]);
}

#[test]
fn unknown_templates_are_stale_or_not_found() {
    let mut provider = provider();
    provider.next_template_id = 5;
    provider.publish_gbt(constraints(), &gbt(), true, true).unwrap();
    let code = |id: u64| match provider.transaction_data(id) {
        Ok(TransactionDataReply::Error { template_id, error_code }) => {
            assert_eq!(template_id, id);
            error_code
        }
        _ => panic!("no error"),
    };
    assert_eq!(code(4), "stale-template-id");
    assert_eq!(code(6), "template-id-not-found");
    assert_eq!(
        provider.solution_block(&solution(6, 0)).unwrap_err(),
        "solution references unknown template 6"
    );
}

#[test]
fn oversized_answers_are_reported() {
    let mut provider = provider();
    provider.publish_gbt(constraints(), &gbt(), true, true).unwrap();
    let template = provider.templates.get_mut(&1).unwrap();
    template.transaction_bytes = vec![Vec::new(); 65_536];
    assert_eq!(
        provider.transaction_data(1).unwrap_err(),
        "too many transactions for SV2 Seq064K"
    );
    let template = provider.templates.get_mut(&1).unwrap();
    template.transaction_bytes[7] = vec![0; 0x100_0000];
    assert_eq!(
        provider.transaction_data(1).unwrap_err(),
        "transaction is too large for SV2 B016M"
    );
}

#[test]
fn the_newest_templates_are_kept() {
    let mut provider = provider();
    for _ in 0..MAX_RETAINED_TEMPLATES + 5 {
        provider.publish_gbt(constraints(), &gbt(), true, true).unwrap();
    }
    assert_eq!(provider.templates.len(), MAX_RETAINED_TEMPLATES);
    let mut ids: Vec<u64> = provider.templates.keys().copied().collect();
    ids.sort_unstable();
    assert_eq!(ids.first(), Some(&6));
    assert_eq!(ids.last(), Some(&37));
}

#[test]
fn ids_are_used_up_by_failures() {
    let mut provider = provider();
    let mut bad = gbt();
    bad.bits = "x".into();
    assert!(provider.publish_gbt(constraints(), &bad, true, true).is_err());
    assert!(provider.templates.is_empty());
    assert_eq!(provider.next_template_id, 2);
}

#[test]
fn templates_on_one_tip_are_throttled() {
    let second = 1_000_000_000_u128;
    let mut provider = provider();
    let answer = Ok(gbt());
    assert!(matches!(
        provider.on_template(&answer, 0),
        PollStep::Publish { tip_changed: true }
    ));
    assert_eq!(provider.longpollid.as_deref(), Some("mark"));
    let published = provider.publish_gbt(constraints(), &gbt(), true, true).unwrap().published;
    provider.on_polled(true, Some(published.clone()), 0);
    assert!(provider.last_non_tip_publish.is_none());
    assert!(matches!(
        provider.on_template(&answer, second),
        PollStep::Publish { tip_changed: false }
    ));
    provider.on_polled(false, Some(published.clone()), second);
    assert!(matches!(provider.on_template(&answer, 4 * second - 1), PollStep::Throttled));
    let mut moved = gbt();
    moved.previousblockhash = OTHER_TIP.into();
    assert!(matches!(
        provider.on_template(&Ok(moved), 2 * second),
        PollStep::Publish { tip_changed: true }
    ));
    assert!(matches!(
        provider.on_template(&answer, 4 * second),
        PollStep::Publish { tip_changed: false }
    ));
    provider.on_polled(false, None, 9 * second);
    assert_eq!(provider.last_non_tip_publish, Some(second));
}

#[test]
fn failed_polls_are_repeated_or_reported() {
    let mut provider = provider();
    assert!(matches!(
        provider.on_template(&Err("down".into()), 0),
        PollStep::Pause { seconds: 5 }
    ));
    let mut bad = gbt();
    bad.previousblockhash = "tip".into();
    assert!(matches!(
        provider.on_template(&Ok(bad), 0),
        PollStep::Report { message }
            if message.starts_with("Bitcoin RPC returned invalid previousblockhash: ")
    ));
    assert!(provider.longpollid.is_none());
}
