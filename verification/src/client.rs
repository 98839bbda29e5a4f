//! The GridPool adapter: payouts, operator-fee slices, telemetry and proof admission.

use crate::address::{looks_like_address, parse_address, parse_network};
use crate::clock::{now_millis, now_seconds};
use crate::encoding::{decode_hex, leading_u64};
use crate::hashing::{extend_bytes, sha256};
use crate::number::Double;
use crate::settings::{validate_config, GridPoolConfig};
use crate::telemetry::{Telemetry, TelemetryBatch, TelemetryDelta};
use crate::text::{chars_of, has_prefix, index_of, same_text, string_of, trim};
use crate::work::{ChannelPayout, GridPoolOutput, ShareAdvice, TxOut, WorkSelection};
use std::collections::HashMap;
use vstd::prelude::*;
use vstd::string::StringExecFns;

verus! {

broadcast use vstd::std_specs::hash::group_hash_axioms;

/// The least number of bytes of an adapter token.
pub const MIN_TOKEN_BYTES: usize = 32;

/// How often the node is asked whether its work has moved to a new chain tip.
pub const TIP_POLLS: u32 = 40;

/// Milliseconds between two such questions.
pub const TIP_POLL_PAUSE_MS: u64 = 25;

/// The GridPool adapter of a pool.
#[derive(Debug)]
pub struct GridPoolClient {
    pub config: GridPoolConfig,
    /// The token shared with the node.
    pub token: String,
    /// What the node wants mined.
    pub work: WorkSelection,
    /// When the node wants proofs.
    pub advice: ShareAdvice,
    /// The time of the last pulse proof of each channel, in seconds since the epoch.
    pub last_pulse: HashMap<u64, u64>,
    /// What was gathered since the last telemetry batch.
    pub telemetry: Telemetry,
}

/// What to do with the node's answer while waiting for its work to move to a new chain tip.
#[derive(Clone, Debug)]
pub enum RefreshStep {
    /// The work was taken over.
    Adopted,
    /// Ask again after a pause of so many milliseconds.
    Poll { pause_ms: u64 },
    /// Fail with the message after a pause of so many milliseconds.
    GiveUp { pause_ms: u64, message: String },
}

/// The part of an identity that may name a payout address: what follows `sri/solo/` up to the
/// next slash, or else what stands in front of the first dot.
pub open spec fn explicit_part(trimmed: Seq<char>) -> Seq<char> {
    if crate::text::starts_with(trimmed, "sri/solo/"@) {
        crate::text::before(trimmed.skip("sri/solo/"@.len() as int), '/')
    } else {
        crate::text::before(trimmed, '.')
    }
}

/// A payout address and a user name, or the message that tells why there are none.
pub type PayoutOutcome = Result<(Seq<char>, Seq<char>), Seq<char>>;

/// Who is paid for a channel with the given identity, when reading its explicit part as an
/// address came out as `reading`. A well-formed address of the right network is paid itself. One
/// that is meant as an address and is none fails. Anything else is a worker's name, for which the
/// fallback address is paid.
pub open spec fn channel_payout(
    identity: Seq<char>,
    reading: Result<Seq<u8>, Seq<char>>,
    fallback: Seq<char>,
) -> PayoutOutcome {
    let trimmed = crate::text::trimmed(identity);
    let explicit = explicit_part(trimmed);
    match reading {
        Ok(_) => Ok((explicit, trimmed)),
        Err(message) => if crate::address::is_address_like(explicit) {
            Err(message)
        } else if trimmed.len() == 0 {
            Ok((fallback, "sv2"@))
        } else {
            Ok((fallback, trimmed))
        },
    }
}

/// Whether a result holds the payout, or the message, that `expected` says.
pub open spec fn same_payout(
    result: Result<ChannelPayout, String>,
    expected: PayoutOutcome,
) -> bool {
    match result {
        Ok(payout) => expected == PayoutOutcome::Ok((payout.payout_address@, payout.username@)),
        Err(message) => expected == PayoutOutcome::Err(message@),
    }
}

/// An identity that is meant as an address and does not read as one is never paid to the
/// fallback address.
pub proof fn address_like_identities_fail_closed(
    identity: Seq<char>,
    reading: Result<Seq<u8>, Seq<char>>,
    fallback: Seq<char>,
)
    requires
        crate::address::is_address_like(explicit_part(crate::text::trimmed(identity))),
        reading is Err,
    ensures
        channel_payout(identity, reading, fallback) == PayoutOutcome::Err(reading->Err_0),
{
}

/// The explicit part of an identity that was trimmed.
fn explicit_text(trimmed: &str) -> (explicit: String)
    ensures
        explicit@ == explicit_part(trimmed@),
{
    let chars = chars_of(trimmed);
    if has_prefix(&chars, "sri/solo/") {
        proof {
            reveal_strlit("sri/solo/");
        }
        let end = index_of(&chars, '/', 9);
        string_of(&chars, 9, end)
    } else {
        let end = index_of(&chars, '.', 0);
        assert(chars@.skip(0) =~= chars@);
        string_of(&chars, 0, end)
    }
}

/// Who is paid for a channel with the given identity, when reading its explicit part as an
/// address came out as `reading`.
pub fn assign_payout(
    identity: &str,
    reading: Result<Vec<u8>, String>,
    fallback: &str,
) -> (payout: Result<ChannelPayout, String>)
    ensures
        same_payout(
            payout,
            channel_payout(
                identity@,
                match reading {
                    Ok(script) => Ok(script@),
                    Err(message) => Err(message@),
                },
                fallback@,
            ),
        ),
{
    let trimmed = trim(identity);
    let explicit = explicit_text(trimmed);
    match reading {
        Ok(_) => Ok(ChannelPayout { payout_address: explicit, username: trimmed.to_owned() }),
        Err(message) => if looks_like_address(explicit.as_str()) {
            Err(message)
        } else {
            let username = if trimmed.is_empty() {
                "sv2".to_owned()
            } else {
                trimmed.to_owned()
            };
            Ok(ChannelPayout { payout_address: fallback.to_owned(), username })
        },
    }
}

/// Where in the fee cycle the fee slice of a payout address starts: a number that token and
/// address determine.
pub open spec fn fee_offset(token: Seq<char>, payout_address: Seq<char>, cycle: int) -> int {
    crate::encoding::big_endian_value(
        crate::hashing::sha256_digest(
            vstd::utf8::encode_utf8(token) + vstd::utf8::encode_utf8(payout_address),
        ).take(8),
    ) as int % cycle
}

/// Whether a second falls into the fee slice of `span` seconds that starts `offset` seconds into
/// each cycle.
pub open spec fn in_fee_slice(second: int, cycle: int, offset: int, span: int) -> bool {
    (second + cycle - offset) % cycle < span
}

/// The number of seconds among the `count` seconds from `from` on that fall into the fee slice.
pub open spec fn fee_seconds(from: int, count: nat, cycle: int, offset: int, span: int) -> int
    decreases count,
{
    if count == 0 {
        0
    } else {
        (if in_fee_slice(from, cycle, offset, span) {
            1int
        } else {
            0int
        }) + fee_seconds(from + 1, (count - 1) as nat, cycle, offset, span)
    }
}

/// Counting one second more at the end.
proof fn lemma_fee_seconds_end(from: int, count: nat, cycle: int, offset: int, span: int)
    ensures
        fee_seconds(from, count + 1, cycle, offset, span) == fee_seconds(
            from,
            count,
            cycle,
            offset,
            span,
        ) + (if in_fee_slice(from + count, cycle, offset, span) {
            1int
        } else {
            0int
        }),
    decreases count,
{
    reveal_with_fuel(fee_seconds, 2);
    if count > 0 {
        lemma_fee_seconds_end(from + 1, (count - 1) as nat, cycle, offset, span);
    }
}

/// The seconds of a slice that a part of the first cycle holds.
proof fn lemma_fee_seconds_first(count: nat, cycle: int, offset: int, span: int)
    requires
        0 < cycle,
        0 <= offset < cycle,
        0 <= span <= cycle,
        count <= cycle,
    ensures
        fee_seconds(offset, count, cycle, offset, span) == if count < span {
            count as int
        } else {
            span
        },
    decreases count,
{
    if count > 0 {
        let before = (count - 1) as nat;
        lemma_fee_seconds_first(before, cycle, offset, span);
        lemma_fee_seconds_end(offset, before, cycle, offset, span);
        assert(offset + before + cycle - offset == cycle + before);
        vstd::arithmetic::div_mod::lemma_mod_add_multiples_vanish(before as int, cycle);
        vstd::arithmetic::div_mod::lemma_small_mod(before, cycle as nat);
    }
}

/// Any `cycle` seconds in a row hold exactly `span` seconds of the fee slice.
pub proof fn every_cycle_holds_one_fee_slice(from: int, cycle: int, offset: int, span: int)
    requires
        0 < cycle,
        0 <= offset < cycle,
        0 <= span <= cycle,
        0 <= from,
    ensures
        fee_seconds(from, cycle as nat, cycle, offset, span) == span,
    decreases if from < offset { offset - from } else { from - offset },
{
    if from == offset {
        lemma_fee_seconds_first(cycle as nat, cycle, offset, span);
    } else {
        let low = if from < offset { from } else { from - 1 };
        every_cycle_holds_one_fee_slice(
            if from < offset { from + 1 } else { from - 1 },
            cycle,
            offset,
            span,
        );
        lemma_fee_seconds_end(low + 1, (cycle - 1) as nat, cycle, offset, span);
        assert(low + cycle + cycle - offset == cycle + (low + cycle - offset));
        vstd::arithmetic::div_mod::lemma_mod_add_multiples_vanish(low + cycle - offset, cycle);
    }
}

/// The fee slice of a payout address starts inside the cycle, and any cycle of seconds in a row
/// holds exactly the seconds of the fee.
pub proof fn fee_takes_its_seconds_of_every_cycle(
    client: GridPoolClient,
    payout_address: Seq<char>,
    from: int,
)
    requires
        0 <= from,
    ensures
        ({
            let cycle = client.config.cycle();
            let offset = fee_offset(client.token@, payout_address, cycle);
            &&& 0 <= offset < cycle
            &&& fee_seconds(from, cycle as nat, cycle, offset, client.config.fee_span())
                == client.config.fee_span()
        }),
{
    let cycle = client.config.cycle();
    let offset = fee_offset(client.token@, payout_address, cycle);
    every_cycle_holds_one_fee_slice(from, cycle, offset, client.config.fee_span());
}

/// A fee of zero percent is never taken: slot zero always pays the channel itself.
pub proof fn zero_percent_takes_no_fee(
    client: GridPoolClient,
    payout_address: Seq<char>,
    unix_seconds: int,
)
    requires
        !client.config.operator_fee_percent.is_nan(),
        client.config.operator_fee_percent.rank() == 0,
    ensures
        !client.fee_is_active(payout_address, unix_seconds),
        client.slot_zero_address(payout_address, unix_seconds) == payout_address,
{
}

/// The fee does not touch what the node pays out: at any two times the outputs have the same
/// values, and all but the first have the same scripts.
pub proof fn fee_leaves_the_suffix_alone(
    client: GridPoolClient,
    payout_address: Seq<char>,
    total: u64,
    first: int,
    second: int,
)
    requires
        client.outputs_at(payout_address, total as int, first) is Ok,
        client.outputs_at(payout_address, total as int, second) is Ok,
    ensures
        ({
            let a = client.outputs_at(payout_address, total as int, first)->Ok_0;
            let b = client.outputs_at(payout_address, total as int, second)->Ok_0;
            &&& a.len() == b.len()
            &&& a[0].value == b[0].value
            &&& a.skip(1) == b.skip(1)
            &&& a.skip(1) == crate::work::suffix_outputs(client.work.coinbase_outputs@)
        }),
{
    crate::work::block_outputs_spend_the_total(
        client.work.coinbase_outputs@,
        total as int,
        client.script_of(client.slot_zero_address(payout_address, first)),
    );
    crate::work::block_outputs_spend_the_total(
        client.work.coinbase_outputs@,
        total as int,
        client.script_of(client.slot_zero_address(payout_address, second)),
    );
}

/// A job whose outputs start with those of a channel at a time is counted as mined for the operator
/// if the fee slice of the channel is open then, and otherwise only if the channel pays to the same
/// script as the operator.
pub proof fn work_in_the_fee_slice_is_counted_as_fee_work(
    client: GridPoolClient,
    payout_address: Seq<char>,
    total: u64,
    unix_seconds: int,
    job_outputs: Seq<crate::work::Output>,
)
    requires
        client.outputs_at(payout_address, total as int, unix_seconds) is Ok,
        crate::channel::starts_with(
            job_outputs,
            client.outputs_at(payout_address, total as int, unix_seconds)->Ok_0,
        ),
        client.config.operator_fee_address matches Some(operator) && operator@ != payout_address,
    ensures
        ({
            let operator = client.config.operator_fee_address->0@;
            client.pays_operator(job_outputs, payout_address) <==> client.fee_is_active(
                payout_address,
                unix_seconds,
            ) || client.script_of(payout_address) == client.script_of(operator)
        }),
{
    let outputs = client.outputs_at(payout_address, total as int, unix_seconds)->Ok_0;
    assert(job_outputs.take(outputs.len() as int)[0] == outputs[0]);
}

/// Whether a second falls into the fee slice. The sum is formed in 128 bits, so that no second is
/// too late for it.
pub fn fee_slice_open(second: u64, cycle: u64, offset: u64, span: u64) -> (open: bool)
    requires
        offset < cycle,
    ensures
        open == in_fee_slice(second as int, cycle as int, offset as int, span as int),
{
    (second as u128 + cycle as u128 - offset as u128) % (cycle as u128) < (span as u128)
}

/// Whether `result` holds the outputs, or the message, that `expected` says.
pub open spec fn same_outputs(
    result: Result<Vec<TxOut>, String>,
    expected: Result<Seq<crate::work::Output>, Seq<char>>,
) -> bool {
    match result {
        Ok(outputs) => expected == Ok::<Seq<crate::work::Output>, Seq<char>>(
            crate::work::outputs_of(outputs@),
        ),
        Err(message) => expected == Err::<Seq<crate::work::Output>, Seq<char>>(message@),
    }
}

/// The value of the payout suffix, `None` if it does not fit 64 bits.
fn suffix_sum(suffix: &Vec<GridPoolOutput>) -> (sum: Option<u64>)
    ensures
        match sum {
            Some(s) => s == crate::work::suffix_value(suffix@),
            None => crate::work::suffix_value(suffix@) > u64::MAX,
        },
{
    let mut sum: u64 = 0;
    let mut i: usize = 0;
    proof {
        crate::work::lemma_suffix_not_negative(suffix@);
        assert(suffix@.take(0) =~= Seq::<GridPoolOutput>::empty());
    }
    while i < suffix.len()
        invariant
            i <= suffix@.len(),
            sum == crate::work::suffix_value(suffix@.take(i as int)),
            forall|n: int|
                0 <= n <= suffix@.len() ==> crate::work::suffix_value(#[trigger] suffix@.take(n))
                    <= crate::work::suffix_value(suffix@),
        decreases suffix@.len() - i,
    {
        assert(suffix@.take(i + 1).drop_last() =~= suffix@.take(i as int));
        match sum.checked_add(suffix[i].value) {
            Some(s) => {
                sum = s;
            },
            None => {
                assert(crate::work::suffix_value(suffix@.take(i + 1)) > u64::MAX);
                return None;
            },
        }
        i = i + 1;
    }
    assert(suffix@.take(i as int) =~= suffix@);
    Some(sum)
}

/// The coinbase outputs of a block worth `total` whose slot zero pays to the script `slot_zero`.
pub fn assemble_outputs(
    suffix: &Vec<GridPoolOutput>,
    total: u64,
    slot_zero: Result<Vec<u8>, String>,
) -> (outputs: Result<Vec<TxOut>, String>)
    ensures
        same_outputs(
            outputs,
            crate::work::block_outputs(
                suffix@,
                total as int,
                match slot_zero {
                    Ok(script) => Ok(script@),
                    Err(message) => Err(message@),
                },
            ),
        ),
{
    let suffix_value = match suffix_sum(suffix) {
        Some(sum) => sum,
        None => return Err("GridPool payout suffix overflow".to_owned()),
    };
    if suffix_value > total {
        return Err("GridPool payout suffix exceeds available coinbase value".to_owned());
    }
    let script = match slot_zero {
        Ok(script) => script,
        Err(message) => return Err(message),
    };
    let ghost front = crate::work::Output {
        value: (total - suffix_value) as u64,
        script: script@,
    };
    let mut outputs: Vec<TxOut> = Vec::new();
    outputs.push(TxOut { value: total - suffix_value, script_pubkey: script });
    let mut i: usize = 0;
    while i < suffix.len()
        invariant
            i <= suffix@.len(),
            outputs@.len() == i + 1,
            outputs@[0]@ == front,
            forall|k: int|
                0 <= k < i ==> (#[trigger] outputs@[k + 1])@ == crate::work::suffix_output(
                    suffix@[k],
                ),
            forall|k: int|
                0 <= k < i ==> crate::encoding::is_hex(
                    (#[trigger] suffix@[k]).script_pub_key_hex@,
                ),
            suffix_value == crate::work::suffix_value(suffix@),
            suffix_value <= total,
            slot_zero is Ok,
        decreases suffix@.len() - i,
    {
        match decode_hex(suffix[i].script_pub_key_hex.as_str()) {
            Ok(bytes) => {
                outputs.push(TxOut { value: suffix[i].value, script_pubkey: bytes });
            },
            Err(reason) => {
                proof {
                    crate::work::lemma_first_bad_script(suffix@, i as int);
                }
                let mut message = String::new();
                message.append("invalid GridPool payout script: ");
                message.append(reason.as_str());
                assert(message@ =~= "invalid GridPool payout script: "@ + reason@);
                return Err(message);
            },
        }
        i = i + 1;
    }
    proof {
        crate::work::lemma_first_bad_script(suffix@, i as int);
        let expected = seq![front] + crate::work::suffix_outputs(suffix@);
        assert forall|k: int| 0 <= k < outputs@.len() implies #[trigger] crate::work::outputs_of(
            outputs@,
        )[k] == expected[k] by {
            if k > 0 {
                assert(outputs@[(k - 1) + 1]@ == crate::work::suffix_output(suffix@[k - 1]));
            }
        }
        assert(crate::work::outputs_of(outputs@) =~= expected);
    }
    Ok(outputs)
}

/// Whether the first output pays to the script `script`.
pub open spec fn first_pays(
    outputs: Seq<crate::work::Output>,
    script: Result<Seq<u8>, Seq<char>>,
) -> bool {
    outputs.len() > 0 && (script matches Ok(s) && outputs[0].script == s)
}

/// Whether two byte strings are equal.
fn same_bytes(a: &Vec<u8>, b: &Vec<u8>) -> (same: bool)
    ensures
        same == (a@ == b@),
{
    if a.len() != b.len() {
        return false;
    }
    let mut i: usize = 0;
    while i < a.len()
        invariant
            i <= a@.len(),
            a@.len() == b@.len(),
            forall|k: int| 0 <= k < i ==> a@[k] == b@[k],
        decreases a@.len() - i,
    {
        if a[i] != b[i] {
            return false;
        }
        i = i + 1;
    }
    assert(a@ =~= b@);
    true
}

/// Whether the first output pays to the script that was read.
pub fn first_output_pays(outputs: &[TxOut], script: Result<Vec<u8>, String>) -> (pays: bool)
    ensures
        pays == first_pays(
            crate::work::outputs_of(outputs@),
            match script {
                Ok(s) => Ok(s@),
                Err(message) => Err(message@),
            },
        ),
{
    match script {
        Ok(s) => outputs.len() > 0 && same_bytes(&outputs[0].script_pubkey, &s),
        Err(_) => false,
    }
}

/// Whether two optional texts are the same.
pub open spec fn same_tip(a: Option<String>, b: Option<String>) -> bool {
    match (a, b) {
        (Some(x), Some(y)) => x@ == y@,
        (None, None) => true,
        _ => false,
    }
}

/// Whether two chain tips are the same.
fn tips_equal(a: &Option<String>, b: &Option<String>) -> (same: bool)
    ensures
        same == same_tip(*a, *b),
{
    match (a, b) {
        (Some(x), Some(y)) => same_text(x.as_str(), y.as_str()),
        (None, None) => true,
        _ => false,
    }
}

/// The message for a token that is too short.
pub open spec fn short_token() -> Seq<char> {
    "GridPool adapter token must contain at least 32 characters"@
}

/// The adapter token that a token file holds: its text without white space at the ends.
pub fn adapter_token(text: &str) -> (token: Result<String, String>)
    ensures
        match token {
            Ok(t) => t@ == crate::text::trimmed(text@) && vstd::utf8::encode_utf8(t@).len() as usize
                >= MIN_TOKEN_BYTES,
            Err(message) => message@ == short_token() && (vstd::utf8::encode_utf8(
                crate::text::trimmed(text@),
            ).len() as usize) < MIN_TOKEN_BYTES,
        },
{
    let token = trim(text);
    if token.len() < MIN_TOKEN_BYTES {
        return Err("GridPool adapter token must contain at least 32 characters".to_owned());
    }
    Ok(token.to_owned())
}

/// The first complaint about an address, if it has no payout script on the network.
pub open spec fn address_complaint(address: Seq<char>, network: Seq<char>) -> Option<Seq<char>> {
    match crate::address::payout_script(address, network) {
        Ok(_) => None,
        Err(message) => Some(message),
    }
}

/// The first complaint about settings, token and work when the adapter is set up.
pub open spec fn setup_complaint(
    config: GridPoolConfig,
    token_text: Seq<char>,
    network: Seq<char>,
) -> Option<Seq<char>> {
    if config.complaint() is Some {
        config.complaint()
    } else if (vstd::utf8::encode_utf8(crate::text::trimmed(token_text)).len() as usize)
        < MIN_TOKEN_BYTES {
        Some(short_token())
    } else if crate::address::network_named(network) is None {
        Some(crate::address::unsupported_network(network))
    } else if address_complaint(config.fallback_payout_address@, network) is Some {
        address_complaint(config.fallback_payout_address@, network)
    } else {
        match config.operator_fee_address {
            Some(address) => address_complaint(address@, network),
            None => None,
        }
    }
}

impl GridPoolClient {
    /// Whether the adapter is in a state that its own operations lead to: telemetry holds at most
    /// one aggregate for each channel and payout address.
    pub open spec fn wf(self) -> bool {
        crate::telemetry::all_distinct(self.telemetry@)
    }

    /// Whether all but telemetry is the same in two adapters.
    pub open spec fn same_but_telemetry(self, other: GridPoolClient) -> bool {
        &&& self.config == other.config
        &&& self.token == other.token
        &&& self.work == other.work
        &&& self.advice == other.advice
        &&& self.last_pulse == other.last_pulse
    }

    /// Sets the adapter up from its settings, the text of the token file, and the node's first
    /// answers.
    pub fn connect(
        config: GridPoolConfig,
        token_text: &str,
        work: WorkSelection,
        advice: ShareAdvice,
    ) -> (client: Result<GridPoolClient, String>)
        ensures
            match client {
                Ok(c) => {
                    &&& setup_complaint(config, token_text@, work.bitcoin_network@) is None
                    &&& c.wf()
                    &&& c.config == config
                    &&& c.token@ == crate::text::trimmed(token_text@)
                    &&& c.work == work
                    &&& c.advice == advice
                    &&& c.last_pulse@ == Map::<u64, u64>::empty()
                    &&& c.telemetry@ == Seq::<crate::telemetry::Aggregate>::empty()
                },
                Err(message) => setup_complaint(config, token_text@, work.bitcoin_network@)
                    == Some(message@),
            },
    {
        if let Err(message) = validate_config(&config) {
            return Err(message);
        }
        let token = match adapter_token(token_text) {
            Ok(token) => token,
            Err(message) => return Err(message),
        };
        let network = work.bitcoin_network.as_str();
        if let Err(message) = parse_network(network) {
            return Err(message);
        }
        if let Err(message) = parse_address(config.fallback_payout_address.as_str(), network) {
            return Err(message);
        }
        if let Some(address) = &config.operator_fee_address {
            if let Err(message) = parse_address(address.as_str(), network) {
                return Err(message);
            }
        }
        Ok(
            GridPoolClient {
                config,
                token,
                work,
                advice,
                last_pulse: HashMap::new(),
                telemetry: Telemetry::new(),
            },
        )
    }

    /// What the node wants mined.
    pub fn work(&self) -> (work: &WorkSelection)
        ensures
            *work == self.work,
    {
        &self.work
    }

    /// Takes over a fresh work selection of the node.
    pub fn set_work(&mut self, work: WorkSelection)
        ensures
            *final(self) == (GridPoolClient { work, ..*old(self) }),
            old(self).wf() ==> final(self).wf(),
    {
        self.work = work;
    }

    /// Takes over fresh advice of the node.
    pub fn set_advice(&mut self, advice: ShareAdvice)
        ensures
            *final(self) == (GridPoolClient { advice, ..*old(self) }),
            old(self).wf() ==> final(self).wf(),
    {
        self.advice = advice;
    }

    /// Looks at the node's answer number `polls` (the first is number zero) after the chain tip
    /// moved away from `previous_tip`. The work is taken over once its tip has moved, at once if
    /// there was no tip before; after the last question the wait has failed.
    pub fn refresh_for_chain_tip(
        &mut self,
        previous_tip: &Option<String>,
        polls: u32,
        fetched: WorkSelection,
    ) -> (step: RefreshStep)
        requires
            polls < TIP_POLLS,
        ensures
            ({
                let moved = *previous_tip is None || !same_tip(
                    fetched.current_tip_block_hash,
                    *previous_tip,
                );
                if moved {
                    step is Adopted && *final(self) == (GridPoolClient {
                        work: fetched,
                        ..*old(self)
                    })
                } else {
                    &&& *final(self) == *old(self)
                    &&& if polls + 1 < TIP_POLLS {
                        step == (RefreshStep::Poll { pause_ms: TIP_POLL_PAUSE_MS })
                    } else {
                        step matches RefreshStep::GiveUp { pause_ms, message } && pause_ms
                            == TIP_POLL_PAUSE_MS && message@
                            == "GridPool work selection did not advance to the new chain tip"@
                    }
                }
            }),
            old(self).wf() ==> final(self).wf(),
    {
        if previous_tip.is_none() || !tips_equal(&fetched.current_tip_block_hash, previous_tip) {
            self.work = fetched;
            RefreshStep::Adopted
        } else if polls + 1 < TIP_POLLS {
            RefreshStep::Poll { pause_ms: TIP_POLL_PAUSE_MS }
        } else {
            RefreshStep::GiveUp {
                pause_ms: TIP_POLL_PAUSE_MS,
                message: "GridPool work selection did not advance to the new chain tip".to_owned(),
            }
        }
    }

    /// The script of an address on the network of the current work, or the message that tells
    /// why there is none.
    pub open spec fn script_of(self, address: Seq<char>) -> Result<Seq<u8>, Seq<char>> {
        crate::address::payout_script(address, self.work.bitcoin_network@)
    }

    /// Who is paid for a channel with the given identity.
    pub fn resolve_channel(&self, identity: &str) -> (payout: Result<ChannelPayout, String>)
        ensures
            same_payout(
                payout,
                channel_payout(
                    identity@,
                    self.script_of(explicit_part(crate::text::trimmed(identity@))),
                    self.config.fallback_payout_address@,
                ),
            ),
    {
        let explicit = explicit_text(trim(identity));
        let reading = parse_address(explicit.as_str(), self.work.bitcoin_network.as_str());
        assign_payout(identity, reading, self.config.fallback_payout_address.as_str())
    }

    /// Whether the fee slice of a payout address is open at a time.
    pub open spec fn fee_is_active(self, payout_address: Seq<char>, unix_seconds: int) -> bool {
        self.config.takes_fee() && in_fee_slice(
            unix_seconds,
            self.config.cycle(),
            fee_offset(self.token@, payout_address, self.config.cycle()),
            self.config.fee_span(),
        )
    }

    /// Whether the work of a payout address is done for the operator at a time.
    pub fn fee_active(&self, payout_address: &str, unix_seconds: u64) -> (active: bool)
        ensures
            active == self.fee_is_active(payout_address@, unix_seconds as int),
    {
        if !self.config.fee_enabled() {
            return false;
        }
        let cycle = if self.config.fee_cycle_seconds == 0 {
            1
        } else {
            self.config.fee_cycle_seconds
        };
        let rounded = self.config.operator_fee_seconds;
        let span = if rounded < 1 {
            1
        } else if rounded > cycle {
            cycle
        } else {
            rounded
        };
        let mut seed: Vec<u8> = Vec::new();
        extend_bytes(&mut seed, self.token.as_str().as_bytes());
        extend_bytes(&mut seed, payout_address.as_bytes());
        assert(seed@ =~= vstd::utf8::encode_utf8(self.token@) + vstd::utf8::encode_utf8(
            payout_address@,
        ));
        let digest = sha256(seed.as_slice());
        let offset = leading_u64(&digest) % cycle;
        fee_slice_open(unix_seconds, cycle, offset, span)
    }

    /// The address that slot zero pays at a time: that of the operator while the fee slice is
    /// open, or else that of the channel.
    pub open spec fn slot_zero_address(
        self,
        payout_address: Seq<char>,
        unix_seconds: int,
    ) -> Seq<char> {
        if self.fee_is_active(payout_address, unix_seconds) {
            self.config.operator_fee_address->0@
        } else {
            payout_address
        }
    }

    /// The coinbase outputs of a job for a payout address at a time, for a block worth `total`, or
    /// the message that tells why there are none.
    pub open spec fn outputs_at(self, payout_address: Seq<char>, total: int, unix_seconds: int) -> Result<
        Seq<crate::work::Output>,
        Seq<char>,
    > {
        crate::work::block_outputs(
            self.work.coinbase_outputs@,
            total,
            self.script_of(self.slot_zero_address(payout_address, unix_seconds)),
        )
    }

    /// The coinbase outputs of a job for a channel at a time, for a block worth `total_value`.
    pub fn coinbase_outputs_at(
        &self,
        payout: &ChannelPayout,
        total_value: u64,
        unix_seconds: u64,
    ) -> (outputs: Result<Vec<TxOut>, String>)
        ensures
            same_outputs(
                outputs,
                self.outputs_at(payout.payout_address@, total_value as int, unix_seconds as int),
            ),
    {
        let mut address = payout.payout_address.as_str();
        if self.fee_active(payout.payout_address.as_str(), unix_seconds) {
            if let Some(operator) = &self.config.operator_fee_address {
                address = operator.as_str();
            }
        }
        let reading = parse_address(address, self.work.bitcoin_network.as_str());
        assemble_outputs(&self.work.coinbase_outputs, total_value, reading)
    }

    /// The coinbase outputs of a job for a channel, for a block worth `total_value`. The clock
    /// says whether the fee slice is open.
    pub fn coinbase_outputs(&self, payout: &ChannelPayout, total_value: u64) -> (outputs: Result<
        Vec<TxOut>,
        String,
    >)
        ensures
            exists|reading: std::time::SystemTime|
                same_outputs(
                    outputs,
                    self.outputs_at(
                        payout.payout_address@,
                        total_value as int,
                        crate::clock::seconds_of(#[trigger] crate::clock::elapsed_at(reading)) as int,
                    ),
                ),
    {
        let now = now_seconds();
        self.coinbase_outputs_at(payout, total_value, now)
    }

    /// The coinbase outputs for which room must be kept: those of a block that is worth one
    /// satoshi more than the payout suffix, paid to the fallback address. The clock says whether
    /// the fee slice is open.
    pub fn constraint_outputs(&self) -> (outputs: Result<Vec<TxOut>, String>)
        requires
            crate::work::suffix_value(self.work.coinbase_outputs@) < u64::MAX,
        ensures
            exists|reading: std::time::SystemTime|
                same_outputs(
                    outputs,
                    self.outputs_at(
                        self.config.fallback_payout_address@,
                        crate::work::suffix_value(self.work.coinbase_outputs@) + 1,
                        crate::clock::seconds_of(#[trigger] crate::clock::elapsed_at(reading)) as int,
                    ),
                ),
    {
        let payout = ChannelPayout {
            payout_address: self.config.fallback_payout_address.clone(),
            username: "constraints".to_owned(),
        };
        let suffix_value = suffix_sum(&self.work.coinbase_outputs).unwrap();
        self.coinbase_outputs(&payout, suffix_value + 1)
    }

    /// Whether a share of a channel and payout address can still be counted.
    pub fn can_record(&self, channel_id: u32, payout_address: &str, accepted: bool) -> (room: bool)
        requires
            self.wf(),
        ensures
            room == self.telemetry.can_count(channel_id, payout_address@, accepted),
    {
        self.telemetry.has_room(channel_id, payout_address, accepted)
    }

    /// Gathers telemetry of one share at the time `now_ms`.
    pub fn record_telemetry_at(&mut self, delta: TelemetryDelta, now_ms: u128)
        requires
            old(self).wf(),
            old(self).telemetry.can_count(
                delta.channel_id,
                delta.payout_address@,
                delta.accepted,
            ),
        ensures
            final(self).wf(),
            final(self).telemetry@ == crate::telemetry::recorded(
                old(self).telemetry@,
                delta@,
                now_ms,
            ),
            final(self).same_but_telemetry(*old(self)),
    {
        self.telemetry.record(delta, now_ms);
    }

    /// Gathers telemetry of one share, at the time that the clock shows.
    pub fn record_telemetry(&mut self, delta: TelemetryDelta)
        requires
            old(self).wf(),
            old(self).telemetry.can_count(
                delta.channel_id,
                delta.payout_address@,
                delta.accepted,
            ),
        ensures
            final(self).wf(),
            exists|reading: std::time::SystemTime|
                final(self).telemetry@ == crate::telemetry::recorded(
                    old(self).telemetry@,
                    delta@,
                    crate::clock::millis_of(#[trigger] crate::clock::elapsed_at(reading)) as u128,
                ),
            final(self).same_but_telemetry(*old(self)),
    {
        let now_ms = now_millis();
        self.record_telemetry_at(delta, now_ms);
    }

    /// Takes the gathered telemetry out for a batch; `None` if there is none.
    pub fn flush_telemetry(&mut self) -> (batch: Option<TelemetryBatch>)
        ensures
            final(self).wf(),
            final(self).telemetry@ == Seq::<crate::telemetry::Aggregate>::empty(),
            final(self).same_but_telemetry(*old(self)),
            match batch {
                Some(b) => old(self).telemetry@.len() > 0 && b.reports(old(self).telemetry@),
                None => old(self).telemetry@.len() == 0,
            },
    {
        let entries = self.telemetry.drain();
        if entries.len() == 0 {
            return None;
        }
        Some(TelemetryBatch { source_instance: "gridpool-sv2-pool".to_owned(), entries })
    }

    /// The time of the last pulse proof of a channel, zero if it had none.
    pub open spec fn last_pulse_of(self, channel_key: u64) -> u64 {
        if self.last_pulse@.contains_key(channel_key) {
            self.last_pulse@[channel_key]
        } else {
            0
        }
    }

    /// Whether a share deserves a proof whatever the time: it is a block or enters the reserve.
    pub open spec fn always_proved(self, achieved: Double, is_block: bool) -> bool {
        is_block || achieved.is_at_least(self.work.minimum_difficulty_to_enter_reserve)
    }

    /// Whether a share is fit for a pulse proof at a time: pulses are wanted, the share is not
    /// below their least difficulty, and enough time has passed since the last one.
    pub open spec fn pulse_due(self, channel_key: u64, achieved: Double, now: u64) -> bool {
        let interval = if self.advice.pulse_target_interval_seconds < 1 {
            1
        } else {
            self.advice.pulse_target_interval_seconds as int
        };
        let previous = self.last_pulse_of(channel_key);
        &&& self.advice.pulse_proofs_enabled
        &&& !is_below(achieved, self.advice.minimum_pulse_difficulty)
        &&& now >= previous && now - previous >= interval
    }

    /// Whether a proof of a share is sent at a time.
    pub open spec fn proves(
        self,
        channel_key: u64,
        achieved: Double,
        is_block: bool,
        now: u64,
    ) -> bool {
        self.always_proved(achieved, is_block) || self.pulse_due(channel_key, achieved, now)
    }

    /// The times of the last pulse proofs after a share: a pulse proof starts a new interval for
    /// its channel; any other share changes nothing.
    pub open spec fn pulses_after(
        self,
        channel_key: u64,
        achieved: Double,
        is_block: bool,
        now: u64,
    ) -> Map<u64, u64> {
        if !self.always_proved(achieved, is_block) && self.pulse_due(channel_key, achieved, now) {
            self.last_pulse@.insert(channel_key, now)
        } else {
            self.last_pulse@
        }
    }

    /// Whether all but the times of pulse proofs is the same in two adapters.
    pub open spec fn same_but_pulses(self, other: GridPoolClient) -> bool {
        &&& self.config == other.config
        &&& self.token == other.token
        &&& self.work == other.work
        &&& self.advice == other.advice
        &&& self.telemetry == other.telemetry
    }

    /// Whether a proof of a share is sent. The clock says whether a pulse is due.
    pub fn should_submit_proof(
        &mut self,
        channel_key: u64,
        achieved_difficulty: Double,
        is_block: bool,
    ) -> (submit: bool)
        ensures
            exists|reading: std::time::SystemTime|
                {
                    let now = crate::clock::seconds_of(#[trigger] crate::clock::elapsed_at(reading));
                    &&& submit == old(self).proves(
                        channel_key,
                        achieved_difficulty,
                        is_block,
                        now,
                    )
                    &&& final(self).last_pulse@ == old(self).pulses_after(
                        channel_key,
                        achieved_difficulty,
                        is_block,
                        now,
                    )
                },
            final(self).same_but_pulses(*old(self)),
            old(self).wf() ==> final(self).wf(),
    {
        let now = now_seconds();
        self.should_submit_proof_at(channel_key, achieved_difficulty, is_block, now)
    }

    /// Whether a proof of a share is sent at the time `now`.
    pub fn should_submit_proof_at(
        &mut self,
        channel_key: u64,
        achieved_difficulty: Double,
        is_block: bool,
        now: u64,
    ) -> (submit: bool)
        ensures
            submit == old(self).proves(channel_key, achieved_difficulty, is_block, now),
            final(self).last_pulse@ == old(self).pulses_after(
                channel_key,
                achieved_difficulty,
                is_block,
                now,
            ),
            final(self).same_but_pulses(*old(self)),
            old(self).wf() ==> final(self).wf(),
    {
        if is_block || achieved_difficulty.at_least(self.work.minimum_difficulty_to_enter_reserve) {
            return true;
        }
        if !self.advice.pulse_proofs_enabled || below(
            achieved_difficulty,
            self.advice.minimum_pulse_difficulty,
        ) {
            return false;
        }
        let previous = match self.last_pulse.get(&channel_key) {
            Some(time) => *time,
            None => 0,
        };
        let interval = if self.advice.pulse_target_interval_seconds < 1 {
            1
        } else {
            self.advice.pulse_target_interval_seconds
        };
        if now.saturating_sub(previous) < interval {
            return false;
        }
        self.last_pulse.insert(channel_key, now);
        true
    }

    /// Whether a job with the given outputs, of a channel that is paid to the given address, is
    /// mined for the operator.
    pub open spec fn pays_operator(
        self,
        outputs: Seq<crate::work::Output>,
        payout_address: Seq<char>,
    ) -> bool {
        match self.config.operator_fee_address {
            Some(operator) => operator@ != payout_address && first_pays(
                outputs,
                self.script_of(operator@),
            ),
            None => false,
        }
    }

    /// Whether a job with the given outputs is mined for the operator.
    pub fn is_fee_job(&self, outputs: &[TxOut], payout: &ChannelPayout) -> (fee: bool)
        ensures
            fee == self.pays_operator(
                crate::work::outputs_of(outputs@),
                payout.payout_address@,
            ),
    {
        match &self.config.operator_fee_address {
            Some(operator) => {
                if same_text(operator.as_str(), payout.payout_address.as_str()) || outputs.len()
                    == 0 {
                    return false;
                }
                let script = parse_address(operator.as_str(), self.work.bitcoin_network.as_str());
                first_output_pays(outputs, script)
            },
            None => false,
        }
    }
}

/// Whether `a < b` holds of the numbers.
pub open spec fn is_below(a: Double, b: Double) -> bool {
    !a.is_nan() && !b.is_nan() && a.rank() < b.rank()
}

/// Whether `a < b`.
fn below(a: Double, b: Double) -> (holds: bool)
    ensures
        holds == is_below(a, b),
{
    b.at_least(a) && !a.at_least(b)
}

/// Blocks and shares that enter the reserve are always proved, and start no pulse interval.
pub proof fn blocks_and_reserve_candidates_are_always_proved(
    client: GridPoolClient,
    channel_key: u64,
    achieved: Double,
    is_block: bool,
    now: u64,
)
    requires
        is_block || achieved.is_at_least(client.work.minimum_difficulty_to_enter_reserve),
    ensures
        client.proves(channel_key, achieved, is_block, now),
        client.pulses_after(channel_key, achieved, is_block, now) == client.last_pulse@,
{
}

/// Two pulse proofs of a channel are at least the pulse interval apart: after a pulse proof at
/// `first`, no pulse proof is due before the interval has passed.
pub proof fn pulses_keep_their_interval(
    before: GridPoolClient,
    after: GridPoolClient,
    channel_key: u64,
    achieved: Double,
    first: u64,
    second: u64,
)
    requires
        after.last_pulse@ == before.last_pulse@.insert(channel_key, first),
        after.advice == before.advice,
        after.pulse_due(channel_key, achieved, second),
    ensures
        second >= first + 1,
        second >= first + before.advice.pulse_target_interval_seconds,
{
}

/// The explicit part of an identity is a part of it that ends at a separator: behind `sri/solo/` it
/// goes up to the next slash, and in any other identity up to the first dot.
pub proof fn explicit_parts_end_at_their_separator(trimmed: Seq<char>)
    ensures
        ({
            let solo = trimmed.len() >= 9 && trimmed.take(9) == "sri/solo/"@;
            let from: int = if solo {
                9
            } else {
                0
            };
            let separator = if solo {
                '/'
            } else {
                '.'
            };
            let to = from + explicit_part(trimmed).len();
            &&& to <= trimmed.len()
            &&& explicit_part(trimmed) == trimmed.subrange(from, to)
            &&& forall|k: int| from <= k < to ==> trimmed[k] != separator
            &&& to < trimmed.len() ==> trimmed[to] == separator
        }),
{
    reveal_strlit("sri/solo/");
    let solo = trimmed.len() >= 9 && trimmed.take(9) == "sri/solo/"@;
    let from: int = if solo {
        9
    } else {
        0
    };
    let separator = if solo {
        '/'
    } else {
        '.'
    };
    let rest = trimmed.skip(from);
    assert(trimmed.skip(0) =~= trimmed);
    let part = explicit_part(trimmed);
    let to = from + part.len();
    crate::text::parts_end_at_the_first_separator(rest, separator);
    assert(part =~= trimmed.subrange(from, to)) by {
        assert(rest.take(part.len() as int) =~= trimmed.subrange(from, to));
    }
    assert forall|k: int| from <= k < to implies trimmed[k] != separator by {
        assert(part[k - from] == trimmed[k]);
        assert(part.contains(part[k - from]));
    }
}

/// Whoever names a payout address that can be read is paid at that address, whatever else the
/// identity says and whatever the fallback is. The fallback is paid for an identity that names no
/// address and is not meant to, and an identity that is meant to and does not is refused. The user
/// name is the identity without white space around it, and `sv2` for one that holds nothing.
pub proof fn named_addresses_are_paid(
    identity: &str,
    reading: Result<Vec<u8>, String>,
    fallback: &str,
    payout: Result<ChannelPayout, String>,
)
    requires
        call_ensures(assign_payout, (identity, reading, fallback), payout),
    ensures
        ({
            let trimmed = crate::text::trimmed(identity@);
            let explicit = explicit_part(trimmed);
            &&& reading is Ok ==> {
                &&& payout is Ok
                &&& payout->Ok_0.payout_address@ == explicit
                &&& payout->Ok_0.username@ == trimmed
            }
            &&& reading is Err && crate::address::is_address_like(explicit) ==> {
                &&& payout is Err
                &&& payout->Err_0@ == reading->Err_0@
            }
            &&& reading is Err && !crate::address::is_address_like(explicit) ==> {
                &&& payout is Ok
                &&& payout->Ok_0.payout_address@ == fallback@
                &&& trimmed.len() > 0 ==> payout->Ok_0.username@ == trimmed
                &&& trimmed.len() == 0 ==> payout->Ok_0.username@ == "sv2"@
            }
        }),
{
}

/// A worker's name behind an address, set off by a dot, makes no difference to who is paid.
pub proof fn workers_of_an_address_are_paid_alike(address: Seq<char>, worker: Seq<char>)
    requires
        !address.contains('.'),
        address.len() > 0,
        !(address.len() >= 9 && address.take(9) == "sri/solo/"@),
        !(address.len() + 1 + worker.len() >= 9 && (address + seq!['.'] + worker).take(9)
            == "sri/solo/"@),
    ensures
        explicit_part(address + seq!['.'] + worker) == address,
        explicit_part(address) == address,
{
    reveal_strlit("sri/solo/");
    let named = address + seq!['.'] + worker;
    assert forall|k: int| 0 <= k < address.len() implies named[k] != '.' by {
        assert(address.contains(address[k]));
    }
    assert forall|k: int| 0 <= k < address.len() implies address[k] != '.' by {
        assert(address.contains(address[k]));
    }
    crate::text::lemma_before(named, '.', address.len() as int);
    crate::text::lemma_before(address, '.', address.len() as int);
    assert(named.take(address.len() as int) =~= address);
    assert(address.take(address.len() as int) =~= address);
}

/// The number of seconds among the `count` seconds from `from` on in which the work of a payout
/// address is done for the operator.
pub open spec fn active_seconds(
    client: GridPoolClient,
    payout_address: Seq<char>,
    from: int,
    count: nat,
) -> int
    decreases count,
{
    if count == 0 {
        0
    } else {
        (if client.fee_is_active(payout_address, from) {
            1int
        } else {
            0int
        }) + active_seconds(client, payout_address, from + 1, (count - 1) as nat)
    }
}

/// Where a fee is taken, the active seconds are those of the slice.
proof fn lemma_active_seconds(
    client: GridPoolClient,
    payout_address: Seq<char>,
    from: int,
    count: nat,
)
    requires
        client.config.takes_fee(),
    ensures
        active_seconds(client, payout_address, from, count) == fee_seconds(
            from,
            count,
            client.config.cycle(),
            fee_offset(client.token@, payout_address, client.config.cycle()),
            client.config.fee_span(),
        ),
    decreases count,
{
    if count > 0 {
        lemma_active_seconds(client, payout_address, from + 1, (count - 1) as nat);
    }
}

/// The seconds of a cycle in which the fee is taken, as the settings give them: at least one, and no
/// more than the cycle has.
pub proof fn fees_take_the_seconds_of_the_settings(
    client: GridPoolClient,
    payout_address: Seq<char>,
    from: int,
)
    requires
        0 <= from,
        client.config.operator_fee_address is Some,
        client.config.operator_fee_percent.bits != 0,
        !(0x8000_0000_0000_0000 <= client.config.operator_fee_percent.bits
            <= 0xfff0_0000_0000_0000),
        client.config.fee_cycle_seconds >= 1,
    ensures
        ({
            let cycle = client.config.fee_cycle_seconds;
            let wanted = client.config.operator_fee_seconds;
            let taken = active_seconds(client, payout_address, from, cycle as nat);
            &&& 1 <= wanted <= cycle ==> taken == wanted
            &&& wanted == 0 ==> taken == 1
            &&& wanted > cycle ==> taken == cycle
        }),
{
    lemma_active_seconds(client, payout_address, from, client.config.fee_cycle_seconds as nat);
    fee_takes_its_seconds_of_every_cycle(client, payout_address, from);
}

/// The second of a cycle that token and address stand for: the first eight bytes of the SHA-256
/// digest of both, as a number with the highest byte first and modulo the cycle.
pub open spec fn fee_start(token: Seq<char>, payout_address: Seq<char>, cycle: int) -> int {
    let seed = vstd::utf8::encode_utf8(token) + vstd::utf8::encode_utf8(payout_address);
    let digest = crate::hashing::sha256_digest(seed);
    crate::encoding::big_endian_value(digest.subrange(0, 8)) as int % cycle
}

/// In every cycle the fee is taken for the seconds that the settings say, without a gap, from the
/// second on that token and address stand for.
pub proof fn fee_slices_start_where_the_digest_says(
    client: GridPoolClient,
    payout_address: &str,
    unix_seconds: u64,
    active: bool,
    round: int,
    k: int,
)
    requires
        call_ensures(
            GridPoolClient::fee_active,
            (&client, payout_address, unix_seconds),
            active,
        ),
        client.config.operator_fee_address is Some,
        client.config.operator_fee_percent.bits != 0,
        !(0x8000_0000_0000_0000 <= client.config.operator_fee_percent.bits
            <= 0xfff0_0000_0000_0000),
        1 <= client.config.operator_fee_seconds <= client.config.fee_cycle_seconds,
        0 <= k < client.config.fee_cycle_seconds,
        unix_seconds == round * client.config.fee_cycle_seconds + fee_start(
            client.token@,
            payout_address@,
            client.config.fee_cycle_seconds as int,
        ) + k,
    ensures
        active <==> k < client.config.operator_fee_seconds,
{
    let cycle = client.config.fee_cycle_seconds as int;
    let start = fee_offset(client.token@, payout_address@, cycle);
    let second = round * cycle + start + k;
    assert(start == fee_start(client.token@, payout_address@, cycle));
    assert(second == unix_seconds);
    assert(second + cycle - start == (round + 1) * cycle + k) by (nonlinear_arith)
        requires
            second == round * cycle + start + k,
    ;
    vstd::arithmetic::div_mod::lemma_mod_multiples_vanish(round + 1, k, cycle);
    vstd::arithmetic::div_mod::lemma_small_mod(k as nat, cycle as nat);
    assert((second + cycle - start) % cycle == k) by {
        assert((round + 1) * cycle + k == cycle * (round + 1) + k) by (nonlinear_arith);
    }
}

/// Without an address, or at no percentage above zero, no fee is taken at any time.
pub proof fn no_fee_is_taken_without_need(
    client: GridPoolClient,
    payout_address: Seq<char>,
    unix_seconds: int,
)
    requires
        client.config.operator_fee_address is None || client.config.operator_fee_percent.bits == 0
            || 0x8000_0000_0000_0000 <= client.config.operator_fee_percent.bits
            <= 0xfff0_0000_0000_0000,
    ensures
        !client.fee_is_active(payout_address, unix_seconds),
{
}

/// Slot zero pays to the operator while the fee is taken and to the channel at any other time; the
/// value of the other outputs and their scripts are those that the node asks for, in its order.
pub proof fn slot_zero_pays_whose_turn_it_is(
    client: GridPoolClient,
    payout: ChannelPayout,
    total: u64,
    unix_seconds: u64,
    outputs: Result<Vec<TxOut>, String>,
    k: int,
)
    requires
        call_ensures(
            GridPoolClient::coinbase_outputs_at,
            (&client, &payout, total, unix_seconds),
            outputs,
        ),
        outputs is Ok,
    ensures
        ({
            let list = outputs->Ok_0@;
            let suffix = client.work.coinbase_outputs@;
            let active = client.fee_is_active(payout.payout_address@, unix_seconds as int);
            let network = client.work.bitcoin_network@;
            &&& list.len() == suffix.len() + 1
            &&& 0 <= k < suffix.len() ==> {
                &&& list[k + 1].value == suffix[k].value
                &&& list[k + 1].script_pubkey@ == crate::encoding::hex_bytes(
                    suffix[k].script_pub_key_hex@,
                )
            }
            &&& list[0].value == total - crate::work::sum_of(
                suffix.map_values(|o: GridPoolOutput| o.value),
            )
            &&& active ==> crate::address::payout_script(
                client.config.operator_fee_address->0@,
                network,
            ) == Ok::<Seq<u8>, Seq<char>>(list[0].script_pubkey@)
            &&& !active ==> crate::address::payout_script(payout.payout_address@, network)
                == Ok::<Seq<u8>, Seq<char>>(list[0].script_pubkey@)
        }),
{
    let list = outputs->Ok_0@;
    let views = crate::work::outputs_of(list);
    crate::work::outputs_are_slot_zero_and_the_suffix(
        client.work.coinbase_outputs@,
        total as int,
        client.script_of(client.slot_zero_address(payout.payout_address@, unix_seconds as int)),
        k,
    );
    assert(views[0] == list[0]@);
    assert(views.len() == list.len());
    if 0 <= k < client.work.coinbase_outputs@.len() {
        assert(views[k + 1] == list[k + 1]@);
    }
}

/// A share that is no block and does not enter the reserve is proved if and only if the node wants
/// pulses, the share is not below their difficulty, and the pulse interval, of at least a second,
/// has passed since the last pulse of the channel, or since the epoch if it had none. Then the time
/// of its last pulse is now; otherwise no time changes, and never that of another channel.
pub proof fn pulses_are_sent_as_the_node_wants(
    client: GridPoolClient,
    channel_key: u64,
    achieved: Double,
    now: u64,
    other: u64,
)
    requires
        !achieved.is_at_least(client.work.minimum_difficulty_to_enter_reserve),
    ensures
        ({
            let last: int = if client.last_pulse@.contains_key(channel_key) {
                client.last_pulse@[channel_key] as int
            } else {
                0
            };
            let least = client.advice.minimum_pulse_difficulty;
            let wanted = client.advice.pulse_target_interval_seconds;
            let after = client.pulses_after(channel_key, achieved, false, now);
            let proved = client.proves(channel_key, achieved, false, now);
            &&& proved <==> {
                &&& client.advice.pulse_proofs_enabled
                &&& achieved.is_at_least(least) || !least.is_at_least(achieved)
                &&& now >= last + wanted
                &&& now >= last + 1
            }
            &&& proved ==> after.contains_key(channel_key) && after[channel_key] == now
            &&& !proved ==> after == client.last_pulse@
            &&& other != channel_key ==> (after.contains_key(other)
                <==> client.last_pulse@.contains_key(other)) && (client.last_pulse@.contains_key(
                other,
            ) ==> after[other] == client.last_pulse@[other])
        }),
{
}

/// A block is always proved, and so is a share that enters the reserve; the times of pulses stay as
/// they are.
pub proof fn better_shares_are_proved_no_less(
    client: GridPoolClient,
    channel_key: u64,
    achieved: Double,
    better: Double,
    is_block: bool,
    now: u64,
)
    requires
        client.proves(channel_key, achieved, is_block, now),
        better.is_at_least(achieved),
    ensures
        client.proves(channel_key, better, is_block, now),
        client.proves(channel_key, better, true, now),
{
}

/// A job is mined for the operator if and only if there is an operator that is not the payee of the
/// channel, and the first output pays to the operator's script.
pub proof fn fee_jobs_pay_the_operator_first(
    client: GridPoolClient,
    outputs: Seq<TxOut>,
    payout_address: Seq<char>,
)
    ensures
        client.pays_operator(crate::work::outputs_of(outputs), payout_address) <==> {
            &&& client.config.operator_fee_address is Some
            &&& client.config.operator_fee_address->0@ != payout_address
            &&& outputs.len() > 0
            &&& crate::address::payout_script(
                client.config.operator_fee_address->0@,
                client.work.bitcoin_network@,
            ) == Ok::<Seq<u8>, Seq<char>>(outputs[0].script_pubkey@)
        },
{
    let views = crate::work::outputs_of(outputs);
    if outputs.len() > 0 {
        assert(views[0] == outputs[0]@);
    }
}

/// The adapter is set up if and only if its settings are good, its token has at least 32 bytes, and
/// both addresses can be paid on the network of the node; the message names the first of these that
/// fails.
pub proof fn setup_fails_for_the_first_reason(
    config: GridPoolConfig,
    token_text: Seq<char>,
    network: Seq<char>,
)
    ensures
        ({
            let complaint = setup_complaint(config, token_text, network);
            let short = (vstd::utf8::encode_utf8(crate::text::trimmed(token_text)).len() as usize)
                < 32;
            let fallback = crate::address::payout_script(config.fallback_payout_address@, network);
            let operator = crate::address::payout_script(
                config.operator_fee_address->0@,
                network,
            );
            let addressed = config.operator_fee_address is None || operator is Ok;
            &&& complaint is None <==> config.complaint() is None && !short && fallback is Ok
                && addressed
            &&& config.complaint() is Some ==> complaint == config.complaint()
            &&& config.complaint() is None && short ==> complaint == Some(
                "GridPool adapter token must contain at least 32 characters"@,
            )
            &&& config.complaint() is None && !short && fallback is Err ==> complaint == Some(
                fallback->Err_0,
            )
            &&& config.complaint() is None && !short && fallback is Ok && !addressed
                ==> complaint == Some(operator->Err_0)
        }),
{
}

/// How many of some answers are yes.
pub open spec fn yes_count(answers: Seq<bool>) -> int
    decreases answers.len(),
{
    if answers.len() == 0 {
        0
    } else {
        (if answers[0] {
            1int
        } else {
            0int
        }) + yes_count(answers.drop_first())
    }
}

/// Answers for seconds in a row count the active seconds.
proof fn lemma_answers(
    client: GridPoolClient,
    payout_address: &str,
    from: u64,
    answers: Seq<bool>,
)
    requires
        from + answers.len() <= u64::MAX,
        forall|i: int|
            0 <= i < answers.len() ==> call_ensures(
                GridPoolClient::fee_active,
                (&client, payout_address, (from + i) as u64),
                #[trigger] answers[i],
            ),
    ensures
        yes_count(answers) == active_seconds(
            client,
            payout_address@,
            from as int,
            answers.len(),
        ),
    decreases answers.len(),
{
    if answers.len() > 0 {
        let rest = answers.drop_first();
        assert(answers[0] == client.fee_is_active(payout_address@, from as int));
        let next = (from + 1) as u64;
        assert forall|i: int| 0 <= i < rest.len() implies call_ensures(
            GridPoolClient::fee_active,
            (&client, payout_address, (next + i) as u64),
            #[trigger] rest[i],
        ) by {
            assert(rest[i] == answers[i + 1]);
            assert((next + i) as u64 == (from + (i + 1)) as u64);
        }
        lemma_answers(client, payout_address, next, rest);
    }
}

/// Asked for every second of a cycle, from any second on, whether the work of a payout address is
/// done for the operator, the adapter says yes for as many seconds as the settings ask for.
pub proof fn the_operator_gets_its_seconds_of_every_cycle(
    client: GridPoolClient,
    payout_address: &str,
    from: u64,
    answers: Seq<bool>,
)
    requires
        client.config.operator_fee_address is Some,
        client.config.operator_fee_percent.bits != 0,
        !(0x8000_0000_0000_0000 <= client.config.operator_fee_percent.bits
            <= 0xfff0_0000_0000_0000),
        1 <= client.config.operator_fee_seconds <= client.config.fee_cycle_seconds,
        answers.len() == client.config.fee_cycle_seconds,
        from + answers.len() <= u64::MAX,
        forall|i: int|
            0 <= i < answers.len() ==> call_ensures(
                GridPoolClient::fee_active,
                (&client, payout_address, (from + i) as u64),
                #[trigger] answers[i],
            ),
    ensures
        yes_count(answers) == client.config.operator_fee_seconds,
{
    lemma_answers(client, payout_address, from, answers);
    fees_take_the_seconds_of_the_settings(client, payout_address@, from as int);
}

/// What the adapter says of a second, it says of the same second of every cycle.
pub proof fn fee_slices_come_back_every_cycle(
    client: GridPoolClient,
    payout_address: &str,
    second: u64,
    later: u64,
    first: bool,
    again: bool,
)
    requires
        client.config.fee_cycle_seconds >= 1,
        later == second + client.config.fee_cycle_seconds,
        call_ensures(GridPoolClient::fee_active, (&client, payout_address, second), first),
        call_ensures(GridPoolClient::fee_active, (&client, payout_address, later), again),
    ensures
        first == again,
{
    let cycle = client.config.fee_cycle_seconds as int;
    let start = fee_offset(client.token@, payout_address@, cycle);
    assert(later + cycle - start == cycle + (second + cycle - start));
    vstd::arithmetic::div_mod::lemma_mod_add_multiples_vanish(second + cycle - start, cycle);
}

/// Outputs that were put together are one more than the suffix has entries. The first one pays to
/// the script of slot zero, and each of the others has the value of its own entry and the script
/// that this entry spells in hexadecimal notation; together they are worth the block.
pub proof fn assembled_outputs_pay_slot_zero_and_the_suffix(
    suffix: Vec<GridPoolOutput>,
    total: u64,
    slot_zero: Result<Vec<u8>, String>,
    outputs: Result<Vec<TxOut>, String>,
    k: int,
)
    requires
        call_ensures(assemble_outputs, (&suffix, total, slot_zero), outputs),
        outputs is Ok,
    ensures
        ({
            let list = outputs->Ok_0@;
            &&& list.len() == suffix@.len() + 1
            &&& slot_zero is Ok
            &&& list[0].script_pubkey@ == slot_zero->Ok_0@
            &&& list[0].value + crate::work::sum_of(
                suffix@.map_values(|o: GridPoolOutput| o.value),
            ) == total
            &&& 0 <= k < suffix@.len() ==> {
                &&& list[k + 1].value == suffix@[k].value
                &&& list[k + 1].script_pubkey@ == crate::encoding::hex_bytes(
                    suffix@[k].script_pub_key_hex@,
                )
            }
        }),
{
    let list = outputs->Ok_0@;
    let views = crate::work::outputs_of(list);
    let script = match slot_zero {
        Ok(script) => Ok(script@),
        Err(message) => Err(message@),
    };
    crate::work::outputs_are_slot_zero_and_the_suffix(suffix@, total as int, script, k);
    assert(views.len() == list.len());
    assert(views[0] == list[0]@);
    if 0 <= k < suffix@.len() {
        assert(views[k + 1] == list[k + 1]@);
    }
}

/// An identity that names an address that can be paid is paid there, whatever the settings say; the
/// fallback of the settings is paid only for an identity that names none and is not meant to.
pub proof fn channels_are_paid_at_the_address_they_name(
    client: GridPoolClient,
    identity: &str,
    payout: Result<ChannelPayout, String>,
)
    requires
        call_ensures(GridPoolClient::resolve_channel, (&client, identity), payout),
    ensures
        ({
            let explicit = explicit_part(crate::text::trimmed(identity@));
            let script = crate::address::payout_script(explicit, client.work.bitcoin_network@);
            &&& script is Ok ==> payout is Ok && payout->Ok_0.payout_address@ == explicit
            &&& payout is Err <==> script is Err && crate::address::is_address_like(explicit)
            &&& payout is Err ==> payout->Err_0@ == script->Err_0
            &&& payout is Ok && script is Err ==> payout->Ok_0.payout_address@
                == client.config.fallback_payout_address@
        }),
{
}

/// The adapter starts with the settings, the work and the advice that it is given, the token without
/// white space around it, and nothing counted.
pub proof fn adapters_start_with_what_they_are_given(
    config: GridPoolConfig,
    token_text: &str,
    work: WorkSelection,
    advice: ShareAdvice,
    client: Result<GridPoolClient, String>,
)
    requires
        call_ensures(GridPoolClient::connect, (config, token_text, work, advice), client),
    ensures
        client is Ok <==> setup_complaint(config, token_text@, work.bitcoin_network@) is None,
        client is Ok ==> {
            let adapter = client->Ok_0;
            &&& adapter.config == config
            &&& adapter.token@ == crate::text::trimmed(token_text@)
            &&& adapter.work == work
            &&& adapter.advice == advice
            &&& adapter.telemetry@.len() == 0
            &&& forall|key: u64| !adapter.last_pulse@.contains_key(key)
        },
        client is Err ==> setup_complaint(config, token_text@, work.bitcoin_network@) == Some(
            client->Err_0@,
        ),
{
}

/// New work is taken over as soon as its chain tip is another one than before, and at once if there
/// was none. Until then the adapter stays as it is and asks again after 25 milliseconds, forty times
/// in all.
pub proof fn work_is_taken_over_when_the_tip_moves(
    client: &mut GridPoolClient,
    previous_tip: Option<String>,
    polls: u32,
    fetched: WorkSelection,
    step: RefreshStep,
)
    requires
        polls < 40,
        call_ensures(
            GridPoolClient::refresh_for_chain_tip,
            (client, &previous_tip, polls, fetched),
            step,
        ),
    ensures
        ({
            let tip = fetched.current_tip_block_hash;
            let stays = previous_tip is Some && tip is Some && tip->0@ == previous_tip->0@;
            &&& step is Adopted <==> !stays
            &&& !stays ==> final(client).work == fetched
            &&& stays ==> *final(client) == *old(client)
            &&& stays && polls < 39 ==> step == (RefreshStep::Poll { pause_ms: 25 })
            &&& stays && polls == 39 ==> step is GiveUp && step->GiveUp_pause_ms == 25
                && step->message@
                == "GridPool work selection did not advance to the new chain tip"@
            &&& final(client).config == old(client).config
            &&& final(client).token == old(client).token
            &&& final(client).advice == old(client).advice
            &&& final(client).last_pulse == old(client).last_pulse
            &&& final(client).telemetry == old(client).telemetry
        }),
{
}

/// A token is the text of its file without white space around it, if it has at least 32 bytes; a
/// shorter one is refused.
pub proof fn tokens_are_long_enough(text: &str, token: Result<String, String>)
    requires
        call_ensures(adapter_token, (text,), token),
    ensures
        ({
            let bytes = vstd::utf8::encode_utf8(crate::text::trimmed(text@));
            &&& bytes.len() <= u32::MAX ==> (token is Ok <==> bytes.len() >= 32)
            &&& token is Ok ==> token->Ok_0@ == crate::text::trimmed(text@)
            &&& token is Err ==> token->Err_0@
                == "GridPool adapter token must contain at least 32 characters"@
        }),
{
}

/// New work and new advice take the place of the old, and nothing else changes.
pub proof fn work_and_advice_are_replaced(
    client: &mut GridPoolClient,
    other: &mut GridPoolClient,
    work: WorkSelection,
    advice: ShareAdvice,
)
    requires
        call_ensures(GridPoolClient::set_work, (client, work), ()),
        call_ensures(GridPoolClient::set_advice, (other, advice), ()),
    ensures
        final(client).work == work,
        final(client).advice == old(client).advice,
        final(client).config == old(client).config,
        final(client).token == old(client).token,
        final(client).last_pulse == old(client).last_pulse,
        final(client).telemetry == old(client).telemetry,
        final(other).advice == advice,
        final(other).work == old(other).work,
        final(other).config == old(other).config,
        final(other).token == old(other).token,
        final(other).last_pulse == old(other).last_pulse,
        final(other).telemetry == old(other).telemetry,
{
}

/// Telemetry that was sent is gone from the adapter, and nothing is sent where nothing was gathered.
pub proof fn telemetry_is_sent_once(
    client: &mut GridPoolClient,
    batch: Option<TelemetryBatch>,
)
    requires
        call_ensures(GridPoolClient::flush_telemetry, (client,), batch),
    ensures
        batch is Some <==> old(client).telemetry@.len() > 0,
        batch is Some ==> {
            &&& batch->0.source_instance@ == "gridpool-sv2-pool"@
            &&& batch->0.entries@.len() == old(client).telemetry@.len()
        },
        final(client).telemetry@.len() == 0,
        final(client).work == old(client).work,
        final(client).last_pulse == old(client).last_pulse,
{
}

/// Of two pulses of a channel the second comes at least the interval after the first, whatever other
/// shares do in between to other channels.
pub proof fn pulses_of_a_channel_keep_their_distance(
    client: &mut GridPoolClient,
    later: &mut GridPoolClient,
    channel_key: u64,
    achieved: Double,
    again: Double,
    first: u64,
    second: u64,
)
    requires
        call_ensures(
            GridPoolClient::should_submit_proof_at,
            (client, channel_key, achieved, false, first),
            true,
        ),
        call_ensures(
            GridPoolClient::should_submit_proof_at,
            (later, channel_key, again, false, second),
            true,
        ),
        !achieved.is_at_least(old(client).work.minimum_difficulty_to_enter_reserve),
        !again.is_at_least(old(later).work.minimum_difficulty_to_enter_reserve),
        old(later).last_pulse@.contains_key(channel_key),
        old(later).last_pulse@[channel_key] == final(client).last_pulse@[channel_key],
    ensures
        second >= first + old(later).advice.pulse_target_interval_seconds,
        second >= first + 1,
{
}

/// In a cycle of no seconds the fee, if it is taken at all, is always taken.
pub proof fn fees_without_a_cycle_are_always_taken(
    client: GridPoolClient,
    payout_address: &str,
    unix_seconds: u64,
    active: bool,
)
    requires
        client.config.fee_cycle_seconds == 0,
        client.config.operator_fee_address is Some,
        client.config.operator_fee_percent.bits != 0,
        !(0x8000_0000_0000_0000 <= client.config.operator_fee_percent.bits
            <= 0xfff0_0000_0000_0000),
        call_ensures(
            GridPoolClient::fee_active,
            (&client, payout_address, unix_seconds),
            active,
        ),
    ensures
        active,
{
}

/// Where the suffix leaves enough of the block, there are no outputs if the address whose turn it is
/// cannot be paid: the message is that about the operator's address while the fee is taken, and about
/// the channel's at any other time.
pub proof fn outputs_need_an_address_for_slot_zero(
    client: GridPoolClient,
    payout: ChannelPayout,
    total: u64,
    unix_seconds: u64,
    outputs: Result<Vec<TxOut>, String>,
)
    requires
        call_ensures(
            GridPoolClient::coinbase_outputs_at,
            (&client, &payout, total, unix_seconds),
            outputs,
        ),
        crate::work::sum_of(
            client.work.coinbase_outputs@.map_values(|o: GridPoolOutput| o.value),
        ) <= total,
    ensures
        ({
            let network = client.work.bitcoin_network@;
            let active = client.fee_is_active(payout.payout_address@, unix_seconds as int);
            let operator = crate::address::payout_script(
                client.config.operator_fee_address->0@,
                network,
            );
            let own = crate::address::payout_script(payout.payout_address@, network);
            &&& active && operator is Err ==> outputs is Err && outputs->Err_0@ == operator->Err_0
            &&& !active && own is Err ==> outputs is Err && outputs->Err_0@ == own->Err_0
        }),
{
    crate::work::outputs_fail_for_the_first_reason(
        client.work.coinbase_outputs@,
        total,
        client.script_of(client.slot_zero_address(payout.payout_address@, unix_seconds as int)),
    );
}

/// Whatever the clock shows, the outputs of a job are one for slot zero and those of the suffix in
/// its order, and slot zero pays to the channel or to the operator.
pub proof fn outputs_at_any_time_hold_the_suffix(
    client: GridPoolClient,
    payout: ChannelPayout,
    total: u64,
    outputs: Result<Vec<TxOut>, String>,
    k: int,
)
    requires
        call_ensures(GridPoolClient::coinbase_outputs, (&client, &payout, total), outputs),
        outputs is Ok,
    ensures
        ({
            let list = outputs->Ok_0@;
            let suffix = client.work.coinbase_outputs@;
            let network = client.work.bitcoin_network@;
            let script = Ok::<Seq<u8>, Seq<char>>(list[0].script_pubkey@);
            &&& list.len() == suffix.len() + 1
            &&& 0 <= k < suffix.len() ==> {
                &&& list[k + 1].value == suffix[k].value
                &&& list[k + 1].script_pubkey@ == crate::encoding::hex_bytes(
                    suffix[k].script_pub_key_hex@,
                )
            }
            &&& list[0].value + crate::work::sum_of(
                suffix.map_values(|o: GridPoolOutput| o.value),
            ) == total
            &&& crate::address::payout_script(payout.payout_address@, network) == script || (
            client.config.operator_fee_address is Some && crate::address::payout_script(
                client.config.operator_fee_address->0@,
                network,
            ) == script)
        }),
{
    let list = outputs->Ok_0@;
    let views = crate::work::outputs_of(list);
    let reading = choose|reading: std::time::SystemTime|
        same_outputs(
            outputs,
            client.outputs_at(
                payout.payout_address@,
                total as int,
                crate::clock::seconds_of(#[trigger] crate::clock::elapsed_at(reading)) as int,
            ),
        );
    let now = crate::clock::seconds_of(crate::clock::elapsed_at(reading)) as int;
    crate::work::outputs_are_slot_zero_and_the_suffix(
        client.work.coinbase_outputs@,
        total as int,
        client.script_of(client.slot_zero_address(payout.payout_address@, now)),
        k,
    );
    assert(views[0] == list[0]@);
    assert(views.len() == list.len());
    if 0 <= k < client.work.coinbase_outputs@.len() {
        assert(views[k + 1] == list[k + 1]@);
    }
}

/// Room is kept for one satoshi to slot zero and for each output of the suffix.
pub proof fn room_is_kept_for_slot_zero_and_the_suffix(
    client: GridPoolClient,
    outputs: Result<Vec<TxOut>, String>,
    k: int,
)
    requires
        crate::work::suffix_value(client.work.coinbase_outputs@) < u64::MAX,
        call_ensures(GridPoolClient::constraint_outputs, (&client,), outputs),
        outputs is Ok,
    ensures
        ({
            let list = outputs->Ok_0@;
            let suffix = client.work.coinbase_outputs@;
            &&& list.len() == suffix.len() + 1
            &&& list[0].value == 1
            &&& 0 <= k < suffix.len() ==> {
                &&& list[k + 1].value == suffix[k].value
                &&& list[k + 1].script_pubkey@ == crate::encoding::hex_bytes(
                    suffix[k].script_pub_key_hex@,
                )
            }
        }),
{
    let list = outputs->Ok_0@;
    let views = crate::work::outputs_of(list);
    let suffix = client.work.coinbase_outputs@;
    let total = crate::work::suffix_value(suffix) + 1;
    let fallback = client.config.fallback_payout_address@;
    let reading = choose|reading: std::time::SystemTime|
        same_outputs(
            outputs,
            client.outputs_at(
                fallback,
                total,
                crate::clock::seconds_of(#[trigger] crate::clock::elapsed_at(reading)) as int,
            ),
        );
    let now = crate::clock::seconds_of(crate::clock::elapsed_at(reading)) as int;
    crate::work::lemma_suffix_not_negative(suffix);
    crate::work::outputs_are_slot_zero_and_the_suffix(
        suffix,
        total,
        client.script_of(client.slot_zero_address(fallback, now)),
        k,
    );
    assert(views[0] == list[0]@);
    assert(views.len() == list.len());
    if 0 <= k < client.work.coinbase_outputs@.len() {
        assert(views[k + 1] == list[k + 1]@);
    }
}

/// Whatever the clock shows, a proof of a block or of a share that enters the reserve is sent and
/// starts no interval, and none is sent of another share if the node wants no pulses.
pub proof fn proofs_at_any_time_follow_the_advice(
    client: &mut GridPoolClient,
    channel_key: u64,
    achieved: Double,
    is_block: bool,
    submit: bool,
)
    requires
        call_ensures(
            GridPoolClient::should_submit_proof,
            (client, channel_key, achieved, is_block),
            submit,
        ),
    ensures
        ({
            let always = is_block || achieved.is_at_least(
                old(client).work.minimum_difficulty_to_enter_reserve,
            );
            &&& always ==> submit && final(client).last_pulse@ == old(client).last_pulse@
            &&& !always && !old(client).advice.pulse_proofs_enabled ==> !submit
            &&& !submit ==> final(client).last_pulse@ == old(client).last_pulse@
            &&& !always && submit ==> final(client).last_pulse@.contains_key(channel_key)
            &&& final(client).work == old(client).work
            &&& final(client).telemetry == old(client).telemetry
        }),
{
}

/// A slice of seconds is open from its offset on in every cycle, for as many seconds as its span
/// says.
pub proof fn slices_are_open_for_their_span(
    second: u64,
    cycle: u64,
    offset: u64,
    span: u64,
    open: bool,
    round: int,
    k: int,
)
    requires
        offset < cycle,
        call_ensures(fee_slice_open, (second, cycle, offset, span), open),
        second == round * cycle + offset + k,
        0 <= k < cycle,
    ensures
        open <==> k < span,
{
    assert(second + cycle - offset == (round + 1) * cycle + k) by (nonlinear_arith)
        requires
            second == round * cycle + offset + k,
    ;
    vstd::arithmetic::div_mod::lemma_mod_multiples_vanish(round + 1, k, cycle as int);
    vstd::arithmetic::div_mod::lemma_small_mod(k as nat, cycle as nat);
    assert((round + 1) * cycle + k == cycle * (round + 1) + k) by (nonlinear_arith);
}

/// Outputs cannot be put together if the suffix is worth more than the block, slot zero has no script,
/// or a script of the suffix is not hexadecimal; the message names the first of these.
pub proof fn outputs_that_cannot_be_put_together_are_refused(
    suffix: Vec<GridPoolOutput>,
    total: u64,
    slot_zero: Result<Vec<u8>, String>,
    outputs: Result<Vec<TxOut>, String>,
)
    requires
        call_ensures(assemble_outputs, (&suffix, total, slot_zero), outputs),
    ensures
        ({
            let sum = crate::work::sum_of(suffix@.map_values(|o: GridPoolOutput| o.value));
            let all_hex = forall|k: int|
                0 <= k < suffix@.len() ==> crate::encoding::is_hex(
                    (#[trigger] suffix@[k]).script_pub_key_hex@,
                );
            &&& outputs is Ok <==> sum <= total && slot_zero is Ok && all_hex
            &&& sum > u64::MAX ==> outputs->Err_0@ == "GridPool payout suffix overflow"@
            &&& total < sum <= u64::MAX ==> outputs->Err_0@
                == "GridPool payout suffix exceeds available coinbase value"@
            &&& sum <= total && slot_zero is Err ==> outputs->Err_0@ == slot_zero->Err_0@
            &&& sum <= total && slot_zero is Ok && !all_hex ==> exists|k: int|
                0 <= k < suffix@.len() && !crate::encoding::is_hex(
                    (#[trigger] suffix@[k]).script_pub_key_hex@,
                ) && outputs->Err_0@ == "invalid GridPool payout script: "@
                    + crate::encoding::hex_error(suffix@[k].script_pub_key_hex@)
        }),
{
    let script = match slot_zero {
        Ok(script) => Ok(script@),
        Err(message) => Err(message@),
    };
    crate::work::outputs_fail_for_the_first_reason(suffix@, total, script);
}

/// Recording a share changes nothing of the adapter but its telemetry, and deciding about a proof
/// nothing but the times of pulses.
pub proof fn shares_change_telemetry_and_pulses_alone(
    client: &mut GridPoolClient,
    other: &mut GridPoolClient,
    delta: TelemetryDelta,
    now_ms: u128,
    channel_key: u64,
    achieved: Double,
    is_block: bool,
    now: u64,
    submit: bool,
)
    requires
        old(client).wf(),
        call_ensures(GridPoolClient::record_telemetry_at, (client, delta, now_ms), ()),
        call_ensures(
            GridPoolClient::should_submit_proof_at,
            (other, channel_key, achieved, is_block, now),
            submit,
        ),
    ensures
        final(client).telemetry@ == crate::telemetry::recorded(
            old(client).telemetry@,
            delta@,
            now_ms,
        ),
        final(client).config == old(client).config,
        final(client).token == old(client).token,
        final(client).work == old(client).work,
        final(client).advice == old(client).advice,
        final(client).last_pulse == old(client).last_pulse,
        final(other).config == old(other).config,
        final(other).token == old(other).token,
        final(other).work == old(other).work,
        final(other).advice == old(other).advice,
        final(other).telemetry == old(other).telemetry,
        submit == old(other).proves(channel_key, achieved, is_block, now),
{
}

} // verus!
