//! What the GridPool node asks the pool to mine, and what the pool hands back.

use crate::number::Double;
use vstd::prelude::*;

verus! {

/// One output of the payout suffix.
#[derive(Clone, Debug)]
pub struct GridPoolOutput {
    /// Value in satoshis.
    pub value: u64,
    /// Script in hexadecimal notation.
    pub script_pub_key_hex: String,
}

/// What the node asks the pool to mine on.
#[derive(Clone, Debug)]
pub struct WorkSelection {
    pub bitcoin_network: String,
    pub active_snapshot_id: String,
    pub current_tip_block_hash: Option<String>,
    pub minimum_difficulty_to_enter_reserve: Double,
    /// The payout suffix: the outputs behind that of the miner.
    pub coinbase_outputs: Vec<GridPoolOutput>,
}

/// When the node wants proofs of ordinary shares.
#[derive(Clone, Debug)]
pub struct ShareAdvice {
    pub pulse_proofs_enabled: bool,
    pub minimum_pulse_difficulty: Double,
    pub pulse_target_interval_seconds: u64,
}

/// Who is paid for the work of a channel.
#[derive(Clone, Debug)]
pub struct ChannelPayout {
    pub payout_address: String,
    pub username: String,
}

/// A proof of a share.
#[derive(Clone, Debug)]
pub struct ShareSubmission {
    pub miner_address: String,
    pub username: String,
    pub header_hex: String,
    pub coinbase_hex: String,
    pub merkle_path: Vec<String>,
    pub payout_snapshot_id: Option<String>,
    pub prev_block_hash: Option<String>,
    pub difficulty: Double,
}

/// An output of a transaction.
#[derive(Clone, Debug, PartialEq, Eq)]
pub struct TxOut {
    /// Value in satoshis.
    pub value: u64,
    /// The script that spends the output.
    pub script_pubkey: Vec<u8>,
}

/// A [`TxOut`] with its script as a sequence of bytes.
pub ghost struct Output {
    pub value: u64,
    pub script: Seq<u8>,
}

impl View for TxOut {
    type V = Output;

    open spec fn view(&self) -> Output {
        Output { value: self.value, script: self.script_pubkey@ }
    }
}

/// The outputs that a sequence of [`TxOut`] stands for.
pub open spec fn outputs_of(outputs: Seq<TxOut>) -> Seq<Output> {
    outputs.map_values(|output: TxOut| output@)
}

/// The value of all outputs together.
pub open spec fn total_value(outputs: Seq<Output>) -> int
    decreases outputs.len(),
{
    if outputs.len() == 0 {
        0
    } else {
        total_value(outputs.drop_last()) + outputs.last().value
    }
}

/// The value of the payout suffix.
pub open spec fn suffix_value(suffix: Seq<GridPoolOutput>) -> int
    decreases suffix.len(),
{
    if suffix.len() == 0 {
        0
    } else {
        suffix_value(suffix.drop_last()) + suffix.last().value
    }
}

/// An output of the payout suffix, with its script read.
pub open spec fn suffix_output(output: GridPoolOutput) -> Output {
    Output {
        value: output.value,
        script: crate::encoding::hex_bytes(output.script_pub_key_hex@),
    }
}

/// The payout suffix, with its scripts read.
pub open spec fn suffix_outputs(suffix: Seq<GridPoolOutput>) -> Seq<Output> {
    suffix.map_values(|output: GridPoolOutput| suffix_output(output))
}

/// The index of the first output whose script is not hexadecimal, or the number of outputs.
pub open spec fn first_bad_script(suffix: Seq<GridPoolOutput>) -> int
    decreases suffix.len(),
{
    if suffix.len() == 0 {
        0
    } else if !crate::encoding::is_hex(suffix[0].script_pub_key_hex@) {
        0
    } else {
        1 + first_bad_script(suffix.drop_first())
    }
}

/// Where the first script stands that is not hexadecimal.
pub proof fn lemma_first_bad_script(suffix: Seq<GridPoolOutput>, at: int)
    requires
        0 <= at <= suffix.len(),
        forall|k: int|
            0 <= k < at ==> crate::encoding::is_hex(
                (#[trigger] suffix[k]).script_pub_key_hex@,
            ),
        at < suffix.len() ==> !crate::encoding::is_hex(suffix[at].script_pub_key_hex@),
    ensures
        first_bad_script(suffix) == at,
    decreases suffix.len(),
{
    if at > 0 {
        assert(crate::encoding::is_hex(suffix[0].script_pub_key_hex@));
        assert forall|k: int| 0 <= k < at - 1 implies crate::encoding::is_hex(
            (#[trigger] suffix.drop_first()[k]).script_pub_key_hex@,
        ) by {
            assert(suffix.drop_first()[k] == suffix[k + 1]);
        }
        lemma_first_bad_script(suffix.drop_first(), at - 1);
    }
}

/// The coinbase outputs of a block worth `total`: slot zero holds what the suffix leaves and pays
/// to `slot_zero`, and the suffix follows. The message says why there are none: the suffix does
/// not fit 64 bits, it is worth more than `total`, slot zero has no script, or an output of the
/// suffix has none.
pub open spec fn block_outputs(
    suffix: Seq<GridPoolOutput>,
    total: int,
    slot_zero: Result<Seq<u8>, Seq<char>>,
) -> Result<Seq<Output>, Seq<char>> {
    if suffix_value(suffix) > u64::MAX {
        Err("GridPool payout suffix overflow"@)
    } else if suffix_value(suffix) > total {
        Err("GridPool payout suffix exceeds available coinbase value"@)
    } else {
        match slot_zero {
            Err(message) => Err(message),
            Ok(script) => if first_bad_script(suffix) < suffix.len() {
                Err(
                    "invalid GridPool payout script: "@ + crate::encoding::hex_error(
                        suffix[first_bad_script(suffix)].script_pub_key_hex@,
                    ),
                )
            } else {
                Ok(
                    seq![Output { value: (total - suffix_value(suffix)) as u64, script }]
                        + suffix_outputs(suffix),
                )
            },
        }
    }
}

/// The suffix is worth as much with its scripts read.
proof fn lemma_suffix_total(suffix: Seq<GridPoolOutput>)
    ensures
        total_value(suffix_outputs(suffix)) == suffix_value(suffix),
    decreases suffix.len(),
{
    if suffix.len() > 0 {
        lemma_suffix_total(suffix.drop_last());
        assert(suffix_outputs(suffix).drop_last() =~= suffix_outputs(suffix.drop_last()));
    }
}

/// An output in front adds its value.
proof fn lemma_total_with_front(front: Output, rest: Seq<Output>)
    ensures
        total_value(seq![front] + rest) == front.value + total_value(rest),
    decreases rest.len(),
{
    let all = seq![front] + rest;
    if rest.len() == 0 {
        assert(all.drop_last() =~= Seq::<Output>::empty());
        assert(rest =~= Seq::<Output>::empty());
    } else {
        assert(all.drop_last() =~= seq![front] + rest.drop_last());
        lemma_total_with_front(front, rest.drop_last());
    }
}

/// A block pays out exactly what it is worth: the payout suffix leaves its remainder in slot
/// zero.
pub proof fn block_outputs_spend_the_total(
    suffix: Seq<GridPoolOutput>,
    total: int,
    slot_zero: Result<Seq<u8>, Seq<char>>,
)
    requires
        0 <= total <= u64::MAX,
    ensures
        block_outputs(suffix, total, slot_zero) matches Ok(outputs) ==> total_value(outputs)
            == total && outputs[0].value == total - suffix_value(suffix) && outputs.skip(1)
            == suffix_outputs(suffix),
{
    lemma_suffix_total(suffix);
    lemma_suffix_not_negative(suffix);
    if let Ok(outputs) = block_outputs(suffix, total, slot_zero) {
        lemma_total_with_front(outputs[0], suffix_outputs(suffix));
        assert(outputs =~= seq![outputs[0]] + suffix_outputs(suffix));
        assert(outputs.skip(1) =~= suffix_outputs(suffix));
    }
}

/// A suffix is not worth less than nothing, nor less than a part of it.
pub proof fn lemma_suffix_not_negative(suffix: Seq<GridPoolOutput>)
    ensures
        suffix_value(suffix) >= 0,
        forall|n: int| 0 <= n <= suffix.len() ==> suffix_value(#[trigger] suffix.take(n))
            <= suffix_value(suffix),
    decreases suffix.len(),
{
    if suffix.len() > 0 {
        lemma_suffix_not_negative(suffix.drop_last());
        assert forall|n: int| 0 <= n <= suffix.len() implies suffix_value(#[trigger] suffix.take(n))
            <= suffix_value(suffix) by {
            if n == suffix.len() {
                assert(suffix.take(n) =~= suffix);
            } else {
                assert(suffix.drop_last().take(n) =~= suffix.take(n));
            }
        }
    } else {
        assert forall|n: int| 0 <= n <= suffix.len() implies suffix_value(#[trigger] suffix.take(n))
            <= suffix_value(suffix) by {
            assert(suffix.take(n) =~= suffix);
        }
    }
}

/// The value of outputs grows by that of each output; without outputs there is no value.
pub proof fn values_add_up(
    outputs: Seq<Output>,
    suffix: Seq<GridPoolOutput>,
    o: Output,
    s: GridPoolOutput,
)
    ensures
        total_value(Seq::<Output>::empty()) == 0,
        total_value(outputs.push(o)) == total_value(outputs) + o.value,
        suffix_value(Seq::<GridPoolOutput>::empty()) == 0,
        suffix_value(suffix.push(s)) == suffix_value(suffix) + s.value,
{
    assert(outputs.push(o).drop_last() =~= outputs);
    assert(suffix.push(s).drop_last() =~= suffix);
}

/// The value of the suffix, with each value counted once.
pub open spec fn sum_of(values: Seq<u64>) -> int
    decreases values.len(),
{
    if values.len() == 0 {
        0
    } else {
        values[0] + sum_of(values.drop_first())
    }
}

/// Summing from the back is summing from the front.
proof fn lemma_sum(suffix: Seq<GridPoolOutput>)
    ensures
        suffix_value(suffix) == sum_of(suffix.map_values(|o: GridPoolOutput| o.value)),
    decreases suffix.len(),
{
    let values = suffix.map_values(|o: GridPoolOutput| o.value);
    if suffix.len() > 0 {
        let last = suffix.last();
        lemma_sum(suffix.drop_last());
        lemma_sum_push(suffix.drop_last().map_values(|o: GridPoolOutput| o.value), last.value);
        assert(values =~= suffix.drop_last().map_values(|o: GridPoolOutput| o.value).push(
            last.value,
        ));
    }
}

/// One value more at the end.
proof fn lemma_sum_push(values: Seq<u64>, value: u64)
    ensures
        sum_of(values.push(value)) == sum_of(values) + value,
    decreases values.len(),
{
    reveal_with_fuel(sum_of, 2);
    if values.len() == 0 {
        assert(values.push(value).drop_first() =~= Seq::<u64>::empty());
    } else {
        assert(values.push(value).drop_first() =~= values.drop_first().push(value));
        lemma_sum_push(values.drop_first(), value);
    }
}

/// A coinbase with payouts has one output more than the suffix. The first one pays to the script of
/// slot zero what all values of the suffix together leave of the block's; each of the others has
/// the value of its own entry of the suffix and pays to the script whose bytes are the hexadecimal
/// notation in that entry.
pub proof fn outputs_are_slot_zero_and_the_suffix(
    suffix: Seq<GridPoolOutput>,
    total: int,
    slot_zero: Result<Seq<u8>, Seq<char>>,
    k: int,
)
    requires
        0 <= total <= u64::MAX,
        block_outputs(suffix, total, slot_zero) is Ok,
    ensures
        ({
            let outputs = block_outputs(suffix, total, slot_zero)->Ok_0;
            &&& outputs.len() == suffix.len() + 1
            &&& outputs[0].value == total - sum_of(suffix.map_values(|o: GridPoolOutput| o.value))
            &&& slot_zero == Ok::<Seq<u8>, Seq<char>>(outputs[0].script)
            &&& 0 <= k < suffix.len() ==> {
                &&& outputs[k + 1].value == suffix[k].value
                &&& outputs[k + 1].script == crate::encoding::hex_bytes(
                    suffix[k].script_pub_key_hex@,
                )
                &&& crate::encoding::is_hex(suffix[k].script_pub_key_hex@)
            }
        }),
{
    lemma_sum(suffix);
    lemma_suffix_not_negative(suffix);
    lemma_bad_script(suffix);
}

/// Without a suffix the block is paid to slot zero alone.
pub proof fn blocks_without_a_suffix_pay_slot_zero(total: u64, script: Seq<u8>)
    ensures
        block_outputs(Seq::empty(), total as int, Ok(script)) == Ok::<Seq<Output>, Seq<char>>(
            seq![Output { value: total, script }],
        ),
{
    assert(block_outputs(Seq::empty(), total as int, Ok(script))->Ok_0 =~= seq![
        Output { value: total, script },
    ]);
}

/// Where the first script stands that is not hexadecimal.
proof fn lemma_bad_script(suffix: Seq<GridPoolOutput>)
    ensures
        0 <= first_bad_script(suffix) <= suffix.len(),
        forall|k: int|
            0 <= k < first_bad_script(suffix) ==> crate::encoding::is_hex(
                (#[trigger] suffix[k]).script_pub_key_hex@,
            ),
        first_bad_script(suffix) < suffix.len() ==> !crate::encoding::is_hex(
            suffix[first_bad_script(suffix)].script_pub_key_hex@,
        ),
    decreases suffix.len(),
{
    if suffix.len() > 0 && crate::encoding::is_hex(suffix[0].script_pub_key_hex@) {
        let rest = suffix.drop_first();
        lemma_bad_script(rest);
        assert forall|k: int| 0 <= k < first_bad_script(suffix) implies crate::encoding::is_hex(
            (#[trigger] suffix[k]).script_pub_key_hex@,
        ) by {
            if k > 0 {
                assert(rest[k - 1] == suffix[k]);
            }
        }
    }
}

/// There are outputs if and only if the suffix is worth no more than the block, slot zero has a
/// script, and every script of the suffix is hexadecimal. Otherwise the message names the first of
/// these that fails, in this order, and a sum that does not fit 64 bits before them.
pub proof fn outputs_fail_for_the_first_reason(
    suffix: Seq<GridPoolOutput>,
    total: u64,
    slot_zero: Result<Seq<u8>, Seq<char>>,
)
    ensures
        ({
            let sum = sum_of(suffix.map_values(|o: GridPoolOutput| o.value));
            let all_hex = forall|k: int|
                0 <= k < suffix.len() ==> crate::encoding::is_hex(
                    (#[trigger] suffix[k]).script_pub_key_hex@,
                );
            let outcome = block_outputs(suffix, total as int, slot_zero);
            &&& outcome is Ok <==> sum <= total && slot_zero is Ok && all_hex
            &&& sum > u64::MAX ==> outcome == Err::<Seq<Output>, Seq<char>>(
                "GridPool payout suffix overflow"@,
            )
            &&& total < sum <= u64::MAX ==> outcome == Err::<Seq<Output>, Seq<char>>(
                "GridPool payout suffix exceeds available coinbase value"@,
            )
            &&& sum <= total && slot_zero is Err ==> outcome == Err::<Seq<Output>, Seq<char>>(
                slot_zero->Err_0,
            )
            &&& sum <= total && slot_zero is Ok && !all_hex ==> exists|k: int|
                0 <= k < suffix.len() && !crate::encoding::is_hex(
                    (#[trigger] suffix[k]).script_pub_key_hex@,
                ) && (forall|j: int|
                    0 <= j < k ==> crate::encoding::is_hex(
                        (#[trigger] suffix[j]).script_pub_key_hex@,
                    )) && outcome == Err::<Seq<Output>, Seq<char>>(
                    "invalid GridPool payout script: "@ + crate::encoding::hex_error(
                        suffix[k].script_pub_key_hex@,
                    ),
                )
        }),
{
    lemma_sum(suffix);
    lemma_bad_script(suffix);
    let k = first_bad_script(suffix);
    if k < suffix.len() {
        assert(!crate::encoding::is_hex(suffix[k].script_pub_key_hex@));
    }
}

} // verus!
