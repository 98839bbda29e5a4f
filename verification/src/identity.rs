//! User identities and the payouts that they stand for when no GridPool node is attached.

use crate::work::TxOut;
use stratum_apps::payout;
use stratum_apps::stratum_core::binary_sv2::Str0255;
use vstd::prelude::*;

verus! {

/// The text of an identity: the characters that its bytes encode, or else the bytes in hexadecimal
/// notation.
pub open spec fn identity_of(bytes: Seq<u8>) -> Seq<char> {
    if vstd::utf8::valid_utf8(bytes) {
        vstd::utf8::decode_utf8(bytes)
    } else {
        "0x"@ + crate::encoding::hex_text(bytes)
    }
}

/// Calls `Str0255::as_utf8_or_hex`. Claimed: bytes that encode characters give these, and any other
/// bytes their hexadecimal notation behind `0x`.
#[verifier::external_body]
pub(crate) fn identity_text(bytes: &Vec<u8>) -> (text: String)
    requires
        bytes@.len() <= 255,
    ensures
        text@ == identity_of(bytes@),
{
    let outside: Str0255<'static> = bytes.clone().try_into().expect("at most 255 bytes");
    outside.as_utf8_or_hex()
}

/// Who is paid for blocks, as an identity says.
#[derive(Clone, Debug)]
pub enum PayoutMode {
    /// The miner.
    Solo { script: Vec<u8> },
    /// The pool for some percent, and the miner for the rest.
    Donate { percentage: u8, script: Vec<u8> },
    /// The pool.
    FullDonation,
}

/// A [`PayoutMode`] with its script as a sequence of bytes.
pub ghost enum Mode {
    Solo { script: Seq<u8> },
    Donate { percentage: u8, script: Seq<u8> },
    FullDonation,
}

impl View for PayoutMode {
    type V = Mode;

    open spec fn view(&self) -> Mode {
        match *self {
            PayoutMode::Solo { script } => Mode::Solo { script: script@ },
            PayoutMode::Donate { percentage, script } => Mode::Donate {
                percentage,
                script: script@,
            },
            PayoutMode::FullDonation => Mode::FullDonation,
        }
    }
}

/// Why an identity says nothing about payouts.
#[derive(Clone, Copy, Debug, PartialEq, Eq, Structural)]
pub enum PayoutModeFault {
    /// It does not try to.
    NoPayoutMode,
    /// It tries to, in vain.
    Malformed,
}

/// What an identity says about payouts.
pub type ModeOutcome = Result<Mode, PayoutModeFault>;

/// What an identity says about payouts, as the `stratum_apps` crate reads it.
pub uninterp spec fn payout_mode_of(identity: Seq<char>) -> ModeOutcome;

/// Calls `PayoutMode::try_from` and tells its variants and errors apart. Claimed: what comes out
/// depends on the identity alone, and a percentage lies between one and 99.
#[verifier::external_body]
pub(crate) fn read_payout_mode(identity: &str) -> (mode: Result<PayoutMode, PayoutModeFault>)
    ensures
        match mode {
            Ok(m) => payout_mode_of(identity@) == ModeOutcome::Ok(m@) && (
            m matches PayoutMode::Donate { percentage, script } ==> 1 <= percentage < 100),
            Err(fault) => payout_mode_of(identity@) == ModeOutcome::Err(fault),
        },
{
    match payout::PayoutMode::try_from(identity) {
        Ok(payout::PayoutMode::Solo { script, .. }) => Ok(PayoutMode::Solo { script: script.script_pubkey().into_bytes() }),
        Ok(payout::PayoutMode::LegacySolo { script, .. }) => Ok(PayoutMode::Solo { script: script.script_pubkey().into_bytes() }),
        Ok(payout::PayoutMode::Donate { percentage, script, .. }) => {
            Ok(PayoutMode::Donate { percentage, script: script.script_pubkey().into_bytes() })
        },
        Ok(payout::PayoutMode::FullDonation) => Ok(PayoutMode::FullDonation),
        Err(payout::PayoutModeError::NoPayoutMode(_)) => Err(PayoutModeFault::NoPayoutMode),
        Err(_) => Err(PayoutModeFault::Malformed),
    }
}

/// The outputs of a block worth `total` in a mode. The pool's part of a donation is rounded down.
pub open spec fn mode_outputs(mode: Mode, total: u64, pool_script: Seq<u8>) -> Seq<
    crate::work::Output,
> {
    match mode {
        Mode::Solo { script } => seq![crate::work::Output { value: total, script }],
        Mode::Donate { percentage, script } => {
            let pool = total * percentage / 100;
            seq![
                crate::work::Output { value: pool as u64, script: pool_script },
                crate::work::Output { value: (total - pool) as u64, script },
            ]
        },
        Mode::FullDonation => seq![crate::work::Output { value: total, script: pool_script }],
    }
}

/// The outputs of a payout mode spend the value of the block, neither more nor less.
pub proof fn mode_outputs_spend_the_total(mode: Mode, total: u64, pool_script: Seq<u8>)
    requires
        mode matches Mode::Donate { percentage, script } ==> percentage <= 100,
    ensures
        crate::work::total_value(mode_outputs(mode, total, pool_script)) == total,
{
    reveal_with_fuel(crate::work::total_value, 3);
    let outputs = mode_outputs(mode, total, pool_script);
    if let Mode::Donate { percentage, script } = mode {
        assert(total * percentage <= total * 100) by (nonlinear_arith)
            requires
                percentage <= 100,
        ;
        assert(outputs.drop_last() =~= seq![outputs[0]]);
        assert(outputs.drop_last().drop_last() =~= Seq::<crate::work::Output>::empty());
    } else {
        assert(outputs.drop_last() =~= Seq::<crate::work::Output>::empty());
    }
}

impl PayoutMode {
    /// The outputs of a block worth `total` in this mode.
    pub fn coinbase_outputs(&self, total: u64, pool_script: &Vec<u8>) -> (outputs: Vec<TxOut>)
        requires
            self matches PayoutMode::Donate { percentage, script } ==> *percentage <= 100,
        ensures
            crate::work::outputs_of(outputs@) == mode_outputs(self@, total, pool_script@),
    {
        let mut outputs: Vec<TxOut> = Vec::new();
        match self {
            PayoutMode::Solo { script } => {
                outputs.push(
                    TxOut { value: total, script_pubkey: crate::template::copy_bytes(script) },
                );
            },
            PayoutMode::Donate { percentage, script } => {
                let percent = *percentage;
                assert(total * percent <= total * 100) by (nonlinear_arith)
                    requires
                        percent <= 100,
                ;
                let pool = (total as u128 * percent as u128 / 100) as u64;
                outputs.push(
                    TxOut { value: pool, script_pubkey: crate::template::copy_bytes(pool_script) },
                );
                outputs.push(
                    TxOut {
                        value: total - pool,
                        script_pubkey: crate::template::copy_bytes(script),
                    },
                );
            },
            PayoutMode::FullDonation => {
                outputs.push(
                    TxOut { value: total, script_pubkey: crate::template::copy_bytes(pool_script) },
                );
            },
        }
        assert(crate::work::outputs_of(outputs@) =~= mode_outputs(self@, total, pool_script@));
        outputs
    }
}

/// A miner that asks for it is paid the whole block. Of a donation the pool gets at most its
/// percentage, and less than one satoshi short of it, and the miner the rest; of a full donation it
/// gets the whole block.
pub proof fn modes_pay_whom_they_say(
    mode: PayoutMode,
    total: u64,
    pool_script: Seq<u8>,
    outputs: Seq<TxOut>,
)
    requires
        mode matches PayoutMode::Donate { percentage, script } ==> percentage <= 100,
        crate::work::outputs_of(outputs) == mode_outputs(mode@, total, pool_script),
    ensures
        mode matches PayoutMode::Solo { script } ==> {
            &&& outputs.len() == 1
            &&& outputs[0].value == total
            &&& outputs[0].script_pubkey@ == script@
        },
        mode matches PayoutMode::Donate { percentage, script } ==> {
            &&& outputs.len() == 2
            &&& 100 * outputs[0].value <= total * percentage < 100 * (outputs[0].value + 1)
            &&& outputs[0].value + outputs[1].value == total
            &&& outputs[0].script_pubkey@ == pool_script
            &&& outputs[1].script_pubkey@ == script@
        },
        mode is FullDonation ==> {
            &&& outputs.len() == 1
            &&& outputs[0].value == total
            &&& outputs[0].script_pubkey@ == pool_script
        },
{
    let views = crate::work::outputs_of(outputs);
    assert(views.len() == outputs.len());
    assert(views[0] == outputs[0]@);
    if let PayoutMode::Donate { percentage, script } = mode {
        assert(views[1] == outputs[1]@);
        assert(total * percentage <= total * 100) by (nonlinear_arith)
            requires
                percentage <= 100,
        ;
        assert(0 <= total * percentage) by (nonlinear_arith);
    }
}

/// The larger the percentage of a donation, the more the pool gets.
pub proof fn larger_donations_pay_the_pool_more(
    percentage: u8,
    larger: u8,
    total: u64,
    script: Seq<u8>,
    pool_script: Seq<u8>,
)
    requires
        percentage <= larger <= 100,
    ensures
        mode_outputs(Mode::Donate { percentage, script }, total, pool_script)[0].value
            <= mode_outputs(Mode::Donate { percentage: larger, script }, total, pool_script)[0].value,
{
    assert(0 <= total * percentage <= total * larger <= total * 100) by (nonlinear_arith)
        requires
            percentage <= larger <= 100,
    ;
}

/// The outputs of a mode are those of the mode alone: who else is paid in other modes makes no
/// difference, and neither does the pool's script to a miner that mines for itself.
pub proof fn solo_miners_do_not_pay_the_pool(
    script: Vec<u8>,
    total: u64,
    pool_script: Vec<u8>,
    other_script: Vec<u8>,
    outputs: Vec<TxOut>,
    others: Vec<TxOut>,
)
    requires
        call_ensures(
            PayoutMode::coinbase_outputs,
            (&(PayoutMode::Solo { script }), total, &pool_script),
            outputs,
        ),
        call_ensures(
            PayoutMode::coinbase_outputs,
            (&(PayoutMode::Solo { script }), total, &other_script),
            others,
        ),
    ensures
        outputs@.len() == 1,
        outputs@[0].value == total,
        outputs@[0].script_pubkey@ == script@,
        crate::work::outputs_of(outputs@) == crate::work::outputs_of(others@),
{
    let views = crate::work::outputs_of(outputs@);
    assert(views.len() == outputs@.len());
    assert(views[0] == outputs@[0]@);
}

} // verus!
