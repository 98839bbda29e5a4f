//! Settings of the GridPool adapter and what follows from them.

use crate::number::Double;
use crate::text::{chars_of, string_of};
use vstd::prelude::*;
use vstd::string::StringExecFns;

verus! {

/// One hundred as a double.
pub const HUNDRED: u64 = 0x4059_0000_0000_0000;

/// Settings of the GridPool adapter.
#[derive(Clone, Debug)]
pub struct GridPoolConfig {
    /// Base URL of the local GridPool node.
    pub node_url: String,
    /// Payout address of channels whose identity names none.
    pub fallback_payout_address: String,
    /// Address that receives the operator fee.
    pub operator_fee_address: Option<String>,
    /// Share of the work that goes to the operator, in percent.
    pub operator_fee_percent: Double,
    /// `operator_fee_percent` of the fee cycle in seconds, rounded to the nearest second.
    pub operator_fee_seconds: u64,
    /// File that holds the token shared with the node.
    pub adapter_token_file: String,
    /// Directory in which proofs wait for submission.
    pub proof_spool_dir: Option<String>,
    /// Seconds between two looks at the node's work selection.
    pub refresh_seconds: u64,
    /// Seconds between two telemetry batches.
    pub telemetry_flush_seconds: u64,
    /// Length of the fee cycle in seconds.
    pub fee_cycle_seconds: u64,
}

impl GridPoolConfig {
    /// Whether the fee percentage lies between 0 and 100.
    pub open spec fn percent_in_range(self) -> bool {
        self.operator_fee_percent.is_at_least(Double { bits: 0 }) && (Double { bits: HUNDRED })
            .is_at_least(self.operator_fee_percent)
    }

    /// Whether the fee percentage is greater than zero.
    pub open spec fn percent_is_positive(self) -> bool {
        !self.operator_fee_percent.is_nan() && self.operator_fee_percent.rank() > 0
    }

    /// Whether all intervals are positive.
    pub open spec fn intervals_positive(self) -> bool {
        self.refresh_seconds > 0 && self.telemetry_flush_seconds > 0 && self.fee_cycle_seconds > 0
    }

    /// The first complaint about the settings.
    pub open spec fn complaint(self) -> Option<Seq<char>> {
        if !self.percent_in_range() {
            Some("GridPool operator_fee_percent must be between 0 and 100"@)
        } else if self.percent_is_positive() && self.operator_fee_address is None {
            Some("GridPool operator_fee_address is required when the operator fee is enabled"@)
        } else if !self.intervals_positive() {
            Some("GridPool intervals must be positive"@)
        } else {
            None
        }
    }

    /// Whether an operator fee is taken at all.
    pub open spec fn takes_fee(self) -> bool {
        !(Double { bits: 0 }).is_at_least(self.operator_fee_percent) && self.operator_fee_address
            is Some
    }

    /// Whether an operator fee is taken at all.
    pub fn fee_enabled(&self) -> (enabled: bool)
        ensures
            enabled == self.takes_fee(),
    {
        !Double::zero().at_least(self.operator_fee_percent) && self.operator_fee_address.is_some()
    }

    /// The length of the fee cycle, at least one second.
    pub open spec fn cycle(self) -> int {
        if self.fee_cycle_seconds == 0 {
            1
        } else {
            self.fee_cycle_seconds as int
        }
    }

    /// The seconds of each cycle in which the fee is taken: at least one, at most the cycle.
    pub open spec fn fee_span(self) -> int {
        if self.operator_fee_seconds < 1 {
            1
        } else if self.operator_fee_seconds > self.cycle() {
            self.cycle()
        } else {
            self.operator_fee_seconds as int
        }
    }
}

/// Whether `result` reports exactly the given complaint.
pub open spec fn reports(result: Result<(), String>, complaint: Option<Seq<char>>) -> bool {
    match result {
        Ok(_) => complaint is None,
        Err(message) => complaint == Some(message@),
    }
}

/// Checks the settings.
pub fn validate_config(config: &GridPoolConfig) -> (result: Result<(), String>)
    ensures
        reports(result, config.complaint()),
{
    let percent = config.operator_fee_percent;
    if !percent.at_least(Double::zero()) || !(Double { bits: HUNDRED }).at_least(percent) {
        return Err("GridPool operator_fee_percent must be between 0 and 100".to_owned());
    }
    if !Double::zero().at_least(percent) && config.operator_fee_address.is_none() {
        return Err(
            "GridPool operator_fee_address is required when the operator fee is enabled".to_owned(),
        );
    }
    if config.refresh_seconds == 0 || config.telemetry_flush_seconds == 0
        || config.fee_cycle_seconds == 0 {
        return Err("GridPool intervals must be positive".to_owned());
    }
    Ok(())
}

/// `s` without the slashes it starts with.
pub open spec fn without_leading_slashes(s: Seq<char>) -> Seq<char>
    decreases s.len(),
{
    if s.len() > 0 && s[0] == '/' {
        without_leading_slashes(s.drop_first())
    } else {
        s
    }
}

/// `s` without the slashes it ends with.
pub open spec fn without_trailing_slashes(s: Seq<char>) -> Seq<char>
    decreases s.len(),
{
    if s.len() > 0 && s.last() == '/' {
        without_trailing_slashes(s.drop_last())
    } else {
        s
    }
}

/// The URL of `path` below `base`, joined by one slash.
pub open spec fn endpoint_text(base: Seq<char>, path: Seq<char>) -> Seq<char> {
    without_trailing_slashes(base) + "/"@ + without_leading_slashes(path)
}

/// The URL of `path` below `base`.
pub fn endpoint(base: &str, path: &str) -> (url: String)
    ensures
        url@ == endpoint_text(base@, path@),
{
    let front = chars_of(base);
    let mut end: usize = front.len();
    assert(front@.take(end as int) =~= base@);
    while end > 0 && front[end - 1] == '/'
        invariant
            end <= front@.len(),
            without_trailing_slashes(front@.take(end as int)) == without_trailing_slashes(base@),
        decreases end,
    {
        assert(front@.take(end as int).drop_last() =~= front@.take(end - 1));
        end = end - 1;
    }
    let back = chars_of(path);
    let mut start: usize = 0;
    assert(back@.skip(start as int) =~= path@);
    while start < back.len() && back[start] == '/'
        invariant
            start <= back@.len(),
            without_leading_slashes(back@.skip(start as int)) == without_leading_slashes(path@),
        decreases back@.len() - start,
    {
        assert(back@.skip(start as int).drop_first() =~= back@.skip(start + 1));
        start = start + 1;
    }
    let mut url = string_of(&front, 0, end);
    let tail = string_of(&back, start, back.len());
    assert(url@ =~= front@.take(end as int));
    assert(tail@ =~= back@.skip(start as int));
    url.append("/");
    url.append(tail.as_str());
    url
}

/// How many slashes end the base and start the path makes no difference to the URL.
pub proof fn endpoint_ignores_slashes(base: Seq<char>, path: Seq<char>)
    ensures
        endpoint_text(base + "/"@, path) == endpoint_text(base, path),
        endpoint_text(base, "/"@ + path) == endpoint_text(base, path),
{
    reveal_strlit("/");
    assert((base + "/"@).drop_last() =~= base);
    assert(("/"@ + path).drop_first() =~= path);
}

/// Where proofs wait for submission.
#[derive(Clone, Debug)]
pub enum SpoolDirectory {
    /// The directory that the settings name.
    Configured(String),
    /// The directory `name` inside `parent`.
    Inside { parent: String, name: String },
}

/// Where proofs wait for submission: the directory that the settings name, or else
/// `sv2-proof-spool` in the directory of the token file. `token_directory` is the parent of
/// `adapter_token_file` if it has one; without a parent it is the current directory.
pub fn proof_spool_dir(config: &GridPoolConfig, token_directory: Option<String>) -> (directory:
    SpoolDirectory)
    ensures
        match config.proof_spool_dir {
            Some(configured) => directory matches SpoolDirectory::Configured(d) && d@
                == configured@,
            None => directory matches SpoolDirectory::Inside { parent, name } && parent@ == (
            match token_directory {
                Some(p) => p@,
                None => "."@,
            }) && name@ == "sv2-proof-spool"@,
        },
{
    match &config.proof_spool_dir {
        Some(configured) => SpoolDirectory::Configured(configured.clone()),
        None => {
            let parent = match token_directory {
                Some(p) => p,
                None => ".".to_owned(),
            };
            SpoolDirectory::Inside { parent, name: "sv2-proof-spool".to_owned() }
        },
    }
}

/// A URL is the base without the slashes at its end, one slash, and the path without the slashes at
/// its start: nothing but slashes is dropped.
pub proof fn endpoints_are_joined_by_one_slash(base: Seq<char>, path: Seq<char>)
    ensures
        exists|b: int, p: int|
            0 <= b <= base.len() && 0 <= p <= path.len() && (b > 0 ==> base[b - 1] != '/') && (p
                < path.len() ==> path[p] != '/') && (forall|k: int|
                b <= k < base.len() ==> base[k] == '/') && (forall|k: int|
                0 <= k < p ==> path[k] == '/') && endpoint_text(base, path) == #[trigger] base.take(
                b,
            ) + seq!['/'] + #[trigger] path.skip(p),
{
    reveal_strlit("/");
    lemma_trailing(base);
    lemma_leading(path);
    let b = without_trailing_slashes(base).len() as int;
    let p = path.len() - without_leading_slashes(path).len();
    assert(endpoint_text(base, path) =~= base.take(b) + seq!['/'] + path.skip(p));
}

/// What is left without trailing slashes.
proof fn lemma_trailing(s: Seq<char>)
    ensures
        ({
            let n = without_trailing_slashes(s).len() as int;
            &&& n <= s.len()
            &&& without_trailing_slashes(s) == s.take(n)
            &&& n > 0 ==> s[n - 1] != '/'
            &&& forall|k: int| n <= k < s.len() ==> s[k] == '/'
        }),
    decreases s.len(),
{
    let n = without_trailing_slashes(s).len() as int;
    if s.len() > 0 && s.last() == '/' {
        lemma_trailing(s.drop_last());
        assert(s.drop_last().take(n) =~= s.take(n));
        assert forall|k: int| n <= k < s.len() implies s[k] == '/' by {
            if k < s.len() - 1 {
                assert(s.drop_last()[k] == s[k]);
            }
        }
    } else {
        assert(s.take(n) =~= s);
    }
}

/// What is left without leading slashes.
proof fn lemma_leading(s: Seq<char>)
    ensures
        ({
            let p = s.len() - without_leading_slashes(s).len();
            &&& 0 <= p
            &&& without_leading_slashes(s) == s.skip(p)
            &&& p < s.len() ==> s[p] != '/'
            &&& forall|k: int| 0 <= k < p ==> s[k] == '/'
        }),
    decreases s.len(),
{
    let p = s.len() - without_leading_slashes(s).len();
    if s.len() > 0 && s[0] == '/' {
        lemma_leading(s.drop_first());
        assert(s.drop_first().skip(p - 1) =~= s.skip(p));
        assert forall|k: int| 0 <= k < p implies s[k] == '/' by {
            if k > 0 {
                assert(s.drop_first()[k - 1] == s[k]);
            }
        }
    } else {
        assert(s.skip(0) =~= s);
    }
}

/// Settings are good if and only if the fee lies between 0 and 100 percent, a fee above zero has an
/// address, and no interval is zero. The message names the first of these that fails.
pub proof fn settings_fail_for_the_first_reason(config: GridPoolConfig)
    ensures
        ({
            let bits = config.operator_fee_percent.bits;
            let in_range = bits <= 0x4059_0000_0000_0000 || bits == 0x8000_0000_0000_0000;
            let positive = 0 < bits <= 0x4059_0000_0000_0000;
            let addressed = !positive || config.operator_fee_address is Some;
            let timed = config.refresh_seconds != 0 && config.telemetry_flush_seconds != 0
                && config.fee_cycle_seconds != 0;
            &&& config.complaint() is None <==> in_range && addressed && timed
            &&& !in_range ==> config.complaint() == Some(
                "GridPool operator_fee_percent must be between 0 and 100"@,
            )
            &&& in_range && !addressed ==> config.complaint() == Some(
                "GridPool operator_fee_address is required when the operator fee is enabled"@,
            )
            &&& in_range && addressed && !timed ==> config.complaint() == Some(
                "GridPool intervals must be positive"@,
            )
        }),
{
}

/// A fee is taken if and only if there is an address for it and its percentage is neither zero nor
/// below zero.
pub proof fn fees_need_an_address_and_a_percentage(config: GridPoolConfig)
    ensures
        ({
            let bits = config.operator_fee_percent.bits;
            let none = bits == 0 || 0x8000_0000_0000_0000 <= bits <= 0xfff0_0000_0000_0000;
            config.takes_fee() <==> config.operator_fee_address is Some && !none
        }),
{
}

/// Proofs wait in the directory that the settings name. If they name none, they wait beside the
/// token file, or in the current directory if it has no directory of its own.
pub proof fn proofs_wait_where_the_settings_say(
    config: GridPoolConfig,
    token_directory: Option<String>,
    directory: SpoolDirectory,
)
    requires
        call_ensures(proof_spool_dir, (&config, token_directory), directory),
    ensures
        directory is Configured <==> config.proof_spool_dir is Some,
        directory is Configured ==> directory->Configured_0@ == config.proof_spool_dir->0@,
        directory is Inside ==> {
            &&& directory->name@ == "sv2-proof-spool"@
            &&& token_directory is Some ==> directory->parent@ == token_directory->0@
            &&& token_directory is None ==> directory->parent@ == "."@
        },
{
}

/// Settings that are good pass, and others are refused with the first thing that is wrong with them.
pub proof fn settings_pass_if_they_are_good(config: GridPoolConfig, result: Result<(), String>)
    requires
        call_ensures(validate_config, (&config,), result),
    ensures
        ({
            let bits = config.operator_fee_percent.bits;
            let in_range = bits <= 0x4059_0000_0000_0000 || bits == 0x8000_0000_0000_0000;
            let positive = 0 < bits <= 0x4059_0000_0000_0000;
            let addressed = !positive || config.operator_fee_address is Some;
            let timed = config.refresh_seconds != 0 && config.telemetry_flush_seconds != 0
                && config.fee_cycle_seconds != 0;
            &&& result is Ok <==> in_range && addressed && timed
            &&& !in_range ==> result->Err_0@
                == "GridPool operator_fee_percent must be between 0 and 100"@
            &&& in_range && !addressed ==> result->Err_0@
                == "GridPool operator_fee_address is required when the operator fee is enabled"@
            &&& in_range && addressed && !timed ==> result->Err_0@
                == "GridPool intervals must be positive"@
        }),
{
    settings_fail_for_the_first_reason(config);
}

} // verus!
