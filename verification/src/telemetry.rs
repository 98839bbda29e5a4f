//! Share telemetry, gathered for each channel and payout address until it is sent.

use crate::calendar::iso8601_millis;
use crate::number::Double;
use crate::text::{decimal_text, same_text};
use vstd::prelude::*;

verus! {

/// One share, as far as telemetry is concerned.
#[derive(Clone, Debug)]
pub struct TelemetryDelta {
    pub channel_id: u32,
    pub payout_address: String,
    pub username: String,
    pub accepted: bool,
    pub work_difficulty: Double,
    pub achieved_difficulty: Double,
    pub fee_work: bool,
}

/// A [`TelemetryDelta`] with its texts as sequences of characters.
pub ghost struct Delta {
    pub channel_id: u32,
    pub payout_address: Seq<char>,
    pub username: Seq<char>,
    pub accepted: bool,
    pub work_difficulty: Double,
    pub achieved_difficulty: Double,
    pub fee_work: bool,
}

impl View for TelemetryDelta {
    type V = Delta;

    open spec fn view(&self) -> Delta {
        Delta {
            channel_id: self.channel_id,
            payout_address: self.payout_address@,
            username: self.username@,
            accepted: self.accepted,
            work_difficulty: self.work_difficulty,
            achieved_difficulty: self.achieved_difficulty,
            fee_work: self.fee_work,
        }
    }
}

impl Default for TelemetryDelta {
    fn default() -> (delta: TelemetryDelta)
        ensures
            delta.channel_id == 0,
            delta.payout_address@ == Seq::<char>::empty(),
            delta.username@ == Seq::<char>::empty(),
            !delta.accepted,
            delta.work_difficulty.bits == 0,
            delta.achieved_difficulty.bits == 0,
            !delta.fee_work,
    {
        TelemetryDelta {
            channel_id: 0,
            payout_address: String::new(),
            username: String::new(),
            accepted: false,
            work_difficulty: Double::zero(),
            achieved_difficulty: Double::zero(),
            fee_work: false,
        }
    }
}

/// What was gathered for one channel and payout address.
#[derive(Clone, Debug)]
pub struct TelemetryAggregate {
    pub channel_id: u32,
    pub payout_address: String,
    pub username: String,
    pub window_start_ms: u128,
    pub window_end_ms: u128,
    pub rejected_share_count: u64,
    /// The difficulty of each accepted share, in the order in which they came.
    pub accepted_work: Vec<Double>,
    /// The difficulty of each accepted share that was mined for the operator.
    pub fee_work: Vec<Double>,
    pub best_difficulty: Double,
}

/// A [`TelemetryAggregate`] with its texts as sequences of characters.
pub ghost struct Aggregate {
    pub channel_id: u32,
    pub payout_address: Seq<char>,
    pub username: Seq<char>,
    pub window_start_ms: u128,
    pub window_end_ms: u128,
    pub rejected_share_count: u64,
    pub accepted_work: Seq<Double>,
    pub fee_work: Seq<Double>,
    pub best_difficulty: Double,
}

impl View for TelemetryAggregate {
    type V = Aggregate;

    open spec fn view(&self) -> Aggregate {
        Aggregate {
            channel_id: self.channel_id,
            payout_address: self.payout_address@,
            username: self.username@,
            window_start_ms: self.window_start_ms,
            window_end_ms: self.window_end_ms,
            rejected_share_count: self.rejected_share_count,
            accepted_work: self.accepted_work@,
            fee_work: self.fee_work@,
            best_difficulty: self.best_difficulty,
        }
    }
}

impl Aggregate {
    /// An aggregate that has seen no share yet.
    pub open spec fn opened(delta: Delta, now_ms: u128) -> Aggregate {
        Aggregate {
            channel_id: delta.channel_id,
            payout_address: delta.payout_address,
            username: delta.username,
            window_start_ms: now_ms,
            window_end_ms: now_ms,
            rejected_share_count: 0,
            accepted_work: Seq::empty(),
            fee_work: Seq::empty(),
            best_difficulty: Double { bits: 0 },
        }
    }

    /// The aggregate after one more share. An accepted share adds its work, adds it to the fee
    /// work too if it is fee work, and may raise the best difficulty; a rejected share only counts
    /// as rejected. Either way the window ends now and the user name is the latest one.
    pub open spec fn with_share(self, delta: Delta, now_ms: u128) -> Aggregate {
        let work = delta.work_difficulty.greater(Double { bits: 0 });
        if delta.accepted {
            Aggregate {
                username: delta.username,
                window_end_ms: now_ms,
                accepted_work: self.accepted_work.push(work),
                fee_work: if delta.fee_work {
                    self.fee_work.push(work)
                } else {
                    self.fee_work
                },
                best_difficulty: self.best_difficulty.greater(delta.achieved_difficulty),
                ..self
            }
        } else {
            Aggregate {
                username: delta.username,
                window_end_ms: now_ms,
                rejected_share_count: (self.rejected_share_count + 1) as u64,
                ..self
            }
        }
    }

    /// Whether one more share can be counted.
    pub open spec fn has_room(self, accepted: bool) -> bool {
        !accepted ==> self.rejected_share_count < u64::MAX
    }
}

/// What a telemetry batch says of one channel and payout address. The sums of work are those of
/// the difficulties listed, added up from zero in their order.
#[derive(Clone, Debug)]
pub struct TelemetryEntry {
    pub channel_id: String,
    pub payout_address: String,
    pub username: String,
    pub window_start_utc: String,
    pub window_end_utc: String,
    pub accepted_share_count: u64,
    pub rejected_share_count: u64,
    pub accepted_work: Vec<Double>,
    pub fee_work: Vec<Double>,
    pub best_difficulty: Double,
}

impl TelemetryEntry {
    /// Whether the entry reports the aggregate. A window never ends before it starts.
    pub open spec fn reports(self, item: Aggregate) -> bool {
        &&& self.channel_id@ == crate::text::decimal(item.channel_id as nat)
        &&& self.payout_address@ == item.payout_address
        &&& self.username@ == item.username
        &&& self.window_start_utc@ == crate::calendar::iso8601_text(item.window_start_ms as int)
        &&& self.window_end_utc@ == crate::calendar::iso8601_text(
            if item.window_end_ms < item.window_start_ms {
                item.window_start_ms as int
            } else {
                item.window_end_ms as int
            },
        )
        &&& self.accepted_share_count == item.accepted_work.len()
        &&& self.rejected_share_count == item.rejected_share_count
        &&& self.accepted_work@ == item.accepted_work
        &&& self.fee_work@ == item.fee_work
        &&& self.best_difficulty == item.best_difficulty
    }
}

/// What is sent to the node.
#[derive(Clone, Debug)]
pub struct TelemetryBatch {
    pub source_instance: String,
    pub entries: Vec<TelemetryEntry>,
}

impl TelemetryBatch {
    /// Whether the batch reports the aggregates, under the name of the pool.
    pub open spec fn reports(self, items: Seq<Aggregate>) -> bool {
        &&& self.source_instance@ == "gridpool-sv2-pool"@
        &&& self.entries@.len() == items.len()
        &&& forall|i: int|
            0 <= i < items.len() ==> (#[trigger] self.entries@[i]).reports(items[i])
    }
}

/// What was gathered since the last batch: at most one aggregate for each channel and payout
/// address, in the order in which they were opened.
#[derive(Debug)]
pub struct Telemetry {
    entries: Vec<TelemetryAggregate>,
}

/// Whether an aggregate is that of the given channel and payout address.
pub open spec fn is_of(item: Aggregate, channel_id: u32, payout_address: Seq<char>) -> bool {
    item.channel_id == channel_id && item.payout_address == payout_address
}

/// Whether no two aggregates belong to the same channel and payout address.
pub open spec fn all_distinct(items: Seq<Aggregate>) -> bool {
    forall|i: int, j: int|
        0 <= i < j < items.len() ==> !is_of(
            #[trigger] items[i],
            (#[trigger] items[j]).channel_id,
            items[j].payout_address,
        )
}

/// Whether there is an aggregate of the given channel and payout address at index `at`.
pub open spec fn found_at(
    items: Seq<Aggregate>,
    channel_id: u32,
    payout_address: Seq<char>,
    at: int,
) -> bool {
    0 <= at < items.len() && is_of(items[at], channel_id, payout_address)
}

/// The aggregates after one more share.
pub open spec fn recorded(
    items: Seq<Aggregate>,
    delta: Delta,
    now_ms: u128,
) -> Seq<Aggregate> {
    if exists|at: int| found_at(items, delta.channel_id, delta.payout_address, at) {
        let at = choose|at: int| found_at(items, delta.channel_id, delta.payout_address, at);
        items.update(at, items[at].with_share(delta, now_ms))
    } else {
        items.push(Aggregate::opened(delta, now_ms).with_share(delta, now_ms))
    }
}

/// Recording a share keeps the aggregates distinct, and leaves those of other channels and
/// payout addresses as they are.
pub proof fn recording_keeps_aggregates_distinct(
    items: Seq<Aggregate>,
    delta: Delta,
    now_ms: u128,
)
    requires
        all_distinct(items),
    ensures
        all_distinct(recorded(items, delta, now_ms)),
        forall|i: int|
            0 <= i < items.len() && !is_of(
                #[trigger] items[i],
                delta.channel_id,
                delta.payout_address,
            ) ==> recorded(items, delta, now_ms)[i] == items[i],
{
    let after = recorded(items, delta, now_ms);
    if exists|at: int| found_at(items, delta.channel_id, delta.payout_address, at) {
        let at = choose|at: int| found_at(items, delta.channel_id, delta.payout_address, at);
        assert forall|i: int, j: int| 0 <= i < j < after.len() implies !is_of(
            #[trigger] after[i],
            (#[trigger] after[j]).channel_id,
            after[j].payout_address,
        ) by {
            assert(!is_of(items[i], items[j].channel_id, items[j].payout_address));
        }
    } else {
        assert forall|i: int, j: int| 0 <= i < j < after.len() implies !is_of(
            #[trigger] after[i],
            (#[trigger] after[j]).channel_id,
            after[j].payout_address,
        ) by {
            assert(!found_at(items, delta.channel_id, delta.payout_address, i));
            if j < items.len() {
                assert(!is_of(items[i], items[j].channel_id, items[j].payout_address));
            }
        }
    }
}

impl View for Telemetry {
    type V = Seq<Aggregate>;

    closed spec fn view(&self) -> Seq<Aggregate> {
        self.entries@.map_values(|item: TelemetryAggregate| item@)
    }
}

impl Telemetry {
    /// Whether a share of a channel and payout address can still be counted.
    pub open spec fn can_count(
        self,
        channel_id: u32,
        payout_address: Seq<char>,
        accepted: bool,
    ) -> bool {
        forall|at: int|
            found_at(self@, channel_id, payout_address, at) ==> self@[at].has_room(accepted)
    }

    /// Telemetry of no share.
    pub fn new() -> (telemetry: Telemetry)
        ensures
            telemetry@ == Seq::<Aggregate>::empty(),
            all_distinct(telemetry@),
    {
        let telemetry = Telemetry { entries: Vec::new() };
        assert(telemetry@ =~= Seq::<Aggregate>::empty());
        telemetry
    }

    /// The index of the aggregate of a channel and payout address, or the number of aggregates.
    fn position(&self, channel_id: u32, payout_address: &str) -> (at: usize)
        requires
            all_distinct(self@),
        ensures
            at <= self@.len(),
            self@.len() == self.entries@.len(),
            at < self@.len() ==> found_at(self@, channel_id, payout_address@, at as int) && forall|
                i: int,
            | #[trigger]
                found_at(self@, channel_id, payout_address@, i) ==> i == at,
            at == self@.len() ==> forall|i: int|
                !#[trigger] found_at(self@, channel_id, payout_address@, i),
    {
        let mut at: usize = 0;
        while at < self.entries.len()
            invariant
                at <= self.entries@.len(),
                self@.len() == self.entries@.len(),
                all_distinct(self@),
                forall|i: int|
                    0 <= i < at ==> !#[trigger] found_at(self@, channel_id, payout_address@, i),
            decreases self.entries@.len() - at,
        {
            let item = &self.entries[at];
            assert(self@[at as int] == item@);
            if item.channel_id == channel_id && same_text(
                item.payout_address.as_str(),
                payout_address,
            ) {
                assert forall|i: int| #[trigger]
                    found_at(self@, channel_id, payout_address@, i) implies i == at by {
                    if i > at {
                        assert(!is_of(self@[at as int], self@[i].channel_id, self@[i].payout_address));
                    }
                }
                return at;
            }
            at = at + 1;
        }
        at
    }

    /// Whether a share of a channel and payout address can still be counted.
    pub fn has_room(&self, channel_id: u32, payout_address: &str, accepted: bool) -> (room: bool)
        requires
            all_distinct(self@),
        ensures
            room == self.can_count(channel_id, payout_address@, accepted),
    {
        let at = self.position(channel_id, payout_address);
        if at < self.entries.len() {
            assert(self@[at as int] == self.entries@[at as int]@);
            let item = &self.entries[at];
            accepted || item.rejected_share_count < u64::MAX
        } else {
            true
        }
    }

    /// Records one share at the time `now_ms`.
    pub fn record(&mut self, delta: TelemetryDelta, now_ms: u128)
        requires
            all_distinct(old(self)@),
            old(self).can_count(delta.channel_id, delta.payout_address@, delta.accepted),
        ensures
            final(self)@ == recorded(old(self)@, delta@, now_ms),
            all_distinct(final(self)@),
    {
        proof {
            recording_keeps_aggregates_distinct(self@, delta@, now_ms);
        }
        let at = self.position(delta.channel_id, delta.payout_address.as_str());
        let ghost before = self@;
        if at == self.entries.len() {
            let opened = TelemetryAggregate {
                channel_id: delta.channel_id,
                payout_address: delta.payout_address.clone(),
                username: delta.username.clone(),
                window_start_ms: now_ms,
                window_end_ms: now_ms,
                rejected_share_count: 0,
                accepted_work: Vec::new(),
                fee_work: Vec::new(),
                best_difficulty: Double::zero(),
            };
            let counted = counted(opened, delta, now_ms);
            self.entries.push(counted);
            assert(self@ =~= recorded(before, delta@, now_ms));
        } else {
            assert(found_at(before, delta.channel_id, delta.payout_address@, at as int));
            assert(before[at as int] == self.entries@[at as int]@);
            let item = self.entries.remove(at);
            let counted = counted(item, delta, now_ms);
            self.entries.insert(at, counted);
            assert(self@ =~= recorded(before, delta@, now_ms));
        }
    }

    /// Takes everything that was gathered out and puts it into the words of a batch.
    pub fn drain(&mut self) -> (batch: Vec<TelemetryEntry>)
        ensures
            final(self)@ == Seq::<Aggregate>::empty(),
            batch@.len() == old(self)@.len(),
            forall|i: int|
                0 <= i < batch@.len() ==> (#[trigger] batch@[i]).reports(old(self)@[i]),
    {
        let mut batch: Vec<TelemetryEntry> = Vec::new();
        let mut i: usize = 0;
        while i < self.entries.len()
            invariant
                *self == *old(self),
                i <= self.entries@.len(),
                batch@.len() == i,
                forall|k: int| 0 <= k < i ==> (#[trigger] batch@[k]).reports(self@[k]),
            decreases self.entries@.len() - i,
        {
            assert(self@[i as int] == self.entries@[i as int]@);
            batch.push(entry_of(&self.entries[i]));
            i = i + 1;
        }
        self.entries = Vec::new();
        assert(self@ =~= Seq::<Aggregate>::empty());
        batch
    }
}

/// `item` after one more share.
fn counted(
    item: TelemetryAggregate,
    delta: TelemetryDelta,
    now_ms: u128,
) -> (after: TelemetryAggregate)
    requires
        item@.has_room(delta.accepted),
    ensures
        after@ == item@.with_share(delta@, now_ms),
{
    let mut after = item;
    after.window_end_ms = now_ms;
    after.username = delta.username;
    if delta.accepted {
        let work = delta.work_difficulty.max(Double::zero());
        after.accepted_work.push(work);
        if delta.fee_work {
            after.fee_work.push(work);
        }
        after.best_difficulty = after.best_difficulty.max(delta.achieved_difficulty);
    } else {
        after.rejected_share_count = after.rejected_share_count + 1;
    }
    after
}

/// A copy of a list of numbers.
fn copy_doubles(list: &Vec<Double>) -> (copy: Vec<Double>)
    ensures
        copy@ == list@,
{
    let mut copy: Vec<Double> = Vec::new();
    let mut i: usize = 0;
    while i < list.len()
        invariant
            i <= list@.len(),
            copy@ == list@.take(i as int),
        decreases list@.len() - i,
    {
        copy.push(list[i]);
        assert(copy@ =~= list@.take(i + 1));
        i = i + 1;
    }
    assert(list@.take(i as int) =~= list@);
    copy
}

/// The entry that reports an aggregate.
pub fn entry_of(item: &TelemetryAggregate) -> (entry: TelemetryEntry)
    ensures
        entry.reports(item@),
{
    let end = if item.window_end_ms < item.window_start_ms {
        item.window_start_ms
    } else {
        item.window_end_ms
    };
    TelemetryEntry {
        channel_id: decimal_text(item.channel_id as u64),
        payout_address: item.payout_address.clone(),
        username: item.username.clone(),
        window_start_utc: iso8601_millis(item.window_start_ms),
        window_end_utc: iso8601_millis(end),
        accepted_share_count: item.accepted_work.len() as u64,
        rejected_share_count: item.rejected_share_count,
        accepted_work: copy_doubles(&item.accepted_work),
        fee_work: copy_doubles(&item.fee_work),
        best_difficulty: item.best_difficulty,
    }
}

/// A share is counted once: in the aggregate of its channel and payout address if there is one, or
/// else in a new one behind the others. An accepted share adds its difficulty to the work, and to
/// the fee work if it is that, and a rejected one is counted as rejected, never both. All other
/// aggregates stay.
pub proof fn shares_are_counted_once(
    items: Seq<Aggregate>,
    delta: Delta,
    now_ms: u128,
    at: int,
)
    requires
        all_distinct(items),
        0 <= at < recorded(items, delta, now_ms).len(),
        at < items.len() ==> items[at].has_room(delta.accepted),
    ensures
        ({
            let after = recorded(items, delta, now_ms);
            let known = exists|k: int|
                0 <= k < items.len() && (#[trigger] items[k]).channel_id == delta.channel_id
                    && items[k].payout_address == delta.payout_address;
            let concerned = after[at].channel_id == delta.channel_id && after[at].payout_address
                == delta.payout_address;
            &&& known ==> after.len() == items.len()
            &&& !known ==> after.len() == items.len() + 1
            &&& at < items.len() && !concerned ==> after[at] == items[at]
            &&& at == items.len() ==> concerned
            &&& concerned && at < items.len() ==> {
                let old_item = items[at];
                &&& old_item.channel_id == delta.channel_id
                &&& old_item.payout_address == delta.payout_address
                &&& after[at].window_start_ms == old_item.window_start_ms
                &&& is_one_share_more(old_item, after[at], delta, now_ms)
            }
            &&& at == items.len() ==> {
                &&& after[at].window_start_ms == now_ms
                &&& after[at].window_end_ms == now_ms
                &&& after[at].username == delta.username
                &&& after[at].accepted_work.len() == if delta.accepted {
                    1nat
                } else {
                    0nat
                }
                &&& after[at].rejected_share_count == if delta.accepted {
                    0int
                } else {
                    1int
                }
                &&& after[at].fee_work == if delta.accepted && delta.fee_work {
                    after[at].accepted_work
                } else {
                    Seq::empty()
                }
                &&& delta.accepted && delta.work_difficulty.is_at_least(Double { bits: 0 })
                    ==> after[at].accepted_work[0] == delta.work_difficulty
                &&& delta.accepted && !delta.work_difficulty.is_at_least(Double { bits: 0 })
                    ==> after[at].accepted_work[0].bits == 0
                &&& !delta.achieved_difficulty.is_at_least(Double { bits: 1 })
                    ==> after[at].best_difficulty.bits == 0
                &&& delta.accepted && delta.achieved_difficulty.is_at_least(Double { bits: 1 })
                    ==> after[at].best_difficulty == delta.achieved_difficulty
                &&& !delta.accepted ==> after[at].best_difficulty.bits == 0
            }
        }),
{
    let after = recorded(items, delta, now_ms);
    if exists|k: int| found_at(items, delta.channel_id, delta.payout_address, k) {
        let k = choose|k: int| found_at(items, delta.channel_id, delta.payout_address, k);
        assert(items[k].channel_id == delta.channel_id);
        if at < k {
            assert(!is_of(items[at], items[k].channel_id, items[k].payout_address));
        }
        if at > k {
            assert(!is_of(items[k], items[at].channel_id, items[at].payout_address));
        }
        assert(delta.accepted ==> after[k].accepted_work.take(
            items[k].accepted_work.len() as int,
        ) =~= items[k].accepted_work);
    } else {
        assert forall|k: int|
            0 <= k < items.len() implies !((#[trigger] items[k]).channel_id == delta.channel_id
            && items[k].payout_address == delta.payout_address) by {
            assert(!found_at(items, delta.channel_id, delta.payout_address, k));
        }
        let new = after[items.len() as int];
        assert(delta.accepted && delta.fee_work ==> new.fee_work =~= new.accepted_work);
    }
}

/// Whether an aggregate has counted one share more than another one.
pub open spec fn is_one_share_more(
    before: Aggregate,
    after: Aggregate,
    delta: Delta,
    now_ms: u128,
) -> bool {
    let zero = Double { bits: 0 };
    let count = before.accepted_work.len() as int;
    &&& after.username == delta.username
    &&& after.window_end_ms == now_ms
    &&& after.accepted_work.len() + after.rejected_share_count == count
        + before.rejected_share_count + 1
    &&& delta.accepted ==> {
        &&& after.rejected_share_count == before.rejected_share_count
        &&& after.accepted_work.len() == count + 1
        &&& after.accepted_work.take(count) == before.accepted_work
        &&& delta.work_difficulty.is_at_least(zero) ==> after.accepted_work[count]
            == delta.work_difficulty
        &&& !delta.work_difficulty.is_at_least(zero) ==> after.accepted_work[count] == zero
        &&& after.fee_work == if delta.fee_work {
            before.fee_work.push(after.accepted_work[count])
        } else {
            before.fee_work
        }
        &&& !delta.achieved_difficulty.is_at_least(delta.achieved_difficulty)
            ==> after.best_difficulty == before.best_difficulty
        &&& before.best_difficulty.is_at_least(delta.achieved_difficulty)
            ==> after.best_difficulty == before.best_difficulty
        &&& delta.achieved_difficulty.is_at_least(before.best_difficulty)
            && !before.best_difficulty.is_at_least(delta.achieved_difficulty)
            ==> after.best_difficulty == delta.achieved_difficulty
    }
    &&& !delta.accepted ==> {
        &&& after.rejected_share_count == before.rejected_share_count + 1
        &&& after.accepted_work == before.accepted_work
        &&& after.fee_work == before.fee_work
        &&& after.best_difficulty == before.best_difficulty
    }
}

/// An entry of a batch says what was gathered: its channel in decimal notation, as many accepted
/// shares as there are difficulties, and the times of its window as timestamps, of which the second
/// is not before the first.
pub proof fn entries_report_what_was_gathered(
    entry: TelemetryEntry,
    item: TelemetryAggregate,
)
    requires
        call_ensures(entry_of, (&item,), entry),
    ensures
        crate::text::decimal_value(entry.channel_id@) == item.channel_id,
        entry.payout_address@ == item.payout_address@,
        entry.username@ == item.username@,
        entry.accepted_share_count == item.accepted_work@.len(),
        entry.rejected_share_count == item.rejected_share_count,
        entry.accepted_work@ == item.accepted_work@,
        entry.fee_work@ == item.fee_work@,
        entry.best_difficulty == item.best_difficulty,
        entry.window_start_utc@ == crate::calendar::iso8601_text(item.window_start_ms as int),
        item.window_end_ms >= item.window_start_ms ==> entry.window_end_utc@
            == crate::calendar::iso8601_text(item.window_end_ms as int),
        item.window_end_ms < item.window_start_ms ==> entry.window_end_utc@
            == entry.window_start_utc@,
{
    crate::text::decimal_notation_stands_for_its_number(item.channel_id as nat);
}

/// A batch names its source and reports each aggregate once, in their order.
pub proof fn batches_report_every_aggregate(
    batch: TelemetryBatch,
    items: Seq<TelemetryAggregate>,
    k: int,
)
    requires
        batch.reports(items.map_values(|item: TelemetryAggregate| item@)),
    ensures
        batch.source_instance@ == "gridpool-sv2-pool"@,
        batch.entries@.len() == items.len(),
        0 <= k < items.len() ==> {
            &&& batch.entries@[k].payout_address@ == items[k].payout_address@
            &&& batch.entries@[k].accepted_work@ == items[k].accepted_work@
            &&& crate::text::decimal_value(batch.entries@[k].channel_id@) == items[k].channel_id
        },
{
    let views = items.map_values(|item: TelemetryAggregate| item@);
    assert(views.len() == items.len());
    if 0 <= k < items.len() {
        assert(batch.entries@[k].reports(views[k]));
        crate::text::decimal_notation_stands_for_its_number(items[k].channel_id as nat);
    }
}

/// Telemetry starts empty, and taking it out gives one entry for each aggregate, in the order in
/// which they were opened, and leaves none.
pub proof fn telemetry_is_taken_out_whole(
    telemetry: &mut Telemetry,
    batch: Vec<TelemetryEntry>,
    fresh: Telemetry,
    k: int,
)
    requires
        call_ensures(Telemetry::new, (), fresh),
        call_ensures(Telemetry::drain, (telemetry,), batch),
    ensures
        fresh@.len() == 0,
        batch@.len() == old(telemetry)@.len(),
        final(telemetry)@.len() == 0,
        0 <= k < batch@.len() ==> ({
            let item = old(telemetry)@[k];
            let entry = batch@[k];
            &&& entry.payout_address@ == item.payout_address
            &&& entry.username@ == item.username
            &&& crate::text::decimal_value(entry.channel_id@) == item.channel_id
            &&& entry.accepted_share_count == item.accepted_work.len()
            &&& entry.rejected_share_count == item.rejected_share_count
            &&& entry.accepted_work@ == item.accepted_work
            &&& entry.fee_work@ == item.fee_work
            &&& entry.best_difficulty == item.best_difficulty
        }),
{
    if 0 <= k < batch@.len() {
        assert(batch@[k].reports(old(telemetry)@[k]));
    }
    crate::text::decimal_notation_stands_for_its_number(old(telemetry)@[k].channel_id as nat);
}

/// A share is recorded in the aggregate of its channel and payout address, and in no other.
pub proof fn shares_are_recorded_where_they_belong(
    telemetry: &mut Telemetry,
    delta: TelemetryDelta,
    now_ms: u128,
    at: int,
    other: int,
)
    requires
        all_distinct(old(telemetry)@),
        call_ensures(Telemetry::record, (telemetry, delta, now_ms), ()),
        0 <= at < old(telemetry)@.len(),
        old(telemetry)@[at].channel_id == delta.channel_id,
        old(telemetry)@[at].payout_address == delta.payout_address@,
        old(telemetry)@[at].rejected_share_count < u64::MAX,
    ensures
        final(telemetry)@.len() == old(telemetry)@.len(),
        is_one_share_more(old(telemetry)@[at], final(telemetry)@[at], delta@, now_ms),
        0 <= other < old(telemetry)@.len() && other != at ==> final(telemetry)@[other] == old(
            telemetry,
        )@[other],
{
    let items = old(telemetry)@;
    assert(found_at(items, delta.channel_id, delta.payout_address@, at));
    shares_are_counted_once(items, delta@, now_ms, at);
    if 0 <= other < at {
        assert(!is_of(items[other], items[at].channel_id, items[at].payout_address));
    }
    if at < other < items.len() {
        assert(!is_of(items[at], items[other].channel_id, items[other].payout_address));
    }
    recording_keeps_aggregates_distinct(items, delta@, now_ms);
}

/// One more share can be counted unless it is a rejected one and as many of these were counted for
/// its channel and payout address as can be.
pub proof fn accepted_shares_can_always_be_counted(
    telemetry: Telemetry,
    channel_id: u32,
    payout_address: &str,
    accepted: bool,
    room: bool,
)
    requires
        all_distinct(telemetry@),
        call_ensures(
            Telemetry::has_room,
            (&telemetry, channel_id, payout_address, accepted),
            room,
        ),
    ensures
        accepted ==> room,
        !accepted ==> (room <==> forall|at: int|
            0 <= at < telemetry@.len() && (#[trigger] telemetry@[at]).channel_id == channel_id
                && telemetry@[at].payout_address == payout_address@
                ==> telemetry@[at].rejected_share_count < u64::MAX),
{
    if !accepted {
        if room {
            assert forall|at: int|
                0 <= at < telemetry@.len() && (#[trigger] telemetry@[at]).channel_id == channel_id
                    && telemetry@[at].payout_address == payout_address@ implies
                telemetry@[at].rejected_share_count < u64::MAX by {
                assert(found_at(telemetry@, channel_id, payout_address@, at));
            }
        }
    }
}

} // verus!
