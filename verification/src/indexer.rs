//! An SST's index creators and the memory they take.
use std::sync::Arc;
use vstd::prelude::*;

use crate::backend::Backend;
use crate::file::{FileId, RegionId};
use crate::output::IndexOutput;

verus! {

/// Label of the inverted index in the memory gauge.
pub const TYPE_INVERTED_INDEX: &'static str = "inverted_index";

/// Label of the fulltext index in the memory gauge.
pub const TYPE_FULLTEXT_INDEX: &'static str = "fulltext_index";

/// Label of the bloom filter in the memory gauge.
pub const TYPE_BLOOM_FILTER_INDEX: &'static str = "bloom_filter_index";

/// Who builds the puffin manager that stores the index file.
pub enum SstPuffinManager<B: Backend> {
    /// The write cache builds it for a region.
    WriteCache {
        /// The cache.
        write_cache: Arc<B::WriteCache>,
        /// The region.
        region_id: RegionId,
    },
    /// The access layer builds it.
    AccessLayer {
        /// The access layer.
        access_layer: Arc<B::AccessLayer>,
    },
}

impl<B: Backend> Clone for SstPuffinManager<B> {
    fn clone(&self) -> (manager: Self)
        ensures
            manager == *self,
    {
        match self {
            SstPuffinManager::WriteCache { write_cache, region_id } => {
                SstPuffinManager::WriteCache {
                    write_cache: write_cache.clone(),
                    region_id: *region_id,
                }
            },
            SstPuffinManager::AccessLayer { access_layer } => {
                SstPuffinManager::AccessLayer { access_layer: access_layer.clone() }
            },
        }
    }
}

/// Bytes of memory for each kind of index.
#[derive(Debug, Clone, Copy, PartialEq, Eq, Structural)]
pub struct MemoryUsage {
    /// For the inverted index.
    pub inverted_index: usize,
    /// For the fulltext index.
    pub fulltext_index: usize,
    /// For the bloom filter.
    pub bloom_filter: usize,
}

/// An amount to add to the memory gauge under a label.
#[derive(Debug, Clone, Copy)]
pub struct GaugeUpdate {
    /// The label.
    pub label: &'static str,
    /// The amount, in bytes.
    pub delta: i64,
}

/// `bytes` as the gauge counts them: in 64 bits with a sign.
pub open spec fn gauge_bytes(bytes: usize) -> int {
    if bytes <= i64::MAX {
        bytes as int
    } else {
        bytes - 0x1_0000_0000_0000_0000
    }
}

/// What the gauge has to add when the memory goes from `last` to `now`.
pub open spec fn gauge_change(last: usize, now: usize) -> int {
    gauge_bytes(now) - gauge_bytes(last)
}

/// Whether the gauge can add `gauge_change(last, now)`.
pub open spec fn change_fits(last: usize, now: usize) -> bool {
    i64::MIN <= gauge_change(last, now) <= i64::MAX
}

fn gauge_delta(last: usize, now: usize) -> (delta: i64)
    requires
        change_fits(last, now),
    ensures
        delta == gauge_change(last, now),
{
    let now_bytes: i64 = now as i64;
    let last_bytes: i64 = last as i64;
    proof {
        lemma_gauge_bytes(now);
        lemma_gauge_bytes(last);
    }
    now_bytes - last_bytes
}

fn gauge_takes(last: usize, now: usize) -> (fits: bool)
    ensures
        fits == change_fits(last, now),
{
    let now_bytes: i64 = now as i64;
    let last_bytes: i64 = last as i64;
    proof {
        lemma_gauge_bytes(now);
        lemma_gauge_bytes(last);
    }
    now_bytes.checked_sub(last_bytes).is_some()
}

proof fn lemma_gauge_bytes(bytes: usize)
    ensures
        bytes as i64 == gauge_bytes(bytes),
{
    let wide = bytes as u64;
    assert(wide as i64 == if wide <= 0x7fff_ffff_ffff_ffff {
        wide as int
    } else {
        wide - 0x1_0000_0000_0000_0000
    }) by (bit_vector);
    assert(bytes as i64 == (bytes as u64) as i64) by (bit_vector);
}

/// The index creator that hides the error handling details.
pub struct Indexer<B: Backend> {
    /// File that is indexed.
    pub file_id: FileId,
    /// Region of the file.
    pub region_id: RegionId,
    /// Where the index file goes; nowhere without any creator.
    pub puffin_manager: Option<SstPuffinManager<B>>,
    /// Creator of the inverted index.
    pub inverted_indexer: Option<B::InvertedIndexer>,
    /// Bytes that the gauge was last told of for the inverted index.
    pub last_mem_inverted_index: usize,
    /// Creator of the fulltext index.
    pub fulltext_indexer: Option<B::FulltextIndexer>,
    /// Bytes that the gauge was last told of for the fulltext index.
    pub last_mem_fulltext_index: usize,
    /// Creator of the bloom filter.
    pub bloom_filter_indexer: Option<B::BloomFilterIndexer>,
    /// Bytes that the gauge was last told of for the bloom filter.
    pub last_mem_bloom_filter: usize,
}

impl<B: Backend> Indexer<B> {
    /// An indexer for a file that has no creators yet.
    pub open spec fn idle(file_id: FileId, region_id: RegionId) -> Self {
        Indexer {
            file_id,
            region_id,
            puffin_manager: None,
            inverted_indexer: None,
            last_mem_inverted_index: 0,
            fulltext_indexer: None,
            last_mem_fulltext_index: 0,
            bloom_filter_indexer: None,
            last_mem_bloom_filter: 0,
        }
    }

    /// Whether there is no creator of any kind.
    pub open spec fn has_no_creator(self) -> bool {
        &&& self.inverted_indexer is None
        &&& self.fulltext_indexer is None
        &&& self.bloom_filter_indexer is None
    }

    /// The memory that the gauge was last told of.
    pub open spec fn reported(self) -> MemoryUsage {
        MemoryUsage {
            inverted_index: self.last_mem_inverted_index,
            fulltext_index: self.last_mem_fulltext_index,
            bloom_filter: self.last_mem_bloom_filter,
        }
    }

    /// The memory that the creators hold when they say `usage`: none where there is no creator.
    pub open spec fn held(self, usage: MemoryUsage) -> MemoryUsage {
        MemoryUsage {
            inverted_index: if self.inverted_indexer is Some {
                usage.inverted_index
            } else {
                0
            },
            fulltext_index: if self.fulltext_indexer is Some {
                usage.fulltext_index
            } else {
                0
            },
            bloom_filter: if self.bloom_filter_indexer is Some {
                usage.bloom_filter
            } else {
                0
            },
        }
    }

    /// Whether the gauge can be told of the memory in `usage`.
    pub open spec fn can_report(self, usage: MemoryUsage) -> bool {
        let held = self.held(usage);
        &&& change_fits(self.last_mem_inverted_index, held.inverted_index)
        &&& change_fits(self.last_mem_fulltext_index, held.fulltext_index)
        &&& change_fits(self.last_mem_bloom_filter, held.bloom_filter)
    }

    /// This indexer after the gauge was told of the memory in `usage`.
    pub open spec fn after_report(self, usage: MemoryUsage) -> Self {
        let held = self.held(usage);
        Indexer {
            last_mem_inverted_index: held.inverted_index,
            last_mem_fulltext_index: held.fulltext_index,
            last_mem_bloom_filter: held.bloom_filter,
            ..self
        }
    }

    /// Whether `updates` takes the gauge from the memory last told to the memory in `usage`, for
    /// the inverted index, the fulltext index and the bloom filter in turn.
    pub open spec fn reports(self, usage: MemoryUsage, updates: Seq<GaugeUpdate>) -> bool {
        let held = self.held(usage);
        &&& updates.len() == 3
        &&& updates[0].label@ == TYPE_INVERTED_INDEX@
        &&& updates[0].delta == gauge_change(self.last_mem_inverted_index, held.inverted_index)
        &&& updates[1].label@ == TYPE_FULLTEXT_INDEX@
        &&& updates[1].delta == gauge_change(self.last_mem_fulltext_index, held.fulltext_index)
        &&& updates[2].label@ == TYPE_BLOOM_FILTER_INDEX@
        &&& updates[2].delta == gauge_change(self.last_mem_bloom_filter, held.bloom_filter)
    }

    /// Updates the index with a batch: to be called once the creators have taken it in and say
    /// that they hold `usage`. Returns what the memory gauge has to add.
    pub fn update(&mut self, usage: MemoryUsage) -> (updates: [GaugeUpdate; 3])
        requires
            old(self).can_report(usage),
        ensures
            *final(self) == old(self).after_report(usage),
            old(self).reports(usage, updates@),
    {
        self.flush_mem_metrics(usage)
    }

    /// Finalizes the index creation: to be called once the creators have written `output` and say
    /// that they still hold `usage`. Returns the output and what the memory gauge has to add.
    pub fn finish(&mut self, output: IndexOutput, usage: MemoryUsage) -> (finished: (
        IndexOutput,
        [GaugeUpdate; 3],
    ))
        requires
            old(self).can_report(usage),
        ensures
            *final(self) == old(self).after_report(usage),
            finished.0 == output,
            old(self).reports(usage, finished.1@),
    {
        let updates = self.flush_mem_metrics(usage);
        (output, updates)
    }

    /// Aborts the index creation: to be called once the creators have given up and say that they
    /// still hold `usage`. Returns what the memory gauge has to add.
    pub fn abort(&mut self, usage: MemoryUsage) -> (updates: [GaugeUpdate; 3])
        requires
            old(self).can_report(usage),
        ensures
            *final(self) == old(self).after_report(usage),
            old(self).reports(usage, updates@),
    {
        self.flush_mem_metrics(usage)
    }

    /// Whether the gauge can be told of the memory in `usage`.
    pub fn can_flush_mem_metrics(&self, usage: MemoryUsage) -> (fits: bool)
        ensures
            fits == self.can_report(usage),
    {
        let held = self.held_memory(usage);
        gauge_takes(self.last_mem_inverted_index, held.inverted_index)
            && gauge_takes(self.last_mem_fulltext_index, held.fulltext_index)
            && gauge_takes(self.last_mem_bloom_filter, held.bloom_filter)
    }

    fn held_memory(&self, usage: MemoryUsage) -> (held: MemoryUsage)
        ensures
            held == self.held(usage),
    {
        MemoryUsage {
            inverted_index: if self.inverted_indexer.is_some() {
                usage.inverted_index
            } else {
                0
            },
            fulltext_index: if self.fulltext_indexer.is_some() {
                usage.fulltext_index
            } else {
                0
            },
            bloom_filter: if self.bloom_filter_indexer.is_some() {
                usage.bloom_filter
            } else {
                0
            },
        }
    }

    /// Brings the memory gauge up to date with what the creators say they hold.
    pub fn flush_mem_metrics(&mut self, usage: MemoryUsage) -> (updates: [GaugeUpdate; 3])
        requires
            old(self).can_report(usage),
        ensures
            *final(self) == old(self).after_report(usage),
            old(self).reports(usage, updates@),
    {
        let held = self.held_memory(usage);

        let inverted_delta = gauge_delta(self.last_mem_inverted_index, held.inverted_index);
        self.last_mem_inverted_index = held.inverted_index;

        let fulltext_delta = gauge_delta(self.last_mem_fulltext_index, held.fulltext_index);
        self.last_mem_fulltext_index = held.fulltext_index;

        let bloom_filter_delta = gauge_delta(self.last_mem_bloom_filter, held.bloom_filter);
        self.last_mem_bloom_filter = held.bloom_filter;

        [
            GaugeUpdate { label: TYPE_INVERTED_INDEX, delta: inverted_delta },
            GaugeUpdate { label: TYPE_FULLTEXT_INDEX, delta: fulltext_delta },
            GaugeUpdate { label: TYPE_BLOOM_FILTER_INDEX, delta: bloom_filter_delta },
        ]
    }
}

impl<B: Backend> Default for Indexer<B> {
    fn default() -> (indexer: Self)
        ensures
            indexer == Self::idle(0, 0),
    {
        Indexer {
            file_id: 0,
            region_id: 0,
            puffin_manager: None,
            inverted_indexer: None,
            last_mem_inverted_index: 0,
            fulltext_indexer: None,
            last_mem_fulltext_index: 0,
            bloom_filter_indexer: None,
            last_mem_bloom_filter: 0,
        }
    }
}

/// One time that the gauge was told of an indexer's memory.
pub struct Report<B: Backend> {
    /// The indexer before.
    pub indexer: Indexer<B>,
    /// What its creators said they hold.
    pub usage: MemoryUsage,
}

/// Whether each report starts from the memory that the one before it told of. What the creators
/// did in between, and which of them are left, is open.
pub open spec fn consecutive<B: Backend>(reports: Seq<Report<B>>) -> bool {
    forall|i: int|
        0 <= i < reports.len() - 1 ==> reports[i + 1].indexer.reported() == (
        #[trigger] reports[i]).indexer.held(reports[i].usage)
}

/// What the gauge added over some reports: for the inverted index, the fulltext index and the
/// bloom filter.
pub open spec fn added<B: Backend>(reports: Seq<Report<B>>) -> (int, int, int)
    decreases reports.len(),
{
    if reports.len() == 0 {
        (0, 0, 0)
    } else {
        let before = added(reports.drop_last());
        let last = reports.last().indexer.reported();
        let held = reports.last().indexer.held(reports.last().usage);
        (
            before.0 + gauge_change(last.inverted_index, held.inverted_index),
            before.1 + gauge_change(last.fulltext_index, held.fulltext_index),
            before.2 + gauge_change(last.bloom_filter, held.bloom_filter),
        )
    }
}

/// Over any number of reports, the gauge adds the difference between the memory that the last of
/// them told of and the memory that was known before the first.
pub proof fn law_gauge_follows_memory<B: Backend>(reports: Seq<Report<B>>)
    requires
        reports.len() > 0,
        consecutive(reports),
    ensures
        ({
            let first = reports[0].indexer.reported();
            let held = reports.last().indexer.held(reports.last().usage);
            added(reports) == (
                gauge_change(first.inverted_index, held.inverted_index),
                gauge_change(first.fulltext_index, held.fulltext_index),
                gauge_change(first.bloom_filter, held.bloom_filter),
            )
        }),
    decreases reports.len(),
{
    let before = reports.drop_last();
    if before.len() > 0 {
        assert(consecutive(before)) by {
            assert forall|i: int| 0 <= i < before.len() - 1 implies before[i
                + 1].indexer.reported() == (#[trigger] before[i]).indexer.held(
                before[i].usage,
            ) by {
                assert(before[i] == reports[i]);
            }
        }
        law_gauge_follows_memory(before);
        assert(before.last() == reports[reports.len() - 2]);
    } else {
        reveal_with_fuel(added, 2);
    }
}

/// Once a new indexer's creators are gone and the gauge was told so, all that it added for them
/// adds up to nothing.
pub proof fn law_gauge_returns_to_zero<B: Backend>(reports: Seq<Report<B>>)
    requires
        reports.len() > 0,
        consecutive(reports),
        reports[0].indexer.reported() == Indexer::<B>::idle(0, 0).reported(),
        reports.last().indexer.has_no_creator(),
    ensures
        added(reports) == (0int, 0int, 0int),
{
    law_gauge_follows_memory(reports);
}

/// Telling the gauge of the same memory twice adds nothing the second time and changes nothing.
pub proof fn law_repeated_report_adds_nothing<B: Backend>(indexer: Indexer<B>, usage: MemoryUsage)
    ensures
        ({
            let after = indexer.after_report(usage);
            &&& after.reported() == indexer.held(usage)
            &&& after.can_report(usage)
            &&& after.after_report(usage) == after
            &&& gauge_change(after.last_mem_inverted_index, after.held(usage).inverted_index) == 0
            &&& gauge_change(after.last_mem_fulltext_index, after.held(usage).fulltext_index) == 0
            &&& gauge_change(after.last_mem_bloom_filter, after.held(usage).bloom_filter) == 0
        }),
{
}

/// The gauge counts bytes as a 64-bit number with a sign that differs from them by a multiple of
/// two to the 64th: any size that such a number can hold, it counts as it is.
pub proof fn law_gauge_counts_bytes_in_64_bits(bytes: usize)
    ensures
        i64::MIN <= gauge_bytes(bytes) <= i64::MAX,
        (bytes - gauge_bytes(bytes)) % 0x1_0000_0000_0000_0000 == 0,
        bytes <= i64::MAX ==> gauge_bytes(bytes) == bytes,
{
}

/// Added to the count of the memory before, the change gives the count of the memory now. It fits
/// exactly where it is a 64-bit number with a sign, and always where both sizes are.
pub proof fn law_change_leads_from_last_to_now(last: usize, now: usize)
    ensures
        gauge_bytes(last) + gauge_change(last, now) == gauge_bytes(now),
        change_fits(last, now) <==> -0x8000_0000_0000_0000 <= gauge_bytes(now) - gauge_bytes(last)
            <= 0x7fff_ffff_ffff_ffff,
        last <= i64::MAX && now <= i64::MAX ==> change_fits(last, now) && gauge_change(last, now)
            == now - last,
{
}

/// An indexer for a file that has no creators yet knows its file and region, has nowhere to put an
/// index file and has told the gauge of nothing.
pub proof fn law_idle_indexer_has_nothing<B: Backend>(file_id: FileId, region_id: RegionId)
    ensures
        ({
            let indexer = Indexer::<B>::idle(file_id, region_id);
            &&& indexer.file_id == file_id
            &&& indexer.region_id == region_id
            &&& indexer.puffin_manager is None
            &&& indexer.inverted_indexer is None
            &&& indexer.last_mem_inverted_index == 0
            &&& indexer.fulltext_indexer is None
            &&& indexer.last_mem_fulltext_index == 0
            &&& indexer.bloom_filter_indexer is None
            &&& indexer.last_mem_bloom_filter == 0
            &&& indexer.has_no_creator()
        }),
{
}

/// An indexer is without creators exactly where none of the three is there.
pub proof fn law_any_creator_counts<B: Backend>(indexer: Indexer<B>)
    ensures
        indexer.inverted_indexer is Some ==> !indexer.has_no_creator(),
        indexer.fulltext_indexer is Some ==> !indexer.has_no_creator(),
        indexer.bloom_filter_indexer is Some ==> !indexer.has_no_creator(),
        indexer.inverted_indexer is None && indexer.fulltext_indexer is None
            && indexer.bloom_filter_indexer is None ==> indexer.has_no_creator(),
{
}

/// A creator that is there holds what it says it holds, one that is not there holds nothing, and
/// the memory last told of is what was noted for each kind.
pub proof fn law_each_creator_answers_for_its_kind<B: Backend>(
    indexer: Indexer<B>,
    usage: MemoryUsage,
)
    ensures
        indexer.inverted_indexer is Some ==> indexer.held(usage).inverted_index
            == usage.inverted_index,
        indexer.inverted_indexer is None ==> indexer.held(usage).inverted_index == 0,
        indexer.fulltext_indexer is Some ==> indexer.held(usage).fulltext_index
            == usage.fulltext_index,
        indexer.fulltext_indexer is None ==> indexer.held(usage).fulltext_index == 0,
        indexer.bloom_filter_indexer is Some ==> indexer.held(usage).bloom_filter
            == usage.bloom_filter,
        indexer.bloom_filter_indexer is None ==> indexer.held(usage).bloom_filter == 0,
        indexer.reported().inverted_index == indexer.last_mem_inverted_index,
        indexer.reported().fulltext_index == indexer.last_mem_fulltext_index,
        indexer.reported().bloom_filter == indexer.last_mem_bloom_filter,
{
}

/// A report has one update for each kind under that kind's own label. What was last told of the
/// kind, and the update, add up to what its creator holds now, or to nothing without a creator.
pub proof fn law_report_brings_each_kind_up_to_date<B: Backend>(
    indexer: Indexer<B>,
    usage: MemoryUsage,
    updates: Seq<GaugeUpdate>,
)
    requires
        indexer.reports(usage, updates),
    ensures
        updates.len() == 3,
        updates[0].label@ == "inverted_index"@,
        updates[1].label@ == "fulltext_index"@,
        updates[2].label@ == "bloom_filter_index"@,
        indexer.inverted_indexer is Some ==> gauge_bytes(indexer.last_mem_inverted_index)
            + updates[0].delta == gauge_bytes(usage.inverted_index),
        indexer.inverted_indexer is None ==> gauge_bytes(indexer.last_mem_inverted_index)
            + updates[0].delta == 0,
        indexer.fulltext_indexer is Some ==> gauge_bytes(indexer.last_mem_fulltext_index)
            + updates[1].delta == gauge_bytes(usage.fulltext_index),
        indexer.fulltext_indexer is None ==> gauge_bytes(indexer.last_mem_fulltext_index)
            + updates[1].delta == 0,
        indexer.bloom_filter_indexer is Some ==> gauge_bytes(indexer.last_mem_bloom_filter)
            + updates[2].delta == gauge_bytes(usage.bloom_filter),
        indexer.bloom_filter_indexer is None ==> gauge_bytes(indexer.last_mem_bloom_filter)
            + updates[2].delta == 0,
{
}

/// A report notes for each kind what its creator holds, or nothing without a creator, and leaves
/// the creators and everything else of the indexer as they are.
pub proof fn law_report_only_notes_the_memory<B: Backend>(indexer: Indexer<B>, usage: MemoryUsage)
    ensures
        ({
            let after = indexer.after_report(usage);
            &&& indexer.inverted_indexer is Some ==> after.last_mem_inverted_index
                == usage.inverted_index
            &&& indexer.inverted_indexer is None ==> after.last_mem_inverted_index == 0
            &&& indexer.fulltext_indexer is Some ==> after.last_mem_fulltext_index
                == usage.fulltext_index
            &&& indexer.fulltext_indexer is None ==> after.last_mem_fulltext_index == 0
            &&& indexer.bloom_filter_indexer is Some ==> after.last_mem_bloom_filter
                == usage.bloom_filter
            &&& indexer.bloom_filter_indexer is None ==> after.last_mem_bloom_filter == 0
            &&& after.file_id == indexer.file_id
            &&& after.region_id == indexer.region_id
            &&& after.puffin_manager == indexer.puffin_manager
            &&& after.inverted_indexer == indexer.inverted_indexer
            &&& after.fulltext_indexer == indexer.fulltext_indexer
            &&& after.bloom_filter_indexer == indexer.bloom_filter_indexer
        }),
{
}

/// A report is possible exactly where no kind's change is out of the gauge's range. In particular
/// it is always possible where all sizes are in that range.
pub proof fn law_report_is_possible_within_the_range<B: Backend>(
    indexer: Indexer<B>,
    usage: MemoryUsage,
)
    ensures
        ({
            let inverted: usize = if indexer.inverted_indexer is Some {
                usage.inverted_index
            } else {
                0
            };
            let fulltext: usize = if indexer.fulltext_indexer is Some {
                usage.fulltext_index
            } else {
                0
            };
            let bloom_filter: usize = if indexer.bloom_filter_indexer is Some {
                usage.bloom_filter
            } else {
                0
            };
            indexer.can_report(usage) <==> {
                &&& change_fits(indexer.last_mem_inverted_index, inverted)
                &&& change_fits(indexer.last_mem_fulltext_index, fulltext)
                &&& change_fits(indexer.last_mem_bloom_filter, bloom_filter)
            }
        }),
        indexer.last_mem_inverted_index <= i64::MAX && indexer.last_mem_fulltext_index <= i64::MAX
            && indexer.last_mem_bloom_filter <= i64::MAX && usage.inverted_index <= i64::MAX
            && usage.fulltext_index <= i64::MAX && usage.bloom_filter <= i64::MAX
            ==> indexer.can_report(usage),
{
}

/// Whichever way an indexer is used, with a batch, to finish or to abort, it stays the indexer of
/// the same file with the same creators, and knows what each of them holds now.
pub proof fn law_indexer_keeps_its_creators<B: Backend>(
    call: &mut Indexer<B>,
    output: IndexOutput,
    usage: MemoryUsage,
    updates: [GaugeUpdate; 3],
)
    requires
        ({
            ||| call_ensures(Indexer::<B>::update, (call, usage), updates)
            ||| call_ensures(Indexer::<B>::finish, (call, output, usage), (output, updates))
            ||| call_ensures(Indexer::<B>::abort, (call, usage), updates)
            ||| call_ensures(Indexer::<B>::flush_mem_metrics, (call, usage), updates)
        }),
    ensures
        final(call).file_id == old(call).file_id,
        final(call).region_id == old(call).region_id,
        final(call).puffin_manager == old(call).puffin_manager,
        final(call).inverted_indexer == old(call).inverted_indexer,
        final(call).fulltext_indexer == old(call).fulltext_indexer,
        final(call).bloom_filter_indexer == old(call).bloom_filter_indexer,
        old(call).inverted_indexer is Some ==> final(call).last_mem_inverted_index
            == usage.inverted_index,
        old(call).fulltext_indexer is Some ==> final(call).last_mem_fulltext_index
            == usage.fulltext_index,
        old(call).bloom_filter_indexer is Some ==> final(call).last_mem_bloom_filter
            == usage.bloom_filter,
        old(call).inverted_indexer is None ==> final(call).last_mem_inverted_index == 0,
        old(call).fulltext_indexer is None ==> final(call).last_mem_fulltext_index == 0,
        old(call).bloom_filter_indexer is None ==> final(call).last_mem_bloom_filter == 0,
        gauge_bytes(final(call).last_mem_inverted_index) == gauge_bytes(
            old(call).last_mem_inverted_index,
        ) + updates@[0].delta,
        gauge_bytes(final(call).last_mem_fulltext_index) == gauge_bytes(
            old(call).last_mem_fulltext_index,
        ) + updates@[1].delta,
        gauge_bytes(final(call).last_mem_bloom_filter) == gauge_bytes(
            old(call).last_mem_bloom_filter,
        ) + updates@[2].delta,
{
}

/// Finishing an indexer gives the output of its creators as it is.
pub proof fn law_finish_gives_the_output<B: Backend>(
    call: &mut Indexer<B>,
    output: IndexOutput,
    usage: MemoryUsage,
    finished: (IndexOutput, [GaugeUpdate; 3]),
)
    requires
        call_ensures(Indexer::<B>::finish, (call, output, usage), finished),
    ensures
        finished.0 == output,
{
}

/// The default indexer stands for no file and has nothing.
pub proof fn law_default_indexer_has_nothing<B: Backend>(indexer: Indexer<B>)
    requires
        call_ensures(Indexer::<B>::default, (), indexer),
    ensures
        indexer.file_id == 0,
        indexer.region_id == 0,
        indexer.puffin_manager is None,
        indexer.inverted_indexer is None,
        indexer.last_mem_inverted_index == 0,
        indexer.fulltext_indexer is None,
        indexer.last_mem_fulltext_index == 0,
        indexer.bloom_filter_indexer is None,
        indexer.last_mem_bloom_filter == 0,
{
}

} // verus!
