//! Progress aggregation: one counter per file name, fed by the updates of
//! every transfer of a batch and finalized once no more can arrive.
use vstd::prelude::*;
use crate::monitor::{ProgressUpdate, UpdateModel, relayed, sum_for};
use crate::reader::{after_reads, flatten, initial_model, is_read_sequence, lemma_chunks_rebuild_file};

verus! {

/// The counter of one file.
pub struct FileProgress {
    pub file_name: String,
    /// Declared length of the file.
    pub total: u64,
    /// Bytes reported so far.
    pub transmitted: u64,
    /// No more updates will be counted.
    pub finished: bool,
}

/// Abstract counter.
pub ghost struct ProgressModel {
    pub file_name: Seq<char>,
    pub total: int,
    pub transmitted: int,
    pub finished: bool,
}

impl View for FileProgress {
    type V = ProgressModel;

    open spec fn view(&self) -> ProgressModel {
        ProgressModel {
            file_name: self.file_name@,
            total: self.total as int,
            transmitted: self.transmitted as int,
            finished: self.finished,
        }
    }
}

/// Counters with pairwise distinct file names.
pub open spec fn names_unique(bars: Seq<ProgressModel>) -> bool {
    forall|i: int, j: int|
        0 <= i < bars.len() && 0 <= j < bars.len() && i != j ==> bars[i].file_name
            != bars[j].file_name
}

/// Whether a counter for `name` exists.
pub open spec fn has_bar(bars: Seq<ProgressModel>, name: Seq<char>) -> bool {
    exists|i: int| 0 <= i < bars.len() && bars[i].file_name == name
}

/// A counter that has counted nothing yet.
pub open spec fn fresh_bar(name: Seq<char>, total: int) -> ProgressModel {
    ProgressModel { file_name: name, total, transmitted: 0, finished: false }
}

/// Counters after registering `name` with length `total`: a counter of that
/// name is started afresh, else a new one is added at the end.
pub open spec fn registered(bars: Seq<ProgressModel>, name: Seq<char>, total: int) -> Seq<
    ProgressModel,
> {
    if has_bar(bars, name) {
        bars.map_values(
            |b: ProgressModel|
                if b.file_name == name {
                    fresh_bar(name, total)
                } else {
                    b
                },
        )
    } else {
        bars.push(fresh_bar(name, total))
    }
}

/// `a + b`, capped at the largest `u64`.
pub open spec fn saturating_sum(a: int, b: int) -> int {
    if a + b > u64::MAX { u64::MAX as int } else { a + b }
}

/// Counters after one update: the counter of the update's file grows by its
/// delta; an update for a file without a counter changes nothing.
pub open spec fn applied(bars: Seq<ProgressModel>, u: UpdateModel) -> Seq<ProgressModel> {
    bars.map_values(
        |b: ProgressModel|
            if b.file_name == u.file_name {
                ProgressModel { transmitted: saturating_sum(b.transmitted, u.delta), ..b }
            } else {
                b
            },
    )
}

/// Counters after the updates `updates`, in order.
pub open spec fn applied_all(bars: Seq<ProgressModel>, updates: Seq<UpdateModel>) -> Seq<
    ProgressModel,
>
    decreases updates.len(),
{
    if updates.len() == 0 {
        bars
    } else {
        applied(applied_all(bars, updates.drop_last()), updates.last())
    }
}

/// Counters after finalization: every one is finished, counts unchanged.
pub open spec fn finalized(bars: Seq<ProgressModel>) -> Seq<ProgressModel> {
    bars.map_values(|b: ProgressModel| ProgressModel { finished: true, ..b })
}

/// Every delta is a `u64`.
pub open spec fn deltas_in_range(updates: Seq<UpdateModel>) -> bool {
    forall|k: int| 0 <= k < updates.len() ==> 0 <= #[trigger] updates[k].delta <= u64::MAX
}

proof fn lemma_sum_for_prefix(updates: Seq<UpdateModel>, name: Seq<char>)
    requires
        deltas_in_range(updates),
    ensures
        0 <= sum_for(updates, name),
        updates.len() > 0 ==> sum_for(updates.drop_last(), name) <= sum_for(updates, name),
    decreases updates.len(),
{
    if updates.len() > 0 {
        assert(deltas_in_range(updates.drop_last()));
        lemma_sum_for_prefix(updates.drop_last(), name);
        assert(0 <= updates[updates.len() - 1].delta);
    }
}

/// The counter of a file, after any updates for any files arrive in any
/// order, has grown by exactly the sum of the deltas for that file (so long as
/// that stays within `u64`); its name, length and state are unchanged, and no
/// counter is added or removed.
pub proof fn lemma_counter_sums_deltas(bars: Seq<ProgressModel>, updates: Seq<UpdateModel>, i: int)
    requires
        0 <= i < bars.len(),
        deltas_in_range(updates),
        bars[i].transmitted + sum_for(updates, bars[i].file_name) <= u64::MAX,
    ensures
        applied_all(bars, updates).len() == bars.len(),
        applied_all(bars, updates)[i] == (ProgressModel {
            transmitted: bars[i].transmitted + sum_for(updates, bars[i].file_name),
            ..bars[i]
        }),
    decreases updates.len(),
{
    if updates.len() > 0 {
        lemma_sum_for_prefix(updates, bars[i].file_name);
        assert(deltas_in_range(updates.drop_last()));
        lemma_counter_sums_deltas(bars, updates.drop_last(), i);
    }
}

/// The deltas relayed for the chunks of one file add up to the number of
/// bytes in those chunks.
pub proof fn lemma_relayed_sum(name: Seq<char>, chunks: Seq<Seq<u8>>)
    ensures
        sum_for(relayed(name, chunks), name) == flatten(chunks).len(),
    decreases chunks.len(),
{
    if chunks.len() > 0 {
        lemma_relayed_sum(name, chunks.drop_last());
        assert(relayed(name, chunks).drop_last() =~= relayed(name, chunks.drop_last()));
    }
}

proof fn lemma_chunk_within(chunks: Seq<Seq<u8>>, k: int)
    requires
        0 <= k < chunks.len(),
    ensures
        chunks[k].len() <= flatten(chunks).len(),
    decreases chunks.len(),
{
    if k < chunks.len() - 1 {
        lemma_chunk_within(chunks.drop_last(), k);
    }
}

/// Once the transfer of a file has read it to its end, the deltas relayed for
/// its chunks add up to its length; a counter registered afresh with that
/// length, fed those deltas, reaches exactly its declared length.
pub proof fn lemma_progress_reaches_length(
    file: Seq<u8>,
    reads: Seq<Seq<u8>>,
    bars: Seq<ProgressModel>,
    i: int,
)
    requires
        is_read_sequence(file, reads),
        after_reads(initial_model(), reads).finished,
        0 <= i < bars.len(),
        bars[i] == fresh_bar(bars[i].file_name, file.len() as int),
        file.len() <= u64::MAX,
    ensures
        ({
            let updates = relayed(bars[i].file_name, after_reads(initial_model(), reads).chunks);
            &&& sum_for(updates, bars[i].file_name) == file.len()
            &&& applied_all(bars, updates)[i].transmitted == applied_all(bars, updates)[i].total
            &&& applied_all(bars, updates)[i].total == file.len()
        }),
{
    let chunks = after_reads(initial_model(), reads).chunks;
    let updates = relayed(bars[i].file_name, chunks);
    lemma_chunks_rebuild_file(file, reads);
    lemma_relayed_sum(bars[i].file_name, chunks);
    assert(deltas_in_range(updates)) by {
        assert forall|k: int| 0 <= k < updates.len() implies 0 <= #[trigger] updates[k].delta
            <= u64::MAX by {
            lemma_chunk_within(chunks, k);
        }
    }
    lemma_counter_sums_deltas(bars, updates, i);
}

/// The aggregator: owns the counters of a batch, and is the only one that
/// changes them.
pub struct ProgressTracker {
    bars: Vec<FileProgress>,
}

impl View for ProgressTracker {
    type V = Seq<ProgressModel>;

    closed spec fn view(&self) -> Seq<ProgressModel> {
        self.bars@.map_values(|b: FileProgress| b@)
    }
}

impl ProgressTracker {
    /// No two counters share a file name.
    pub closed spec fn wf(&self) -> bool {
        names_unique(self@)
    }

    /// An aggregator with no counter.
    pub fn new() -> (r: Self)
        ensures
            r.wf(),
            r@ == Seq::<ProgressModel>::empty(),
    {
        ProgressTracker { bars: Vec::new() }
    }

    /// Registers a file ahead of its transfer, with its declared length.
    pub fn add_bar(&mut self, file_name: String, file_size: u64)
        requires
            old(self).wf(),
        ensures
            final(self).wf(),
            final(self)@ == registered(old(self)@, file_name@, file_size as int),
    {
        let ghost bars0 = self@;
        let ghost name = file_name@;
        match self.find_bar(&file_name) {
            Some(i) => {
                assert(has_bar(bars0, name));
                self.bars.set(
                    i,
                    FileProgress { file_name, total: file_size, transmitted: 0, finished: false },
                );
                assert(self@ =~= registered(bars0, name, file_size as int));
            },
            None => {
                self.bars.push(
                    FileProgress { file_name, total: file_size, transmitted: 0, finished: false },
                );
                assert(self@ =~= registered(bars0, name, file_size as int));
            },
        }
    }

    /// Index of the counter of file `file_name`, if registered.
    fn find_bar(&self, file_name: &String) -> (r: Option<usize>)
        requires
            self.wf(),
        ensures
            r is None <==> !has_bar(self@, file_name@),
            r matches Some(i) ==> i < self@.len() && self@[i as int].file_name == file_name@,
    {
        let mut i: usize = 0;
        while i < self.bars.len()
            invariant
                0 <= i <= self.bars.len(),
                forall|k: int| 0 <= k < i ==> self@[k].file_name != file_name@,
            decreases self.bars.len() - i,
        {
            assert(self@[i as int] == self.bars@[i as int]@);
            if self.bars[i].file_name == *file_name {
                return Some(i);
            }
            i = i + 1;
        }
        None
    }

    /// Counts one update: the counter of its file grows by its delta, capped
    /// at the largest `u64`; an update for an unregistered file is ignored.
    pub fn apply(&mut self, update: &ProgressUpdate)
        requires
            old(self).wf(),
        ensures
            final(self).wf(),
            final(self)@ == applied(old(self)@, update@),
    {
        let ghost bars0 = self@;
        let mut i: usize = 0;
        while i < self.bars.len()
            invariant
                names_unique(bars0),
                self@.len() == bars0.len(),
                0 <= i <= self.bars.len(),
                forall|k: int| 0 <= k < i ==> self@[k] == applied(bars0, update@)[k],
                forall|k: int| i <= k < self@.len() ==> self@[k] == bars0[k],
            decreases self.bars.len() - i,
        {
            assert(self.bars@[i as int]@ == bars0[i as int]);
            let ghost before = self@;
            let ghost old_bars = self.bars@;
            if self.bars[i].file_name == update.file_name {
                let t = self.bars[i].transmitted.saturating_add(update.bytes_transmitted);
                self.bars[i].transmitted = t;
            }
            assert(self@[i as int] == applied(bars0, update@)[i as int]);
            assert forall|k: int| 0 <= k <= i implies self@[k] == applied(bars0, update@)[k] by {
                if k < i {
                    assert(self.bars@[k] == old_bars[k]);
                    assert(self@[k] == before[k]);
                }
            }
            i = i + 1;
        }
        assert(self@ =~= applied(bars0, update@));
    }

    /// Finalizes every counter, whether or not it reached its length.
    pub fn finish(&mut self)
        requires
            old(self).wf(),
        ensures
            final(self).wf(),
            final(self)@ == finalized(old(self)@),
    {
        let ghost bars0 = self@;
        let mut i: usize = 0;
        while i < self.bars.len()
            invariant
                self@.len() == bars0.len(),
                0 <= i <= self.bars.len(),
                forall|k: int| 0 <= k < i ==> self@[k] == finalized(bars0)[k],
                forall|k: int| i <= k < self@.len() ==> self@[k] == bars0[k],
            decreases self.bars.len() - i,
        {
            assert(self.bars@[i as int]@ == bars0[i as int]);
            self.bars[i].finished = true;
            assert(self@[i as int] == finalized(bars0)[i as int]);
            i = i + 1;
        }
        assert(self@ =~= finalized(bars0));
    }

    /// Number of counters.
    pub fn len(&self) -> (r: usize)
        ensures
            r == self@.len(),
    {
        self.bars.len()
    }

    /// The counter at `index`, in order of registration.
    pub fn bar(&self, index: usize) -> (r: &FileProgress)
        requires
            index < self@.len(),
        ensures
            r@ == self@[index as int],
    {
        &self.bars[index]
    }

    /// The counter of file `file_name`, if registered.
    pub fn progress_of(&self, file_name: &String) -> (r: Option<&FileProgress>)
        requires
            self.wf(),
        ensures
            r is None <==> !has_bar(self@, file_name@),
            r matches Some(b) ==> b@.file_name == file_name@ && self@.contains(b@),
    {
        match self.find_bar(file_name) {
            Some(i) => {
                assert(self@[i as int] == self.bars@[i as int]@);
                Some(&self.bars[i])
            },
            None => None,
        }
    }
}

} // verus!
