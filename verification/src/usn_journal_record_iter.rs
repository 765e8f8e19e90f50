use vstd::prelude::*;
use vstd::seq_lib::*;
use crate::error::UsnError;
use crate::reader::RecordFetcher;
use crate::usn_record::Record;

verus! {

/// The lazy record stream: a pending block of records and the fetcher that
/// refills it. `next` drains the pending block one record at a time; when
/// the block is empty it asks the fetcher for another through [`Self::refill`].
/// An empty fetched block yields `None` — quiet, not closed: the very next
/// call asks again — and a failed fetch surfaces its error, never conflated
/// with "no data" and never retried by the stream itself. `current` marks
/// the position inside the block a consumer started from and is reset at
/// each refill.
pub struct UsnJournalIter<F: RecordFetcher> {
    pub fetcher: F,
    pub records: Vec<Record>,
    pub current: usize,
}

impl<F: RecordFetcher> UsnJournalIter<F> {
    pub fn new(records: Vec<Record>, fetcher: F) -> (r: Self)
        ensures
            r.records@ == records@,
            r.fetcher == fetcher,
            r.current == 0,
    {
        UsnJournalIter { fetcher, records, current: 0 }
    }

    /// The Filling step on one fetched block: an empty block means the
    /// journal has nothing right now, so `None` comes out and the stream
    /// stays exactly as it was; a non-empty block hands out its front record
    /// and the rest becomes the pending queue.
    pub fn refill(&mut self, block: Vec<Record>) -> (r: Option<Result<Record, UsnError>>)
        ensures
            block@.len() == 0 ==> r is None && *final(self) == *old(self),
            block@.len() > 0 ==> r == Some(Ok::<Record, UsnError>(block@[0]))
                && final(self).records@ == block@.subrange(1, block@.len() as int)
                && final(self).current == 0 && final(self).fetcher == old(self).fetcher,
    {
        if block.len() == 0 {
            None
        } else {
            self.records = block;
            self.current = 0;
            let front = self.records.remove(0);
            Some(Ok(front))
        }
    }

    /// The next record. With records pending, the front one comes out and
    /// the rest stay, in order. With none pending, one block is fetched and
    /// handed to [`Self::refill`]: an empty block yields `None` with the
    /// queue untouched, so a later call fetches again; a failed fetch
    /// surfaces the fetcher's error, also leaving the queue untouched.
    pub fn next(&mut self) -> (r: Option<Result<Record, UsnError>>)
        ensures
            old(self).records@.len() > 0 ==> {
                &&& r == Some(Ok::<Record, UsnError>(old(self).records@[0]))
                &&& final(self).records@ == old(self).records@.subrange(
                    1,
                    old(self).records@.len() as int,
                )
                &&& final(self).current == old(self).current
                &&& final(self).fetcher == old(self).fetcher
            },
            old(self).records@.len() == 0 ==> {
                &&& (r is None ==> final(self).records@ == old(self).records@
                    && final(self).current == old(self).current)
                &&& ((r matches Some(rr) && rr is Err) ==> final(self).records@
                    == old(self).records@ && final(self).current == old(self).current)
                &&& ((r matches Some(rr) && rr is Ok) ==> final(self).current == 0)
            },
    {
        if self.records.len() > 0 {
            let r = self.records.remove(0);
            Some(Ok(r))
        } else {
            match self.fetcher.do_fetch() {
                Err(e) => Some(Err(e)),
                Ok(block) => self.refill(block),
            }
        }
    }
}

/// No sequence number goes back as a block drains and the next is fetched.
pub open spec fn non_decreasing(s: Seq<i64>) -> bool {
    forall|i: int, j: int| 0 <= i <= j < s.len() ==> s[i] <= s[j]
}

proof fn lemma_flatten_front(blocks: Seq<Seq<i64>>)
    requires
        blocks.len() > 0,
        blocks[0].len() > 0,
    ensures
        blocks.flatten().len() > 0,
        blocks.flatten()[0] == blocks[0][0],
{
    assert(blocks.flatten() == blocks.first() + blocks.drop_first().flatten());
}

/// Cursor monotonicity. The records the stream emits across `next` calls
/// are the flattening, in order, of its pending block and the blocks its
/// fetcher hands back: `next`'s contract moves exactly the front record of
/// the current block out and keeps the rest, and `refill`'s contract does
/// the same with each fetched block. When every such block is internally
/// ordered and each begins at or past the end of the one before — as a
/// reader whose cursor advances block by block to the reported resume point
/// obtains them from the journal — the emitted sequence numbers never
/// decrease. A fetcher outside that premise (one that replays the same
/// block on every call, say) can of course go backwards at a block
/// boundary.
pub proof fn lemma_cursor_monotonicity(blocks: Seq<Seq<i64>>)
    requires
        forall|k: int| 0 <= k < blocks.len() ==> non_decreasing(#[trigger] blocks[k]),
        forall|k: int| 0 <= k < blocks.len() ==> (#[trigger] blocks[k]).len() > 0,
        forall|k: int|
            0 <= k < blocks.len() - 1 ==> (#[trigger] blocks[k]).last() <= blocks[k + 1].first(),
    ensures
        non_decreasing(blocks.flatten()),
    decreases blocks.len(),
{
    if blocks.len() == 0 {
        assert(blocks.flatten() =~= Seq::<i64>::empty());
    } else {
        let head = blocks.first();
        let tail = blocks.drop_first();
        assert(forall|k: int| 0 <= k < tail.len() ==> tail[k] == blocks[k + 1]);
        lemma_cursor_monotonicity(tail);
        let flat = blocks.flatten();
        assert(flat == head + tail.flatten());
        if tail.len() > 0 {
            lemma_flatten_front(tail);
            assert(tail.flatten()[0] == blocks[1][0]);
            assert(head.last() <= blocks[1].first());
        }
        assert forall|i: int, j: int| 0 <= i <= j < flat.len() implies flat[i] <= flat[j] by {
            if j < head.len() {
                assert(non_decreasing(head));
            } else if i >= head.len() {
                assert(flat[i] == tail.flatten()[i - head.len()]);
                assert(flat[j] == tail.flatten()[j - head.len()]);
                assert(non_decreasing(tail.flatten()));
            } else {
                assert(flat[i] == head[i]);
                assert(flat[j] == tail.flatten()[j - head.len()]);
                assert(head[i] <= head.last());
                assert(tail.flatten()[0] <= tail.flatten()[j - head.len()]) by {
                    assert(non_decreasing(tail.flatten()));
                }
            }
        }
    }
}

} // verus!
