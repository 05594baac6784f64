//! Items of the generic work queue and the rules by which workers take them
//! and hand them back.

use vstd::prelude::*;

verus! {

/// One row of the `queue_items` table. `work_started` is a Unix time in
/// seconds.
#[derive(Debug, Clone)]
pub struct QueueItem {
    pub id: u128,
    pub queue_item_type: String,
    pub queue_item_contents: String,
    pub work_started: Option<i64>,
    pub being_worked: bool,
    pub error_count: i64,
    pub error_message: Option<String>,
}

impl QueueItem {
    /// Whether a worker may take this item: nobody holds it, or the holder
    /// started at or before `abandoned_time`. A hold without a start time is
    /// never counted as abandoned.
    pub open spec fn claimable(self, abandoned_time: i64) -> bool {
        !self.being_worked || (self.work_started matches Some(t) && t <= abandoned_time)
    }

    /// This item, held by a worker that started at `work_start_time`.
    pub open spec fn held_from(self, work_start_time: i64) -> QueueItem {
        QueueItem { being_worked: true, work_started: Some(work_start_time), ..self }
    }

    /// This item, handed back after a failed attempt: held by nobody, with one
    /// more error counted.
    pub open spec fn handed_back(self) -> QueueItem
        recommends
            self.error_count < i64::MAX,
    {
        QueueItem { being_worked: false, error_count: (self.error_count + 1) as i64, ..self }
    }

    /// Decides whether a worker may take this item, given the time at or
    /// before which a hold counts as abandoned.
    pub fn is_claimable(&self, abandoned_time: i64) -> (claimable: bool)
        ensures
            claimable == self.claimable(abandoned_time),
    {
        if !self.being_worked {
            return true;
        }
        match self.work_started {
            Some(started) => started <= abandoned_time,
            None => false,
        }
    }

    /// Takes this item in hand for a worker that starts at `work_start_time`.
    pub fn claim(self, work_start_time: i64) -> (held: QueueItem)
        ensures
            held == self.held_from(work_start_time),
            held.being_worked,
            held.work_started == Some(work_start_time),
            held.id == self.id,
            held.queue_item_type == self.queue_item_type,
            held.queue_item_contents == self.queue_item_contents,
            held.error_count == self.error_count,
            held.error_message == self.error_message,
    {
        QueueItem { being_worked: true, work_started: Some(work_start_time), ..self }
    }

    /// Hands this item back after a failed attempt. The error count is a
    /// 64-bit signed integer, as in the table, so it must not be at its
    /// maximum already.
    pub fn put_back(self) -> (returned: QueueItem)
        requires
            self.error_count < i64::MAX,
        ensures
            returned == self.handed_back(),
            returned.error_count == self.error_count + 1,
            !returned.being_worked,
            returned.work_started == self.work_started,
            returned.id == self.id,
            returned.queue_item_type == self.queue_item_type,
            returned.queue_item_contents == self.queue_item_contents,
            returned.error_message == self.error_message,
    {
        let error_count = self.error_count + 1;
        QueueItem { being_worked: false, error_count, ..self }
    }
}

/// Takes one item in hand out of `rows` for a worker that starts at
/// `work_start_time`: the first item that the worker may take is held; every
/// other row is left as it was. Gives the position of the item taken, or
/// `None` when there is none to take.
pub fn lock_next_item(rows: &mut Vec<QueueItem>, work_start_time: i64, abandoned_time: i64) -> (taken:
    Option<usize>)
    ensures
        match taken {
            Some(i) => {
                &&& i < old(rows)@.len()
                &&& old(rows)@[i as int].claimable(abandoned_time)
                &&& forall|j: int|
                    0 <= j < i ==> !(#[trigger] old(rows)@[j]).claimable(abandoned_time)
                &&& final(rows)@ == old(rows)@.update(
                    i as int,
                    old(rows)@[i as int].held_from(work_start_time),
                )
            },
            None => {
                &&& forall|j: int|
                    0 <= j < old(rows)@.len() ==> !(#[trigger] old(rows)@[j]).claimable(
                        abandoned_time,
                    )
                &&& final(rows)@ == old(rows)@
            },
        },
{
    let mut i: usize = 0;
    while i < rows.len()
        invariant
            rows@ == old(rows)@,
            i <= rows@.len(),
            forall|j: int| 0 <= j < i ==> !(#[trigger] rows@[j]).claimable(abandoned_time),
        decreases rows@.len() - i,
    {
        if rows[i].is_claimable(abandoned_time) {
            let row = rows.remove(i);
            let held = row.claim(work_start_time);
            rows.insert(i, held);
            assert(rows@ =~= old(rows)@.update(
                i as int,
                old(rows)@[i as int].held_from(work_start_time),
            ));
            return Some(i);
        }
        i = i + 1;
    }
    None
}

/// An item that nobody holds is free to any worker.
pub proof fn lemma_unheld_item_is_claimable(item: QueueItem, abandoned_time: i64)
    requires
        !item.being_worked,
    ensures
        item.claimable(abandoned_time),
{
}

/// Once a worker takes an item, no other worker can take it while the hold is
/// younger than the abandonment time; once it counts as abandoned, it can be
/// taken again.
pub proof fn lemma_held_item_is_claimable_only_when_abandoned(
    item: QueueItem,
    work_start_time: i64,
    abandoned_time: i64,
)
    ensures
        item.held_from(work_start_time).claimable(abandoned_time) <==> work_start_time
            <= abandoned_time,
{
}

/// Taking an item in hand holds it from the given start time and keeps its
/// identity, type, contents, error count and error message, so the worker
/// gets the job that was queued.
pub proof fn lemma_lock_keeps_the_job(item: QueueItem, work_start_time: i64)
    ensures
        ({
            let held = item.held_from(work_start_time);
            &&& held.being_worked
            &&& held.work_started == Some(work_start_time)
            &&& held.id == item.id
            &&& held.queue_item_type == item.queue_item_type
            &&& held.queue_item_contents == item.queue_item_contents
            &&& held.error_count == item.error_count
            &&& held.error_message == item.error_message
        }),
{
}

/// A held item whose hold started at or before the abandonment time may be
/// taken over; one whose hold started after it may not.
pub proof fn lemma_held_item_is_claimable_iff_abandoned(
    item: QueueItem,
    started: i64,
    abandoned_time: i64,
)
    requires
        item.being_worked,
        item.work_started == Some(started),
    ensures
        item.claimable(abandoned_time) <==> started <= abandoned_time,
{
}

/// An item handed back is free to the next worker at once, keeps its identity
/// and contents, and carries one more error than before.
pub proof fn lemma_handed_back_item_is_claimable(item: QueueItem, abandoned_time: i64)
    requires
        item.error_count < i64::MAX,
    ensures
        item.handed_back().claimable(abandoned_time),
        item.handed_back().error_count == item.error_count + 1,
        item.handed_back().id == item.id,
        item.handed_back().queue_item_type == item.queue_item_type,
        item.handed_back().queue_item_contents == item.queue_item_contents,
        item.handed_back().error_message == item.error_message,
        item.handed_back().work_started == item.work_started,
        !item.handed_back().being_worked,
{
}

} // verus!
