use vstd::prelude::*;

use crate::conflict::{ConflictAction, ConflictResolution};
use crate::protocol::TransferProgress;

verus! {

broadcast use vstd::string::group_string_axioms;

/// The direction of a transfer.
#[derive(Debug, Clone, Copy, PartialEq, Eq, Structural)]
pub enum TransferDirection {
    Upload,
    Download,
}

/// The state of a queued transfer.
#[derive(Debug, Clone, Copy, PartialEq, Eq, Structural)]
pub enum TransferStatus {
    Queued,
    Active,
    Completed,
    Failed,
    Skipped,
    /// Held back by the user until resumed.
    Paused,
    /// Withdrawn by the user before it ran.
    Cancelled,
}

/// One file transfer in the queue.
#[derive(Debug)]
pub struct TransferItem {
    pub filename: String,
    pub local_path: String,
    pub remote_path: String,
    pub direction: TransferDirection,
    pub status: TransferStatus,
    pub bytes_transferred: u64,
    pub total_bytes: u64,
    pub error_message: String,
}

/// What the status column shows for a transfer; the percentage and the
/// byte sizes of an active one are rendered by the caller.
#[derive(Debug)]
pub enum StatusLabel {
    Queued,
    Active { bytes_transferred: u64, total_bytes: Option<u64> },
    Completed,
    Failed(Option<String>),
    Skipped,
    Paused,
    Cancelled,
}

/// A new queued transfer in direction `d`, with nothing transferred yet.
pub open spec fn fresh_item(
    item: TransferItem,
    filename: Seq<char>,
    local_path: Seq<char>,
    remote_path: Seq<char>,
    d: TransferDirection,
) -> bool {
    &&& item.filename@ == filename
    &&& item.local_path@ == local_path
    &&& item.remote_path@ == remote_path
    &&& item.direction == d
    &&& item.status == TransferStatus::Queued
    &&& item.bytes_transferred == 0
    &&& item.total_bytes == 0
    &&& item.error_message@.len() == 0
}

impl TransferItem {
    fn new_item(filename: &str, local_path: &str, remote_path: &str, direction: TransferDirection) -> (t: Self)
        ensures
            fresh_item(t, filename@, local_path@, remote_path@, direction),
    {
        TransferItem {
            filename: filename.to_owned(),
            local_path: local_path.to_owned(),
            remote_path: remote_path.to_owned(),
            direction,
            status: TransferStatus::Queued,
            bytes_transferred: 0,
            total_bytes: 0,
            error_message: String::new(),
        }
    }

    /// A queued upload of `local_path` to `remote_path`.
    pub fn new_upload(filename: &str, local_path: &str, remote_path: &str) -> (t: Self)
        ensures
            fresh_item(t, filename@, local_path@, remote_path@, TransferDirection::Upload),
    {
        Self::new_item(filename, local_path, remote_path, TransferDirection::Upload)
    }

    /// A queued download of `remote_path` to `local_path`.
    pub fn new_download(filename: &str, local_path: &str, remote_path: &str) -> (t: Self)
        ensures
            fresh_item(t, filename@, local_path@, remote_path@, TransferDirection::Download),
    {
        Self::new_item(filename, local_path, remote_path, TransferDirection::Download)
    }

    /// The icon of the transfer's direction.
    pub fn direction_icon(&self) -> (s: &'static str)
        ensures
            s@ == (if self.direction == TransferDirection::Upload {
                "go-up-symbolic"@
            } else {
                "go-down-symbolic"@
            }),
    {
        match self.direction {
            TransferDirection::Upload => "go-up-symbolic",
            TransferDirection::Download => "go-down-symbolic",
        }
    }

    /// What the status column shows: for an active transfer its byte counts
    /// (the total only when known), for a failed one its error message when
    /// there is one.
    pub fn status_label(&self) -> (l: StatusLabel)
        ensures
            match (self.status, l) {
                (TransferStatus::Queued, StatusLabel::Queued) => true,
                (
                    TransferStatus::Active,
                    StatusLabel::Active { bytes_transferred, total_bytes },
                ) => bytes_transferred == self.bytes_transferred && total_bytes == (if self.total_bytes
                    > 0 {
                    Some(self.total_bytes)
                } else {
                    None
                }),
                (TransferStatus::Completed, StatusLabel::Completed) => true,
                (TransferStatus::Failed, StatusLabel::Failed(m)) => match m {
                    Some(s) => s@ == self.error_message@ && s@.len() > 0,
                    None => self.error_message@.len() == 0,
                },
                (TransferStatus::Skipped, StatusLabel::Skipped) => true,
                (TransferStatus::Paused, StatusLabel::Paused) => true,
                (TransferStatus::Cancelled, StatusLabel::Cancelled) => true,
                _ => false,
            },
    {
        match self.status {
            TransferStatus::Queued => StatusLabel::Queued,
            TransferStatus::Active => StatusLabel::Active {
                bytes_transferred: self.bytes_transferred,
                total_bytes: if self.total_bytes > 0 {
                    Some(self.total_bytes)
                } else {
                    None
                },
            },
            TransferStatus::Completed => StatusLabel::Completed,
            TransferStatus::Failed => {
                if self.error_message.as_str().is_empty() {
                    StatusLabel::Failed(None)
                } else {
                    StatusLabel::Failed(Some(self.error_message.clone()))
                }
            },
            TransferStatus::Skipped => StatusLabel::Skipped,
            TransferStatus::Paused => StatusLabel::Paused,
            TransferStatus::Cancelled => StatusLabel::Cancelled,
        }
    }
}

/// Whether a transfer is over: completed, failed, skipped or cancelled.
pub open spec fn is_finished(s: TransferStatus) -> bool {
    s == TransferStatus::Completed || s == TransferStatus::Failed || s == TransferStatus::Skipped
        || s == TransferStatus::Cancelled
}

/// The transfers of `s` that are not over, in order.
pub open spec fn unfinished(s: Seq<TransferItem>) -> Seq<TransferItem>
    decreases s.len(),
{
    if s.len() == 0 {
        s
    } else if is_finished(s.last().status) {
        unfinished(s.drop_last())
    } else {
        unfinished(s.drop_last()).push(s.last())
    }
}

/// Whether `i` is the position of the first queued transfer in `s`.
pub open spec fn is_first_queued(s: Seq<TransferItem>, i: int) -> bool {
    &&& 0 <= i < s.len()
    &&& s[i].status == TransferStatus::Queued
    &&& forall|j: int| 0 <= j < i ==> s[j].status != TransferStatus::Queued
}

/// Whether `s` holds a queued transfer.
pub open spec fn has_queued(s: Seq<TransferItem>) -> bool {
    exists|i: int| 0 <= i < s.len() && s[i].status == TransferStatus::Queued
}

/// `t` with status `st`, all else kept.
pub open spec fn with_status(t: TransferItem, st: TransferStatus) -> TransferItem {
    TransferItem { status: st, ..t }
}

/// The number of completed transfers in direction `d`.
pub open spec fn completed_count(s: Seq<TransferItem>, d: TransferDirection) -> nat
    decreases s.len(),
{
    if s.len() == 0 {
        0
    } else {
        completed_count(s.drop_last(), d) + if s.last().status == TransferStatus::Completed
            && s.last().direction == d {
            1nat
        } else {
            0nat
        }
    }
}

/// The number of failed transfers.
pub open spec fn failed_count(s: Seq<TransferItem>) -> nat
    decreases s.len(),
{
    if s.len() == 0 {
        0
    } else {
        failed_count(s.drop_last()) + if s.last().status == TransferStatus::Failed {
            1nat
        } else {
            0nat
        }
    }
}

/// The last completed transfer.
pub open spec fn last_completed(s: Seq<TransferItem>) -> Option<TransferItem>
    decreases s.len(),
{
    if s.len() == 0 {
        None
    } else if s.last().status == TransferStatus::Completed {
        Some(s.last())
    } else {
        last_completed(s.drop_last())
    }
}

/// The notification sent when the queue has run dry.
#[derive(Debug)]
pub enum CompletionNotice {
    /// Every finished transfer failed.
    TransferFailed,
    /// The one transfer, an upload of this file, succeeded.
    Uploaded(String),
    /// The one transfer, a download of this file, succeeded.
    Downloaded(String),
    /// Some transfers failed: this many.
    CompletedWithErrors(usize),
    AllUploaded,
    AllDownloaded,
    AllTransferred,
}

/// Whether `n` is the notification for a queue holding `s` when it ran dry
/// (`None`: nothing completed or failed, so nothing to report).
pub open spec fn is_completion_notice(s: Seq<TransferItem>, n: Option<CompletionNotice>) -> bool {
    let up = completed_count(s, TransferDirection::Upload);
    let down = completed_count(s, TransferDirection::Download);
    let failed = failed_count(s);
    let done = up + down;
    if done == 0 && failed == 0 {
        n is None
    } else if failed > 0 && done == 0 {
        n matches Some(CompletionNotice::TransferFailed)
    } else if done == 1 && failed == 0 {
        match last_completed(s) {
            Some(t) => if t.direction == TransferDirection::Upload {
                n matches Some(CompletionNotice::Uploaded(f)) && f@ == t.filename@
            } else {
                n matches Some(CompletionNotice::Downloaded(f)) && f@ == t.filename@
            },
            None => false,
        }
    } else if failed > 0 {
        n matches Some(CompletionNotice::CompletedWithErrors(k)) && k == failed
    } else if down == 0 {
        n matches Some(CompletionNotice::AllUploaded)
    } else if up == 0 {
        n matches Some(CompletionNotice::AllDownloaded)
    } else {
        n matches Some(CompletionNotice::AllTransferred)
    }
}

/// The completion notification for the transfers `items`.
pub fn completion_notice(items: &Vec<TransferItem>) -> (n: Option<CompletionNotice>)
    ensures
        is_completion_notice(items@, n),
{
    let mut up: usize = 0;
    let mut down: usize = 0;
    let mut failed: usize = 0;
    let mut last: Option<usize> = None;
    let mut i: usize = 0;
    while i < items.len()
        invariant
            i <= items@.len(),
            up == completed_count(items@.take(i as int), TransferDirection::Upload),
            down == completed_count(items@.take(i as int), TransferDirection::Download),
            failed == failed_count(items@.take(i as int)),
            up + down + failed <= i,
            match last {
                Some(k) => k < i && last_completed(items@.take(i as int)) == Some(items@[k as int]),
                None => last_completed(items@.take(i as int)) is None,
            },
        decreases items.len() - i,
    {
        let ghost pre = items@.take(i as int);
        let ghost next = items@.take(i + 1);
        assert(next.drop_last() =~= pre);
        assert(next.last() == items@[i as int]);
        match items[i].status {
            TransferStatus::Completed => {
                last = Some(i);
                match items[i].direction {
                    TransferDirection::Upload => {
                        up += 1;
                    },
                    TransferDirection::Download => {
                        down += 1;
                    },
                }
            },
            TransferStatus::Failed => {
                failed += 1;
            },
            _ => {},
        }
        i += 1;
    }
    assert(items@.take(items@.len() as int) =~= items@);
    let done = up + down;
    if done == 0 && failed == 0 {
        None
    } else if failed > 0 && done == 0 {
        Some(CompletionNotice::TransferFailed)
    } else if done == 1 && failed == 0 {
        match last {
            Some(k) => {
                let t = &items[k];
                match t.direction {
                    TransferDirection::Upload => Some(
                        CompletionNotice::Uploaded(t.filename.clone()),
                    ),
                    TransferDirection::Download => Some(
                        CompletionNotice::Downloaded(t.filename.clone()),
                    ),
                }
            },
            None => {
                proof {
                    lemma_no_completed(items@);
                }
                None
            },
        }
    } else if failed > 0 {
        Some(CompletionNotice::CompletedWithErrors(failed))
    } else if down == 0 {
        Some(CompletionNotice::AllUploaded)
    } else if up == 0 {
        Some(CompletionNotice::AllDownloaded)
    } else {
        Some(CompletionNotice::AllTransferred)
    }
}

/// Without a completed transfer nothing is counted as completed.
proof fn lemma_no_completed(s: Seq<TransferItem>)
    requires
        last_completed(s) is None,
    ensures
        completed_count(s, TransferDirection::Upload) == 0,
        completed_count(s, TransferDirection::Download) == 0,
    decreases s.len(),
{
    if s.len() > 0 {
        lemma_no_completed(s.drop_last());
    }
}

/// What the queue does next.
#[derive(Debug)]
pub enum QueueStep {
    /// Run the transfer at this position, now marked active.
    Start(usize),
    /// Nothing is left to run; send this notification, if any.
    Finished(Option<CompletionNotice>),
}

/// A summary of the queue for the progress indicator.
#[derive(Debug, Clone, Copy, PartialEq, Eq, Structural)]
pub struct QueueOverview {
    /// Transfers in the queue.
    pub total: usize,
    /// Completed, skipped or cancelled transfers.
    pub done: usize,
    /// Whether a transfer is active or still queued.
    pub pending: bool,
}

/// The number of completed, skipped or cancelled transfers.
pub open spec fn done_count(s: Seq<TransferItem>) -> nat
    decreases s.len(),
{
    if s.len() == 0 {
        0
    } else {
        done_count(s.drop_last()) + if s.last().status == TransferStatus::Completed
            || s.last().status == TransferStatus::Skipped || s.last().status
            == TransferStatus::Cancelled {
            1nat
        } else {
            0nat
        }
    }
}

/// Whether a transfer of `s` is active or queued.
pub open spec fn has_pending(s: Seq<TransferItem>) -> bool {
    exists|i: int|
        0 <= i < s.len() && (s[i].status == TransferStatus::Active || s[i].status
            == TransferStatus::Queued)
}

/// Whether `step` and the queue `post` are what moving on from `pre` gives:
/// either the first queued transfer is marked active and to be run, or none
/// is queued and the queue stops, forgets its conflict action, reports and
/// keeps only the transfers that are not over.
pub open spec fn queue_step(pre: TransferQueue, post: TransferQueue, step: QueueStep) -> bool {
    match step {
        QueueStep::Start(i) => {
            &&& is_first_queued(pre.spec_items(), i as int)
            &&& post.spec_items() == pre.spec_items().update(
                i as int,
                with_status(pre.spec_items()[i as int], TransferStatus::Active),
            )
            &&& post.spec_processing()
            &&& post.spec_policy() == pre.spec_policy()
        },
        QueueStep::Finished(n) => {
            &&& !has_queued(pre.spec_items())
            &&& is_completion_notice(pre.spec_items(), n)
            &&& post.spec_items() == unfinished(pre.spec_items())
            &&& !post.spec_processing()
            &&& post.spec_policy() is None
        },
    }
}

/// No transfer kept by clearing is over.
pub proof fn law_cleared_unfinished(s: Seq<TransferItem>)
    ensures
        forall|i: int| 0 <= i < unfinished(s).len() ==> !is_finished(#[trigger] unfinished(s)[i].status),
    decreases s.len(),
{
    if s.len() > 0 {
        law_cleared_unfinished(s.drop_last());
        let rest = unfinished(s.drop_last());
        if !is_finished(s.last().status) {
            assert forall|i: int| 0 <= i < rest.push(s.last()).len() implies !is_finished(
                #[trigger] rest.push(s.last())[i].status,
            ) by {
                if i < rest.len() {
                    assert(rest.push(s.last())[i] == rest[i]);
                }
            }
        }
    }
}

/// Clearing twice clears no more than clearing once.
pub proof fn law_clear_idempotent(s: Seq<TransferItem>)
    ensures
        unfinished(unfinished(s)) == unfinished(s),
    decreases s.len(),
{
    if s.len() > 0 {
        law_clear_idempotent(s.drop_last());
        let rest = unfinished(s.drop_last());
        if !is_finished(s.last().status) {
            assert(rest.push(s.last()).drop_last() =~= rest);
        }
    }
}

/// Clearing keeps every transfer that is not over.
pub proof fn law_clear_keeps_pending(s: Seq<TransferItem>, k: int)
    requires
        0 <= k < s.len(),
        !is_finished(s[k].status),
    ensures
        unfinished(s).contains(s[k]),
    decreases s.len(),
{
    let rest = unfinished(s.drop_last());
    if k == s.len() - 1 {
        assert(rest.push(s.last())[rest.len() as int] == s[k]);
    } else {
        assert(s.drop_last()[k] == s[k]);
        law_clear_keeps_pending(s.drop_last(), k);
        let j = choose|j: int| 0 <= j < rest.len() && rest[j] == s[k];
        if !is_finished(s.last().status) {
            assert(rest.push(s.last())[j] == s[k]);
        }
    }
}

/// Moving on starts at most one transfer at a time: when no transfer was
/// active, afterwards only the started one is.
pub proof fn law_one_active_at_a_time(pre: TransferQueue, post: TransferQueue, step: QueueStep)
    requires
        queue_step(pre, post, step),
        forall|j: int|
            0 <= j < pre.spec_items().len() ==> pre.spec_items()[j].status != TransferStatus::Active,
    ensures
        forall|j: int|
            0 <= j < post.spec_items().len() && post.spec_items()[j].status
                == TransferStatus::Active ==> (step matches QueueStep::Start(i) && j == i),
{
    match step {
        QueueStep::Start(i) => {},
        QueueStep::Finished(_) => {
            law_cleared_unfinished(pre.spec_items());
            assert forall|j: int|
                0 <= j < post.spec_items().len() implies post.spec_items()[j].status
                != TransferStatus::Active by {
                law_unfinished_from(pre.spec_items(), j);
            }
        },
    }
}

/// Resuming a transfer undoes pausing it.
pub proof fn law_resume_undoes_pause(s: Seq<TransferItem>, i: int)
    requires
        0 <= i < s.len(),
        s[i].status == TransferStatus::Queued,
    ensures
        ({
            let paused = s.update(i, with_status(s[i], TransferStatus::Paused));
            paused.update(i, with_status(paused[i], TransferStatus::Queued)) == s
        }),
{
    let paused = s.update(i, with_status(s[i], TransferStatus::Paused));
    assert(paused.update(i, with_status(paused[i], TransferStatus::Queued)) =~= s);
}

/// A held-back or cancelled transfer is never started; when the queue runs
/// dry it keeps the held-back transfers and drops the cancelled ones.
pub proof fn law_held_transfers_wait(pre: TransferQueue, post: TransferQueue, step: QueueStep)
    requires
        queue_step(pre, post, step),
    ensures
        step matches QueueStep::Start(i) ==> pre.spec_items()[i as int].status
            != TransferStatus::Paused && pre.spec_items()[i as int].status
            != TransferStatus::Cancelled,
        step is Finished ==> forall|k: int|
            0 <= k < pre.spec_items().len() && pre.spec_items()[k].status == TransferStatus::Paused
                ==> post.spec_items().contains(#[trigger] pre.spec_items()[k]),
        step is Finished ==> forall|j: int|
            0 <= j < post.spec_items().len() ==> #[trigger] post.spec_items()[j].status
                != TransferStatus::Cancelled,
{
    if step is Finished {
        assert forall|k: int|
            0 <= k < pre.spec_items().len() && pre.spec_items()[k].status == TransferStatus::Paused
            implies post.spec_items().contains(#[trigger] pre.spec_items()[k]) by {
            law_clear_keeps_pending(pre.spec_items(), k);
        }
        law_cleared_unfinished(pre.spec_items());
        assert forall|j: int| 0 <= j < post.spec_items().len() implies #[trigger] post.spec_items()[j].status
            != TransferStatus::Cancelled by {
            assert(!is_finished(unfinished(pre.spec_items())[j].status));
        }
    }
}

/// Every transfer kept by clearing comes from the queue.
pub proof fn law_unfinished_from(s: Seq<TransferItem>, j: int)
    requires
        0 <= j < unfinished(s).len(),
    ensures
        s.contains(unfinished(s)[j]),
    decreases s.len(),
{
    let rest = unfinished(s.drop_last());
    if s.len() > 0 {
        if !is_finished(s.last().status) && j == rest.len() {
            assert(s[s.len() - 1] == unfinished(s)[j]);
        } else {
            if !is_finished(s.last().status) {
                assert(unfinished(s)[j] == rest[j]);
            }
            law_unfinished_from(s.drop_last(), j);
            let k = choose|k: int| 0 <= k < s.drop_last().len() && s.drop_last()[k] == rest[j];
            assert(s[k] == rest[j]);
        }
    }
}

/// Manages a queue of file transfers that run one at a time.
#[derive(Debug)]
pub struct TransferQueue {
    items: Vec<TransferItem>,
    is_processing: bool,
    conflict_policy: Option<ConflictAction>,
}

impl TransferQueue {
    /// The transfers in the queue, in order.
    pub closed spec fn spec_items(&self) -> Seq<TransferItem> {
        self.items@
    }

    /// Whether the queue is running a transfer.
    pub closed spec fn spec_processing(&self) -> bool {
        self.is_processing
    }

    /// The conflict action remembered for the rest of the queue.
    pub closed spec fn spec_policy(&self) -> Option<ConflictAction> {
        self.conflict_policy
    }

    /// An empty, idle queue.
    pub fn new() -> (q: Self)
        ensures
            q.spec_items().len() == 0,
            !q.spec_processing(),
            q.spec_policy() is None,
    {
        TransferQueue { items: Vec::new(), is_processing: false, conflict_policy: None }
    }

    /// The transfers in the queue.
    pub fn store(&self) -> (s: &Vec<TransferItem>)
        ensures
            s@ == self.spec_items(),
    {
        &self.items
    }

    /// Whether the queue is running a transfer.
    pub fn is_processing(&self) -> (b: bool)
        ensures
            b == self.spec_processing(),
    {
        self.is_processing
    }

    /// Adds a transfer at the end of the queue.
    pub fn enqueue(&mut self, item: TransferItem)
        ensures
            final(self).spec_items() == old(self).spec_items().push(item),
            final(self).spec_processing() == old(self).spec_processing(),
            final(self).spec_policy() == old(self).spec_policy(),
    {
        self.items.push(item);
    }

    /// Whether the queue holds any transfer.
    pub fn has_items(&self) -> (b: bool)
        ensures
            b == (self.spec_items().len() > 0),
    {
        self.items.len() > 0
    }

    /// Removes the transfers that are over (completed, failed or skipped),
    /// keeping the others in order.
    pub fn clear_completed(&mut self)
        ensures
            final(self).spec_items() == unfinished(old(self).spec_items()),
            final(self).spec_processing() == old(self).spec_processing(),
            final(self).spec_policy() == old(self).spec_policy(),
    {
        let ghost all = self.items@;
        let mut rest: Vec<TransferItem> = Vec::new();
        std::mem::swap(&mut rest, &mut self.items);
        let n: usize = rest.len();
        let mut kept: Vec<TransferItem> = Vec::new();
        let mut i: usize = 0;
        assert(all.subrange(0, 0) =~= Seq::<TransferItem>::empty());
        assert(all.subrange(0, all.len() as int) == all);
        while rest.len() > 0
            invariant
                i <= all.len(),
                all.len() == n,
                rest@.len() + i == all.len(),
                rest@ == all.subrange(i as int, all.len() as int),
                kept@ == unfinished(all.subrange(0, i as int)),
            decreases rest.len(),
        {
            let t = rest.remove(0);
            assert(all.subrange(0, i + 1).drop_last() =~= all.subrange(0, i as int));
            assert(all.subrange(0, i + 1).last() == t);
            match t.status {
                TransferStatus::Completed
                | TransferStatus::Failed
                | TransferStatus::Skipped
                | TransferStatus::Cancelled => {},
                _ => {
                    kept.push(t);
                },
            }
            i += 1;
            assert(rest@ =~= all.subrange(i as int, all.len() as int));
        }
        assert(all.subrange(0, i as int) =~= all);
        self.items = kept;
    }

    /// Sets the status of the transfer at `i`.
    fn set_status(&mut self, i: usize, st: TransferStatus)
        requires
            i < old(self).items@.len(),
        ensures
            final(self).items@ == old(self).items@.update(
                i as int,
                with_status(old(self).items@[i as int], st),
            ),
            final(self).is_processing == old(self).is_processing,
            final(self).conflict_policy == old(self).conflict_policy,
    {
        self.items[i].status = st;
    }

    /// The position of the first queued transfer.
    fn first_queued(&self) -> (r: Option<usize>)
        ensures
            match r {
                Some(i) => is_first_queued(self.items@, i as int),
                None => !has_queued(self.items@),
            },
    {
        let mut i: usize = 0;
        while i < self.items.len()
            invariant
                i <= self.items@.len(),
                forall|j: int| 0 <= j < i ==> self.items@[j].status != TransferStatus::Queued,
            decreases self.items.len() - i,
        {
            if self.items[i].status == TransferStatus::Queued {
                return Some(i);
            }
            i += 1;
        }
        None
    }

    /// Moves the queue on: the first queued transfer becomes active and is
    /// to be run; when none is queued, the queue stops, forgets its conflict
    /// action, reports what it did and clears the transfers that are over.
    pub fn process_next(&mut self) -> (step: QueueStep)
        ensures
            queue_step(*old(self), *final(self), step),
    {
        match self.first_queued() {
            Some(i) => {
                self.is_processing = true;
                self.set_status(i, TransferStatus::Active);
                QueueStep::Start(i)
            },
            None => {
                self.is_processing = false;
                self.conflict_policy = None;
                let notice = completion_notice(&self.items);
                self.clear_completed();
                QueueStep::Finished(notice)
            },
        }
    }

    /// Starts the queue unless it is already running (then `None`, nothing
    /// changed); otherwise moves it on as `process_next` does.
    pub fn start_processing(&mut self) -> (step: Option<QueueStep>)
        ensures
            old(self).spec_processing() ==> step is None && *final(self) == *old(self),
            !old(self).spec_processing() ==> (step matches Some(st) && queue_step(
                *old(self),
                *final(self),
                st,
            )),
    {
        if self.is_processing {
            return None;
        }
        Some(self.process_next())
    }
    /// The conflict action remembered for the rest of the queue.
    pub fn remembered_policy(&self) -> (p: Option<ConflictAction>)
        ensures
            p == self.spec_policy(),
    {
        self.conflict_policy
    }

    /// Takes the answer of the overwrite dialog: the action to apply (skip
    /// when the dialog was dismissed), remembered for the rest of the queue
    /// when the answer says so.
    pub fn resolve_conflict(&mut self, answer: Option<ConflictResolution>) -> (a: ConflictAction)
        ensures
            a == (match answer {
                Some(r) => r.action,
                None => ConflictAction::Skip,
            }),
            final(self).spec_policy() == (match answer {
                Some(r) => if r.apply_to_queue {
                    Some(r.action)
                } else {
                    old(self).spec_policy()
                },
                None => old(self).spec_policy(),
            }),
            final(self).spec_items() == old(self).spec_items(),
            final(self).spec_processing() == old(self).spec_processing(),
    {
        match answer {
            Some(r) => {
                if r.apply_to_queue {
                    self.conflict_policy = Some(r.action);
                }
                r.action
            },
            None => ConflictAction::Skip,
        }
    }

    /// Marks the transfer at `i` as skipped.
    pub fn skip(&mut self, i: usize)
        requires
            i < old(self).spec_items().len(),
        ensures
            final(self).spec_items() == old(self).spec_items().update(
                i as int,
                with_status(old(self).spec_items()[i as int], TransferStatus::Skipped),
            ),
            final(self).spec_processing() == old(self).spec_processing(),
            final(self).spec_policy() == old(self).spec_policy(),
    {
        self.set_status(i, TransferStatus::Skipped);
    }

    /// Records the outcome of the transfer at `i`: completed, or failed with
    /// the error's message.
    pub fn finish(&mut self, i: usize, outcome: Result<(), String>)
        requires
            i < old(self).spec_items().len(),
        ensures
            final(self).spec_items().len() == old(self).spec_items().len(),
            forall|j: int|
                0 <= j < old(self).spec_items().len() && j != i ==> final(self).spec_items()[j]
                    == old(self).spec_items()[j],
            match outcome {
                Ok(()) => final(self).spec_items()[i as int] == with_status(
                    old(self).spec_items()[i as int],
                    TransferStatus::Completed,
                ),
                Err(m) => final(self).spec_items()[i as int] == (TransferItem {
                    status: TransferStatus::Failed,
                    error_message: m,
                    ..old(self).spec_items()[i as int]
                }),
            },
            final(self).spec_processing() == old(self).spec_processing(),
            final(self).spec_policy() == old(self).spec_policy(),
    {
        match outcome {
            Ok(()) => {
                self.items[i].status = TransferStatus::Completed;
            },
            Err(m) => {
                self.items[i].status = TransferStatus::Failed;
                self.items[i].error_message = m;
            },
        }
    }

    /// Records a progress report for the transfer at `i`: the bytes sent so
    /// far, and the total when the report knows it.
    pub fn record_progress(&mut self, i: usize, p: TransferProgress)
        requires
            i < old(self).spec_items().len(),
        ensures
            final(self).spec_items().len() == old(self).spec_items().len(),
            forall|j: int|
                0 <= j < old(self).spec_items().len() && j != i ==> final(self).spec_items()[j]
                    == old(self).spec_items()[j],
            final(self).spec_items()[i as int] == (TransferItem {
                bytes_transferred: p.bytes_transferred,
                total_bytes: match p.total_bytes {
                    Some(t) => t,
                    None => old(self).spec_items()[i as int].total_bytes,
                },
                ..old(self).spec_items()[i as int]
            }),
            final(self).spec_processing() == old(self).spec_processing(),
            final(self).spec_policy() == old(self).spec_policy(),
    {
        self.items[i].bytes_transferred = p.bytes_transferred;
        match p.total_bytes {
            Some(t) => {
                self.items[i].total_bytes = t;
            },
            None => {},
        }
    }

    /// Holds back the transfer at `i` when it is queued; whether it was.
    pub fn pause(&mut self, i: usize) -> (changed: bool)
        requires
            i < old(self).spec_items().len(),
        ensures
            changed == (old(self).spec_items()[i as int].status == TransferStatus::Queued),
            final(self).spec_items() == (if changed {
                old(self).spec_items().update(
                    i as int,
                    with_status(old(self).spec_items()[i as int], TransferStatus::Paused),
                )
            } else {
                old(self).spec_items()
            }),
            final(self).spec_processing() == old(self).spec_processing(),
            final(self).spec_policy() == old(self).spec_policy(),
    {
        if self.items[i].status == TransferStatus::Queued {
            self.set_status(i, TransferStatus::Paused);
            true
        } else {
            false
        }
    }

    /// Queues the transfer at `i` again when it is held back; whether it was.
    pub fn resume(&mut self, i: usize) -> (changed: bool)
        requires
            i < old(self).spec_items().len(),
        ensures
            changed == (old(self).spec_items()[i as int].status == TransferStatus::Paused),
            final(self).spec_items() == (if changed {
                old(self).spec_items().update(
                    i as int,
                    with_status(old(self).spec_items()[i as int], TransferStatus::Queued),
                )
            } else {
                old(self).spec_items()
            }),
            final(self).spec_processing() == old(self).spec_processing(),
            final(self).spec_policy() == old(self).spec_policy(),
    {
        if self.items[i].status == TransferStatus::Paused {
            self.set_status(i, TransferStatus::Queued);
            true
        } else {
            false
        }
    }

    /// Withdraws the transfer at `i` when it is queued or held back; whether
    /// it was.
    pub fn cancel(&mut self, i: usize) -> (changed: bool)
        requires
            i < old(self).spec_items().len(),
        ensures
            changed == (old(self).spec_items()[i as int].status == TransferStatus::Queued
                || old(self).spec_items()[i as int].status == TransferStatus::Paused),
            final(self).spec_items() == (if changed {
                old(self).spec_items().update(
                    i as int,
                    with_status(old(self).spec_items()[i as int], TransferStatus::Cancelled),
                )
            } else {
                old(self).spec_items()
            }),
            final(self).spec_processing() == old(self).spec_processing(),
            final(self).spec_policy() == old(self).spec_policy(),
    {
        if self.items[i].status == TransferStatus::Queued || self.items[i].status
            == TransferStatus::Paused {
            self.set_status(i, TransferStatus::Cancelled);
            true
        } else {
            false
        }
    }

    /// Stops processing without touching the transfers (when the window that
    /// runs them has gone).
    pub fn halt(&mut self)
        ensures
            !final(self).spec_processing(),
            final(self).spec_items() == old(self).spec_items(),
            final(self).spec_policy() == old(self).spec_policy(),
    {
        self.is_processing = false;
    }

    /// A summary for the progress indicator: how many transfers there are,
    /// how many completed, were skipped or were cancelled, and whether one is
    /// active or queued.
    pub fn overview(&self) -> (o: QueueOverview)
        ensures
            o.total == self.spec_items().len(),
            o.done == done_count(self.spec_items()),
            o.pending == has_pending(self.spec_items()),
    {
        let mut done: usize = 0;
        let mut pending = false;
        let mut i: usize = 0;
        while i < self.items.len()
            invariant
                i <= self.items@.len(),
                done == done_count(self.items@.take(i as int)),
                done <= i,
                pending == has_pending(self.items@.take(i as int)),
            decreases self.items.len() - i,
        {
            let ghost pre = self.items@.take(i as int);
            let ghost next = self.items@.take(i + 1);
            assert(next.drop_last() =~= pre);
            assert(next.last() == self.items@[i as int]);
            match self.items[i].status {
                TransferStatus::Completed | TransferStatus::Skipped | TransferStatus::Cancelled => {
                    done += 1;
                },
                TransferStatus::Active | TransferStatus::Queued => {
                    pending = true;
                    assert(has_pending(next)) by {
                        assert(next[i as int] == self.items@[i as int]);
                    }
                },
                _ => {},
            }
            if !pending {
                assert(!has_pending(next)) by {
                    assert forall|j: int| 0 <= j < next.len() implies !(next[j].status
                        == TransferStatus::Active || next[j].status == TransferStatus::Queued) by {
                        if j < i {
                            assert(next[j] == pre[j]);
                        }
                    }
                }
            } else {
                assert(has_pending(next)) by {
                    if has_pending(pre) {
                        let j = choose|j: int|
                            0 <= j < pre.len() && (pre[j].status == TransferStatus::Active
                                || pre[j].status == TransferStatus::Queued);
                        assert(next[j] == pre[j]);
                    }
                }
            }
            i += 1;
        }
        assert(self.items@.take(self.items@.len() as int) =~= self.items@);
        QueueOverview { total: self.items.len(), done, pending }
    }
}

} // verus!
