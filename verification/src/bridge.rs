//! The bridge as a whole: the worker and the connection loop side by side.
//! They share the broker connection and nothing else, so neither can hold
//! the other up.

use crate::config::ConfigView;
use crate::events::{spec_record, spec_records, LogRecordView, NotificationView};
use crate::worker::{EventView, Phase, WorkerState};
use vstd::prelude::*;

verus! {

/// Where the two stand: the worker's state, and what the loop has recorded.
pub struct BridgeView {
    pub worker: WorkerState,
    pub recorded: Seq<LogRecordView>,
}

/// What can happen to the bridge.
pub enum Occurrence {
    /// An action of the worker came to an end.
    Outcome(EventView),
    /// The connection handed the loop a notification.
    Notice(NotificationView),
}

impl BridgeView {
    /// The bridge after one occurrence. An outcome moves the worker and
    /// leaves the records alone; a notice adds its record and leaves the
    /// worker alone.
    pub open spec fn next(self, config: ConfigView, occurrence: Occurrence) -> BridgeView {
        match occurrence {
            Occurrence::Outcome(event) => BridgeView {
                worker: self.worker.next(config, event).0,
                recorded: self.recorded,
            },
            Occurrence::Notice(notification) => BridgeView {
                worker: self.worker,
                recorded: self.recorded.push(spec_record(notification)),
            },
        }
    }

    /// The bridge after all of `occurrences`, taken in order.
    pub open spec fn after(self, config: ConfigView, occurrences: Seq<Occurrence>) -> BridgeView
        decreases occurrences.len(),
    {
        if occurrences.len() == 0 {
            self
        } else {
            self.after(config, occurrences.drop_last()).next(config, occurrences.last())
        }
    }

    /// A failed worker does not stop the loop: every notification that comes
    /// after is recorded, errors among them, and the worker stays failed.
    pub proof fn lemma_loop_outlives_worker(
        self,
        config: ConfigView,
        notifications: Seq<NotificationView>,
    )
        requires
            self.worker.phase() == Phase::Failed,
        ensures
            self.after(config, notices(notifications)).worker == self.worker,
            self.after(config, notices(notifications)).recorded == self.recorded + spec_records(
                notifications,
            ),
        decreases notifications.len(),
    {
        let occurrences = notices(notifications);
        if notifications.len() == 0 {
            assert(self.recorded + spec_records(notifications) =~= self.recorded);
        } else {
            let earlier = notifications.drop_last();
            self.lemma_loop_outlives_worker(config, earlier);
            assert(occurrences.drop_last() =~= notices(earlier));
            assert(occurrences.last() == Occurrence::Notice(notifications.last()));
            assert((self.recorded + spec_records(earlier)).push(spec_record(notifications.last()))
                =~= self.recorded + spec_records(notifications));
        }
    }

    /// Whatever happens to the bridge, in whatever order, the loop records
    /// every notification: as many records are added as notices occur.
    pub proof fn lemma_every_notice_is_recorded(
        self,
        config: ConfigView,
        occurrences: Seq<Occurrence>,
    )
        ensures
            self.after(config, occurrences).recorded.len() == self.recorded.len() + count_notices(
                occurrences,
            ),
        decreases occurrences.len(),
    {
        if occurrences.len() > 0 {
            self.lemma_every_notice_is_recorded(config, occurrences.drop_last());
        }
    }
}

/// The notifications as occurrences, in order.
pub open spec fn notices(notifications: Seq<NotificationView>) -> Seq<Occurrence> {
    Seq::new(notifications.len(), |i: int| Occurrence::Notice(notifications[i]))
}

/// How many of the occurrences are notices.
pub open spec fn count_notices(occurrences: Seq<Occurrence>) -> nat
    decreases occurrences.len(),
{
    if occurrences.len() == 0 {
        0
    } else {
        count_notices(occurrences.drop_last()) + if occurrences.last() is Notice {
            1nat
        } else {
            0nat
        }
    }
}

} // verus!
