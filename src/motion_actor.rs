//! The sensor actor's decisions: classify each sample and publish on a
//! change of state, or as a heartbeat when nothing was published for a
//! while. Reading the sensor, sleeping between polls and the thread itself
//! belong to the caller.

use vstd::prelude::*;
use crate::display::elapsed_us;
use crate::events::{send_motion_event, AppEvent, EventSender};
use crate::motion::{MotionDetector, MotionDetectorView, MotionState, SensorData};

verus! {

/// Longest silence before the state is published again unchanged: 5 s.
pub const HEARTBEAT_INTERVAL_US: u64 = 5_000_000;

/// Time between two sensor polls.
pub const SENSOR_POLL_INTERVAL_MS: u32 = 50;

/// Publish when the state differs from the last one published, or when the
/// heartbeat interval has passed since the last publication.
pub open spec fn should_publish(
    last_state: Option<MotionState>,
    last_sent_time: u64,
    state: MotionState,
    now: u64,
) -> bool {
    last_state != Some(state) || elapsed_us(last_sent_time, now) >= HEARTBEAT_INTERVAL_US
}

/// The sensor actor, less its sensor.
pub struct MotionActor {
    motion_detector: MotionDetector,
    app_event_sender: EventSender,
    last_state: Option<MotionState>,
    last_sent_time: u64,
}

impl MotionActor {
    /// An actor with a default detector that has published nothing.
    pub fn new(app_event_sender: EventSender) -> (r: MotionActor)
        ensures
            r.channel() == app_event_sender.channel_id(),
            r.published() == app_event_sender.log(),
            r.detector_view() == MotionDetectorView::fresh(crate::motion::default_motion_config()),
            r.last_state() is None,
            r.last_sent_time() == 0,
    {
        MotionActor {
            motion_detector: MotionDetector::new(),
            app_event_sender,
            last_state: None,
            last_sent_time: 0,
        }
    }

    pub closed spec fn detector_view(&self) -> MotionDetectorView {
        self.motion_detector@
    }

    /// The channel the actor publishes into.
    pub closed spec fn channel(&self) -> int {
        self.app_event_sender.channel_id()
    }

    /// Every event the actor has handed to its sender, in order.
    pub closed spec fn published(&self) -> Seq<AppEvent> {
        self.app_event_sender.log()
    }

    pub closed spec fn last_state(&self) -> Option<MotionState> {
        self.last_state
    }

    pub closed spec fn last_sent_time(&self) -> u64 {
        self.last_sent_time
    }

    /// Classifies a sample read at `now` and publishes the state if it
    /// changed or the heartbeat is due. Returns `None` when nothing was
    /// due, else the outcome of the send.
    pub fn process_sample(&mut self, data: &SensorData, now: u64) -> (r: Option<Result<(), AppEvent>>)
        requires
            old(self).detector_view().wf(),
        ensures
            final(self).detector_view().wf(),
            final(self).detector_view() == old(self).detector_view().step(*data).0,
            final(self).channel() == old(self).channel(),
            ({
                let state = old(self).detector_view().step(*data).1;
                if should_publish(old(self).last_state(), old(self).last_sent_time(), state, now) {
                    &&& final(self).last_state() == Some(state)
                    &&& final(self).last_sent_time() == now
                    &&& final(self).published() == old(self).published().push(AppEvent::Motion(state))
                    &&& r matches Some(sent) && (sent matches Err(e) ==> e == AppEvent::Motion(
                        state,
                    ))
                } else {
                    &&& final(self).last_state() == old(self).last_state()
                    &&& final(self).last_sent_time() == old(self).last_sent_time()
                    &&& final(self).published() == old(self).published()
                    &&& r is None
                }
            }),
    {
        let motion_state = self.motion_detector.detect_motion(data);
        let changed = match self.last_state {
            Some(s) => s != motion_state,
            None => true,
        };
        let should_send = changed || now.saturating_sub(self.last_sent_time)
            >= HEARTBEAT_INTERVAL_US;
        if should_send {
            self.last_state = Some(motion_state);
            self.last_sent_time = now;
            Some(send_motion_event(&mut self.app_event_sender, motion_state))
        } else {
            None
        }
    }
}

/// Handle on a running sensor actor; the actor runs until the device resets.
pub struct MotionActorManager {}

} // verus!
