//! The per-frame handshake between presentation on the compositor side and
//! rendering on the graphics side, as a machine from state and event to the
//! next state and the action to perform.
use vstd::prelude::*;
use crate::layout::TIMER_SIZE;
use crate::status::{fence_signaled, VK_SUCCESS};

verus! {

/// Where the loop stands: which event it waits for.
#[derive(Debug, Clone, Copy, PartialEq, Eq, Structural)]
pub enum FramePhase {
    /// Waits for the window messages to be drained.
    Pump,
    /// Waits for the status of the render fence.
    Poll,
    /// Waits for the frame-latency waitable and the presentation event together.
    AwaitHandshake,
    /// Waits for the present and the presentation-fence signal to be issued.
    Present,
    /// Waits for the timer word of the staging buffer to be updated.
    UpdateTimer,
    /// Waits for the render fence to be reset and the current back-buffer index.
    Query,
    /// Waits for the frame's command buffer to be submitted.
    Submit,
    /// Quitting: waits for the graphics device to go idle.
    Draining,
    /// Quitting: waits for the presentation event of the last present.
    Releasing,
    /// The loop has ended.
    Stopped,
}

/// What happened since the last action.
#[derive(Debug, Clone, Copy, PartialEq, Eq, Structural)]
pub enum FrameEvent {
    /// The pending window messages were drained; `quit` tells whether a quit request was among them.
    MessagesDrained { quit: bool },
    /// The render fence was queried and returned `code`.
    FenceStatus { code: i32 },
    /// The frame-latency waitable and the presentation event are both signaled.
    HandshakeReady,
    /// The swap-chain presented and the presentation fence signal was queued and armed.
    Presented,
    /// The accumulated time in the staging buffer was advanced, and flushed if asked.
    TimerUpdated,
    /// The render fence was reset and the swap-chain reported back-buffer `index` as current.
    BackBufferIndex { index: u32 },
    /// The command buffer was submitted, signaling the render fence.
    Submitted,
    /// The graphics device is idle.
    DeviceIdle,
    /// The presentation event fired.
    PresentEventSignaled,
}

/// What to do next.
#[derive(Debug, Clone, Copy, PartialEq, Eq, Structural)]
pub enum FrameAction {
    /// Drain the pending window messages without blocking.
    PumpMessages,
    /// Query the render fence's status.
    PollFence,
    /// Take the frame time, then wait for the frame-latency waitable and the presentation event together.
    AwaitHandshake,
    /// Present, signal the presentation fence with `fence_value` and arm the event on it.
    PresentAndSignal { fence_value: u64 },
    /// Add the frame time to the timer word; when `flush_size` is set, flush `[0, flush_size)` of the mapping.
    UpdateTimer { flush_size: Option<usize> },
    /// Reset the render fence and ask for the current back-buffer index.
    ResetFenceAndQueryIndex,
    /// Submit the command buffer of `slot`, signaling the render fence.
    Submit { slot: usize },
    /// Leave the loop and wait for the graphics device to go idle.
    WaitDeviceIdle,
    /// Wait for the presentation event, so that the last present has completed.
    AwaitPresentEvent,
    /// Release everything in the reverse order of construction.
    Teardown,
    /// Stop on an event that does not fit the state, an index out of range, or an exhausted fence counter.
    Abort,
}

/// Whether `phase` waits for events of the kind of `e`.
pub open spec fn accepts(phase: FramePhase, e: FrameEvent) -> bool {
    match (phase, e) {
        (FramePhase::Pump, FrameEvent::MessagesDrained { .. }) => true,
        (FramePhase::Poll, FrameEvent::FenceStatus { .. }) => true,
        (FramePhase::AwaitHandshake, FrameEvent::HandshakeReady) => true,
        (FramePhase::Present, FrameEvent::Presented) => true,
        (FramePhase::UpdateTimer, FrameEvent::TimerUpdated) => true,
        (FramePhase::Query, FrameEvent::BackBufferIndex { .. }) => true,
        (FramePhase::Submit, FrameEvent::Submitted) => true,
        (FramePhase::Draining, FrameEvent::DeviceIdle) => true,
        (FramePhase::Releasing, FrameEvent::PresentEventSignaled) => true,
        _ => false,
    }
}

/// Bytes to flush from offset 0 of the staging mapping after a timer update:
/// the timer word when the staging memory needs flushes, nothing otherwise.
pub open spec fn flush_for(needs_flush: bool) -> Option<usize> {
    if needs_flush {
        Some(TIMER_SIZE)
    } else {
        None
    }
}

/// The range to flush after a timer update: the timer word, when flushes are needed.
pub fn flush_size(needs_flush: bool) -> (r: Option<usize>)
    ensures
        r == flush_for(needs_flush),
{
    if needs_flush {
        Some(TIMER_SIZE)
    } else {
        None
    }
}

/// The state of the frame loop.
pub struct FrameLoop {
    /// The event the loop waits for.
    pub phase: FramePhase,
    /// The value the presentation fence is signaled with next.
    pub next_fence_value: u64,
    /// Whether timer updates must be flushed from the staging mapping.
    pub needs_flush: bool,
    /// Number of per-frame command buffers, one per back-buffer.
    pub slot_count: usize,
    /// Presents issued so far.
    pub presents: Ghost<nat>,
    /// Times the frame-latency waitable and the presentation event were found signaled.
    pub handshakes: Ghost<nat>,
    /// Times the render fence was found signaled.
    pub fence_signals: Ghost<nat>,
    /// Submissions issued so far.
    pub submits: Ghost<nat>,
}

impl FrameLoop {
    /// The counters agree with the phase: the presentation fence's next value
    /// follows the presents, every present had its handshake, and every
    /// submission had a signaled render fence in its own iteration.
    pub open spec fn wf(&self) -> bool {
        &&& self.next_fence_value == self.presents@ + 1
        &&& self.handshakes@ >= self.presents@
        &&& self.phase == FramePhase::Present ==> self.handshakes@ >= self.presents@ + 1
        &&& self.fence_signals@ >= self.submits@
        &&& (self.phase == FramePhase::AwaitHandshake || self.phase == FramePhase::Present
            || self.phase == FramePhase::UpdateTimer || self.phase == FramePhase::Query
            || self.phase == FramePhase::Submit) ==> self.fence_signals@ >= self.submits@ + 1
    }

    /// A loop that starts by draining messages, with the presentation fence's first value 1.
    pub fn new(slot_count: usize, needs_flush: bool) -> (r: FrameLoop)
        ensures
            r.wf(),
            r.phase == FramePhase::Pump,
            r.next_fence_value == 1,
            r.needs_flush == needs_flush,
            r.slot_count == slot_count,
            r.presents@ == 0 && r.handshakes@ == 0 && r.fence_signals@ == 0 && r.submits@ == 0,
    {
        FrameLoop {
            phase: FramePhase::Pump,
            next_fence_value: 1,
            needs_flush,
            slot_count,
            presents: Ghost(0),
            handshakes: Ghost(0),
            fence_signals: Ghost(0),
            submits: Ghost(0),
        }
    }

    /// The action that starts the loop.
    pub fn start(&self) -> (r: FrameAction)
        ensures
            r == FrameAction::PumpMessages,
    {
        FrameAction::PumpMessages
    }

    /// Whether the loop has ended.
    pub fn is_stopped(&self) -> (r: bool)
        ensures
            r == (self.phase == FramePhase::Stopped),
    {
        self.phase == FramePhase::Stopped
    }

    fn stop(&mut self) -> (r: FrameAction)
        requires
            old(self).wf(),
        ensures
            r == FrameAction::Abort,
            final(self).wf(),
            final(self).phase == FramePhase::Stopped,
            final(self).next_fence_value == old(self).next_fence_value,
            final(self).needs_flush == old(self).needs_flush,
            final(self).slot_count == old(self).slot_count,
            final(self).presents == old(self).presents,
            final(self).handshakes == old(self).handshakes,
            final(self).fence_signals == old(self).fence_signals,
            final(self).submits == old(self).submits,
    {
        self.phase = FramePhase::Stopped;
        FrameAction::Abort
    }

    /// Advances the loop by one event and returns the action to perform next.
    pub fn step(&mut self, e: FrameEvent) -> (r: FrameAction)
        requires
            old(self).wf(),
        ensures
            final(self).wf(),
            final(self).needs_flush == old(self).needs_flush,
            final(self).slot_count == old(self).slot_count,
            !accepts(old(self).phase, e)
                ==> r == FrameAction::Abort && final(self).phase == FramePhase::Stopped,
            old(self).phase == FramePhase::Pump && e == (FrameEvent::MessagesDrained { quit: true })
                ==> r == FrameAction::WaitDeviceIdle && final(self).phase == FramePhase::Draining,
            old(self).phase == FramePhase::Pump && e == (FrameEvent::MessagesDrained { quit: false })
                ==> r == FrameAction::PollFence && final(self).phase == FramePhase::Poll,
            old(self).phase == FramePhase::Poll && e == (FrameEvent::FenceStatus { code: VK_SUCCESS })
                ==> r == FrameAction::AwaitHandshake
                && final(self).phase == FramePhase::AwaitHandshake
                && final(self).fence_signals@ == old(self).fence_signals@ + 1,
            old(self).phase == FramePhase::Poll && e is FenceStatus
                && e->code != VK_SUCCESS
                ==> r == FrameAction::PumpMessages && final(self).phase == FramePhase::Pump,
            old(self).phase == FramePhase::AwaitHandshake && e == FrameEvent::HandshakeReady
                ==> r == (FrameAction::PresentAndSignal { fence_value: old(self).next_fence_value })
                && final(self).phase == FramePhase::Present
                && final(self).handshakes@ == old(self).handshakes@ + 1,
            old(self).phase == FramePhase::Present && e == FrameEvent::Presented
                && old(self).next_fence_value < u64::MAX
                ==> r == (FrameAction::UpdateTimer { flush_size: flush_for(old(self).needs_flush) })
                && final(self).phase == FramePhase::UpdateTimer
                && final(self).next_fence_value == old(self).next_fence_value + 1
                && final(self).presents@ == old(self).presents@ + 1,
            old(self).phase == FramePhase::Present && e == FrameEvent::Presented
                && old(self).next_fence_value == u64::MAX
                ==> r == FrameAction::Abort && final(self).phase == FramePhase::Stopped,
            old(self).phase == FramePhase::UpdateTimer && e == FrameEvent::TimerUpdated
                ==> r == FrameAction::ResetFenceAndQueryIndex
                && final(self).phase == FramePhase::Query,
            old(self).phase == FramePhase::Query && e is BackBufferIndex
                && e->index < old(self).slot_count
                ==> r == (FrameAction::Submit { slot: e->index as usize })
                && final(self).phase == FramePhase::Submit,
            old(self).phase == FramePhase::Query && e is BackBufferIndex
                && e->index >= old(self).slot_count
                ==> r == FrameAction::Abort && final(self).phase == FramePhase::Stopped,
            old(self).phase == FramePhase::Submit && e == FrameEvent::Submitted
                ==> r == FrameAction::PumpMessages && final(self).phase == FramePhase::Pump
                && final(self).submits@ == old(self).submits@ + 1,
            old(self).phase == FramePhase::Draining && e == FrameEvent::DeviceIdle
                ==> r == FrameAction::AwaitPresentEvent && final(self).phase == FramePhase::Releasing,
            old(self).phase == FramePhase::Releasing && e == FrameEvent::PresentEventSignaled
                ==> r == FrameAction::Teardown && final(self).phase == FramePhase::Stopped,
            e != FrameEvent::Presented ==> final(self).presents@ == old(self).presents@,
            e != FrameEvent::HandshakeReady ==> final(self).handshakes@ == old(self).handshakes@,
            !(e is FenceStatus) ==> final(self).fence_signals@ == old(self).fence_signals@,
            e != FrameEvent::Submitted ==> final(self).submits@ == old(self).submits@,
            r is PresentAndSignal ==> e == FrameEvent::HandshakeReady,
            r is Teardown ==> old(self).phase == FramePhase::Releasing,
            final(self).next_fence_value != old(self).next_fence_value ==> e == FrameEvent::Presented,
            r is Submit ==> final(self).handshakes@ >= final(self).presents@
                && final(self).fence_signals@ >= final(self).submits@ + 1,
    {
        match (self.phase, e) {
            (FramePhase::Pump, FrameEvent::MessagesDrained { quit }) => {
                if quit {
                    self.phase = FramePhase::Draining;
                    FrameAction::WaitDeviceIdle
                } else {
                    self.phase = FramePhase::Poll;
                    FrameAction::PollFence
                }
            },
            (FramePhase::Poll, FrameEvent::FenceStatus { code }) => {
                if fence_signaled(code) {
                    self.phase = FramePhase::AwaitHandshake;
                    self.fence_signals = Ghost(self.fence_signals@ + 1);
                    FrameAction::AwaitHandshake
                } else {
                    self.phase = FramePhase::Pump;
                    FrameAction::PumpMessages
                }
            },
            (FramePhase::AwaitHandshake, FrameEvent::HandshakeReady) => {
                self.phase = FramePhase::Present;
                self.handshakes = Ghost(self.handshakes@ + 1);
                FrameAction::PresentAndSignal { fence_value: self.next_fence_value }
            },
            (FramePhase::Present, FrameEvent::Presented) => {
                if self.next_fence_value < u64::MAX {
                    self.next_fence_value = self.next_fence_value + 1;
                    self.presents = Ghost(self.presents@ + 1);
                    self.phase = FramePhase::UpdateTimer;
                    FrameAction::UpdateTimer { flush_size: flush_size(self.needs_flush) }
                } else {
                    self.stop()
                }
            },
            (FramePhase::UpdateTimer, FrameEvent::TimerUpdated) => {
                self.phase = FramePhase::Query;
                FrameAction::ResetFenceAndQueryIndex
            },
            (FramePhase::Query, FrameEvent::BackBufferIndex { index }) => {
                if (index as usize) < self.slot_count {
                    self.phase = FramePhase::Submit;
                    FrameAction::Submit { slot: index as usize }
                } else {
                    self.stop()
                }
            },
            (FramePhase::Submit, FrameEvent::Submitted) => {
                self.phase = FramePhase::Pump;
                self.submits = Ghost(self.submits@ + 1);
                FrameAction::PumpMessages
            },
            (FramePhase::Draining, FrameEvent::DeviceIdle) => {
                self.phase = FramePhase::Releasing;
                FrameAction::AwaitPresentEvent
            },
            (FramePhase::Releasing, FrameEvent::PresentEventSignaled) => {
                self.phase = FramePhase::Stopped;
                FrameAction::Teardown
            },
            _ => self.stop(),
        }
    }
}

/// A submission waits on the handshake: in any state reached by the loop
/// where a submission is about to be or has just been issued, the frame-latency
/// waitable has fired at least as often as presents were issued, and the render
/// fence was found signaled once more than there were earlier submissions.
pub proof fn lemma_submit_follows_handshake(l: FrameLoop)
    requires
        l.wf(),
        l.phase == FramePhase::Submit,
    ensures
        l.handshakes@ >= l.presents@,
        l.fence_signals@ >= l.submits@ + 1,
        l.fence_signals@ >= 1,
{
}

} // verus!
