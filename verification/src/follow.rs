//! The follow engine's window state machine.
//!
//! Tailing over a backend that only answers bounded queries is a loop of
//! windowed queries: each iteration queries `[window_from, now - latency)`
//! and, only on success, advances `window_from` to that window's end. So
//! consecutive windows share their boundary — no instant is covered twice
//! and none is skipped — and a failed iteration stops the loop with the
//! window it could not cover still pending. The loop itself, with its
//! real clock and sleeper, lives with the caller; `simulate` is the same
//! advancement driven from given clock readings and outcomes, and its
//! contract states the window chaining law.

use vstd::prelude::*;

use crate::TimeWindow;

verus! {

/// The state a follow loop owns between iterations: where the next
/// window starts, how long to sleep between polls, and the trailing
/// buffer that keeps queries behind the backend's ingestion delay.
#[derive(Clone, Copy, Debug, PartialEq, Eq, Structural)]
pub struct FollowState {
    pub window_from: u64,
    pub poll_interval_ms: u64,
    pub latency_buffer_ms: u64,
}

impl FollowState {
    pub fn new(window_from: u64, poll_interval_ms: u64, latency_buffer_ms: u64) -> (r: Self)
        ensures
            r.window_from == window_from,
            r.poll_interval_ms == poll_interval_ms,
            r.latency_buffer_ms == latency_buffer_ms,
    {
        FollowState { window_from, poll_interval_ms, latency_buffer_ms }
    }

    /// The window the next iteration must query: from `window_from` up
    /// to `now` less the latency buffer. Nothing to query — no window —
    /// while that end has not caught up with `window_from`.
    pub fn next_window(&self, now_ms: u64) -> (w: Option<TimeWindow>)
        ensures
            w is Some <==> (now_ms >= self.latency_buffer_ms && now_ms - self.latency_buffer_ms
                >= self.window_from),
            w matches Some(win) ==> win.from_ms == self.window_from && win.to_ms == now_ms
                - self.latency_buffer_ms && win.wf(),
    {
        if now_ms >= self.latency_buffer_ms && now_ms - self.latency_buffer_ms
            >= self.window_from {
            Some(TimeWindow { from_ms: self.window_from, to_ms: now_ms - self.latency_buffer_ms })
        } else {
            None
        }
    }

    /// After a window was queried successfully its end becomes the next
    /// window's start: no gap, no overlap. Nothing else changes.
    pub fn commit(&mut self, window: TimeWindow)
        ensures
            final(self).window_from == window.to_ms,
            final(self).poll_interval_ms == old(self).poll_interval_ms,
            final(self).latency_buffer_ms == old(self).latency_buffer_ms,
    {
        self.window_from = window.to_ms;
    }
}

/// How many iterations run against these outcomes: up to and including
/// the first failure, or all of them.
pub open spec fn executed_len(successes: Seq<bool>) -> int
    decreases successes.len(),
{
    if successes.len() == 0 {
        0
    } else if !successes[0] {
        1
    } else {
        1 + executed_len(successes.drop_first())
    }
}

proof fn lemma_executed_len_all(s: Seq<bool>)
    requires
        forall|k: int| 0 <= k < s.len() ==> s[k],
    ensures
        executed_len(s) == s.len(),
    decreases s.len(),
{
    if s.len() > 0 {
        lemma_executed_len_all(s.drop_first());
    }
}

proof fn lemma_executed_len_stop(s: Seq<bool>, i: int)
    requires
        0 <= i < s.len(),
        forall|k: int| 0 <= k < i ==> s[k],
        !s[i],
    ensures
        executed_len(s) == i + 1,
    decreases i,
{
    if i > 0 {
        assert forall|k: int| 0 <= k < i - 1 implies s.drop_first()[k] by {
            assert(s.drop_first()[k] == s[k + 1]);
        }
        assert(s.drop_first()[i - 1] == s[i]);
        lemma_executed_len_stop(s.drop_first(), i - 1);
    }
}

/// Law of the follow loop, run against given clock readings and
/// iteration outcomes: iterations run in order until the first failure
/// and not past it; each window ends at its iteration's clock reading
/// less the latency buffer; the first window starts at the initial
/// `window_from` and every later one starts exactly where its
/// predecessor ended.
pub fn simulate(initial: FollowState, nows: &Vec<u64>, successes: &Vec<bool>) -> (trace: Vec<
    TimeWindow,
>)
    requires
        nows@.len() == successes@.len(),
        forall|k: int| 0 <= k < nows@.len() ==> #[trigger] nows@[k] >= initial.latency_buffer_ms,
        nows@.len() > 0 ==> nows@[0] - initial.latency_buffer_ms >= initial.window_from,
        forall|k: int| 1 <= k < nows@.len() ==> #[trigger] nows@[k] >= nows@[k - 1],
    ensures
        trace@.len() == executed_len(successes@),
        forall|k: int| 0 <= k < trace@.len() ==> (#[trigger] trace@[k]).to_ms == nows@[k]
            - initial.latency_buffer_ms,
        forall|k: int| 0 <= k < trace@.len() ==> (#[trigger] trace@[k]).from_ms == (if k == 0 {
            initial.window_from as int
        } else {
            trace@[k - 1].to_ms as int
        }),
        forall|k: int| 0 <= k < trace@.len() ==> (#[trigger] trace@[k]).wf(),
{
    let mut st = initial;
    let mut trace: Vec<TimeWindow> = Vec::new();
    let mut i: usize = 0;
    loop
        invariant_except_break
            trace@.len() == i,
        invariant
            nows@.len() == successes@.len(),
            forall|k: int| 0 <= k < nows@.len() ==> #[trigger] nows@[k]
                >= initial.latency_buffer_ms,
            nows@.len() > 0 ==> nows@[0] - initial.latency_buffer_ms >= initial.window_from,
            forall|k: int| 1 <= k < nows@.len() ==> #[trigger] nows@[k] >= nows@[k - 1],
            i <= nows@.len(),
            st.latency_buffer_ms == initial.latency_buffer_ms,
            st.window_from as int == (if i == 0 {
                initial.window_from as int
            } else {
                nows@[i - 1] - initial.latency_buffer_ms
            }),
            forall|k: int| 0 <= k < i ==> #[trigger] successes@[k],
            forall|k: int| 0 <= k < i ==> (#[trigger] trace@[k]).to_ms == nows@[k]
                - initial.latency_buffer_ms,
            forall|k: int| 0 <= k < i ==> (#[trigger] trace@[k]).from_ms == (if k == 0 {
                initial.window_from as int
            } else {
                trace@[k - 1].to_ms as int
            }),
            forall|k: int| 0 <= k < i ==> (#[trigger] trace@[k]).wf(),
        ensures
            trace@.len() == executed_len(successes@),
            forall|k: int| 0 <= k < trace@.len() ==> (#[trigger] trace@[k]).to_ms == nows@[k]
                - initial.latency_buffer_ms,
            forall|k: int| 0 <= k < trace@.len() ==> (#[trigger] trace@[k]).from_ms == (if k == 0 {
                initial.window_from as int
            } else {
                trace@[k - 1].to_ms as int
            }),
            forall|k: int| 0 <= k < trace@.len() ==> (#[trigger] trace@[k]).wf(),
        decreases nows@.len() - i,
    {
        if i >= nows.len() {
            proof {
                lemma_executed_len_all(successes@);
            }
            break;
        }
        let window = st.next_window(nows[i]).unwrap();
        trace.push(window);
        if !successes[i] {
            proof {
                lemma_executed_len_stop(successes@, i as int);
            }
            break;
        }
        st.commit(window);
        i = i + 1;
    }
    trace
}

} // verus!
