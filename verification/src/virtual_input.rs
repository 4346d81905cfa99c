//! Virtual output synthesis.
//!
//! The output worker owns the synthetic device exclusively and runs a
//! fixed-period tick loop: it drains every pending command in arrival
//! order, applies each immediately, then performs one interpolation step
//! per live axis and emits a synchronization marker. This module is that
//! engine as a pure state machine: a tick maps the worker state, the
//! drained command batch and the sampled time to the exact sequence of
//! events to write. The surrounding process owns the real device handle
//! and the cross-thread command channel; it feeds batches in and writes
//! the returned events out.

use vstd::prelude::*;
use crate::time_util::{Time, TIME_MAX};
use crate::interpolator::{Interpolator, InterpView, spec_output, spec_step, VEL_MAX};

verus! {

/// Tick period of the output worker, in microseconds: 120 ticks per
/// second, rounded down to whole milliseconds.
pub const TICK_PERIOD_MICROS: i64 = 8_000;

/// Half a tick period, in microseconds. Absolute jumps time their
/// drift-reset sentinel this far before the commanded instant.
pub const HALF_TICK_MICROS: i64 = 4_000;

/// Displacement written to cancel in-flight relative drift before an
/// absolute jump: an extreme magnitude that pins the axis to its lower
/// bound, so the displacement that follows lands at a known position.
pub const JUMP_SENTINEL: i32 = i32::MIN;

/// One command for the output worker.
#[derive(Copy, Clone, Debug, PartialEq, Eq, Structural)]
pub enum InputOp {
    /// Press or release a button or key: writes that key event.
    Button { key: u16, value: i32 },
    /// Jump the X axis to an absolute position, approximated over a
    /// relative-only protocol by a sentinel reset and a relative move.
    XAbs { x: i32 },
    /// Jump the Y axis to an absolute position, likewise.
    YAbs { y: i32 },
    /// Move the X axis by a relative displacement.
    XRel { dx: i32 },
    /// Move the Y axis by a relative displacement.
    YRel { dy: i32 },
    /// Set the X axis velocity, in sub-units per microsecond; zero tears
    /// the axis integrator down.
    XVel { dxdt: i64 },
    /// Set the Y axis velocity, likewise.
    YVel { dydt: i64 },
}

/// A timestamped command, as carried from the producing side to the
/// output worker.
#[derive(Copy, Clone, Debug, PartialEq, Eq, Structural)]
pub struct WorkerMessage(pub Time, pub InputOp);

/// One event the worker writes to the synthetic device.
#[derive(Copy, Clone, Debug, PartialEq, Eq, Structural)]
pub enum OutputEvent {
    /// A relative X-axis displacement.
    RelX { time: Time, value: i32 },
    /// A relative Y-axis displacement.
    RelY { time: Time, value: i32 },
    /// A key or button state change.
    Key { time: Time, code: u16, value: i32 },
    /// A synchronization marker: the batch of events before it is
    /// complete.
    Syn { time: Time },
}

/// The mathematical state of the worker: one optional integrator per
/// axis. An axis is live exactly while its velocity is nonzero.
pub struct WorkerView {
    pub x: Option<InterpView>,
    pub y: Option<InterpView>,
}

pub open spec fn axis_wf(a: Option<InterpView>) -> bool {
    match a {
        Option::None => true,
        Option::Some(iv) => iv.wf() && iv.v != 0,
    }
}

/// An axis whose last interpolation step is no later than `t`, so a step
/// at `t` is meaningful.
pub open spec fn axis_ready(a: Option<InterpView>, t: int) -> bool {
    match a {
        Option::None => true,
        Option::Some(iv) => iv.last_t <= t,
    }
}

impl WorkerView {
    pub open spec fn wf(self) -> bool {
        axis_wf(self.x) && axis_wf(self.y)
    }

    pub open spec fn ready(self, t: int) -> bool {
        axis_ready(self.x, t) && axis_ready(self.y, t)
    }
}

/// A command the worker accepts: a timestamp within the clock range and,
/// for velocity commands, a rate within the engine's limit.
pub open spec fn msg_ok(m: WorkerMessage) -> bool {
    &&& 0 <= m.0@ <= TIME_MAX as int
    &&& match m.1 {
        InputOp::XVel { dxdt } => -VEL_MAX <= dxdt <= VEL_MAX,
        InputOp::YVel { dydt } => -VEL_MAX <= dydt <= VEL_MAX,
        _ => true,
    }
}

/// The events one command writes, applied immediately on drain. Velocity
/// commands write nothing; they only change the rate used by the tick's
/// interpolation step.
pub open spec fn msg_events(m: WorkerMessage) -> Seq<OutputEvent> {
    let t = m.0;
    match m.1 {
        InputOp::Button { key, value } => seq![
            OutputEvent::Key { time: t, code: key, value: value },
            OutputEvent::Syn { time: t },
        ],
        InputOp::XAbs { x } => seq![
            OutputEvent::RelX {
                time: Time { micros: (t.micros - HALF_TICK_MICROS) as i64 },
                value: JUMP_SENTINEL,
            },
            OutputEvent::RelX { time: t, value: x },
            OutputEvent::Syn { time: t },
        ],
        InputOp::YAbs { y } => seq![
            OutputEvent::RelY {
                time: Time { micros: (t.micros - HALF_TICK_MICROS) as i64 },
                value: JUMP_SENTINEL,
            },
            OutputEvent::RelY { time: t, value: y },
            OutputEvent::Syn { time: t },
        ],
        InputOp::XRel { dx } => seq![
            OutputEvent::RelX { time: t, value: dx },
            OutputEvent::Syn { time: t },
        ],
        InputOp::YRel { dy } => seq![
            OutputEvent::RelY { time: t, value: dy },
            OutputEvent::Syn { time: t },
        ],
        InputOp::XVel { .. } => Seq::empty(),
        InputOp::YVel { .. } => Seq::empty(),
    }
}

/// A velocity command applied to one axis: zero tears the integrator
/// down on the spot; a nonzero rate creates the integrator (anchored at
/// the command's time, with no carried remainder) if the axis was idle,
/// and otherwise only replaces the stored velocity.
pub open spec fn set_vel_axis(a: Option<InterpView>, t: int, rate: int) -> Option<InterpView> {
    if rate == 0 {
        Option::None
    } else {
        match a {
            Option::None => Option::Some(InterpView { v: rate, rem: 0, last_t: t }),
            Option::Some(iv) => Option::Some(InterpView { v: rate, ..iv }),
        }
    }
}

/// The worker state after one command.
pub open spec fn msg_state(w: WorkerView, m: WorkerMessage) -> WorkerView {
    match m.1 {
        InputOp::XVel { dxdt } => WorkerView { x: set_vel_axis(w.x, m.0@, dxdt as int), ..w },
        InputOp::YVel { dydt } => WorkerView { y: set_vel_axis(w.y, m.0@, dydt as int), ..w },
        _ => w,
    }
}

/// The worker state after a whole batch of commands, applied in arrival
/// order.
pub open spec fn batch_state(w: WorkerView, ms: Seq<WorkerMessage>) -> WorkerView
    decreases ms.len(),
{
    if ms.len() == 0 {
        w
    } else {
        batch_state(msg_state(w, ms[0]), ms.drop_first())
    }
}

/// The events a whole batch of commands writes, in arrival order.
pub open spec fn batch_events(ms: Seq<WorkerMessage>) -> Seq<OutputEvent>
    decreases ms.len(),
{
    if ms.len() == 0 {
        Seq::empty()
    } else {
        msg_events(ms[0]) + batch_events(ms.drop_first())
    }
}

/// Displacements are written as 32-bit event values; out-of-range sums
/// saturate.
pub open spec fn clamp_i32(v: int) -> int {
    if v > i32::MAX as int {
        i32::MAX as int
    } else if v < i32::MIN as int {
        i32::MIN as int
    } else {
        v
    }
}

/// The displacement event one axis writes on a tick's interpolation step
/// at `now`: a live axis writes its step output every tick, even when the
/// step output is zero, to keep the device's step cadence consistent; an
/// idle axis writes nothing.
pub open spec fn axis_events(a: Option<InterpView>, now: Time, x_axis: bool) -> Seq<OutputEvent> {
    match a {
        Option::None => Seq::empty(),
        Option::Some(iv) => {
            let value = clamp_i32(spec_output(iv, now@)) as i32;
            if x_axis {
                seq![OutputEvent::RelX { time: now, value: value }]
            } else {
                seq![OutputEvent::RelY { time: now, value: value }]
            }
        },
    }
}

/// One axis after a tick's interpolation step at `t`.
pub open spec fn step_axis(a: Option<InterpView>, t: int) -> Option<InterpView> {
    match a {
        Option::None => Option::None,
        Option::Some(iv) => Option::Some(spec_step(iv, t)),
    }
}

/// The events a tick's interpolation phase writes: the X step, the Y
/// step, and one synchronization marker covering both axes. The marker is
/// written every tick, live axes or not.
pub open spec fn interpolation_events(w: WorkerView, now: Time) -> Seq<OutputEvent> {
    axis_events(w.x, now, true) + axis_events(w.y, now, false)
        + seq![OutputEvent::Syn { time: now }]
}

/// The worker state after a tick's interpolation phase at `t`.
pub open spec fn interpolation_state(w: WorkerView, t: int) -> WorkerView {
    WorkerView { x: step_axis(w.x, t), y: step_axis(w.y, t) }
}

/// A command preserves well-formedness, and preserves readiness for any
/// instant no earlier than the command's own timestamp.
pub proof fn lemma_msg_state_wf(w: WorkerView, m: WorkerMessage, now: int)
    requires
        w.wf(),
        msg_ok(m),
        w.ready(now),
        m.0@ <= now,
    ensures
        msg_state(w, m).wf(),
        msg_state(w, m).ready(now),
{
}

/// Batches fold from the back: applying one more command is applying it
/// to the batch's result.
pub proof fn lemma_batch_snoc(w: WorkerView, ms: Seq<WorkerMessage>, m: WorkerMessage)
    ensures
        batch_state(w, ms.push(m)) == msg_state(batch_state(w, ms), m),
        batch_events(ms.push(m)) == batch_events(ms) + msg_events(m),
    decreases ms.len(),
{
    if ms.len() == 0 {
        assert(ms.push(m)[0] == m);
        assert(ms.push(m).drop_first() =~= Seq::<WorkerMessage>::empty());
        assert(batch_state(w, Seq::<WorkerMessage>::empty()) == w);
        assert(batch_state(msg_state(w, m), Seq::<WorkerMessage>::empty()) == msg_state(w, m));
        assert(batch_events(Seq::<WorkerMessage>::empty()) == Seq::<OutputEvent>::empty());
        assert(batch_events(ms.push(m)) =~= batch_events(ms) + msg_events(m));
    } else {
        assert(ms.push(m).drop_first() =~= ms.drop_first().push(m));
        assert(ms.push(m)[0] == ms[0]);
        lemma_batch_snoc(msg_state(w, ms[0]), ms.drop_first(), m);
        assert(batch_events(ms.push(m)) =~= batch_events(ms) + msg_events(m));
    }
}

/// The output worker's decision state: one integrator per axis. The
/// surrounding process holds the device handle and the receiving end of
/// the command queue; this state decides what every tick writes.
pub struct VirtualInputWorker {
    x_interp: Option<Interpolator>,
    y_interp: Option<Interpolator>,
}

impl View for VirtualInputWorker {
    type V = WorkerView;

    closed spec fn view(&self) -> WorkerView {
        WorkerView {
            x: match self.x_interp {
                Option::None => Option::None,
                Option::Some(i) => Option::Some(i@),
            },
            y: match self.y_interp {
                Option::None => Option::None,
                Option::Some(i) => Option::Some(i@),
            },
        }
    }
}

impl VirtualInputWorker {
    /// A worker with both axes idle.
    pub fn new() -> (w: Self)
        ensures
            w@ == (WorkerView { x: Option::None, y: Option::None }),
            w@.wf(),
    {
        VirtualInputWorker { x_interp: Option::None, y_interp: Option::None }
    }

    /// Append one synchronization marker.
    fn syn(&self, time: Time, out: &mut Vec<OutputEvent>)
        ensures
            final(out)@ == old(out)@.push(OutputEvent::Syn { time: time }),
    {
        out.push(OutputEvent::Syn { time });
    }

    /// Write one key event, closed by a synchronization marker.
    fn button(&self, time: Time, key: u16, value: i32, out: &mut Vec<OutputEvent>)
        ensures
            final(out)@ == old(out)@
                + seq![
                    OutputEvent::Key { time: time, code: key, value: value },
                    OutputEvent::Syn { time: time },
                ],
    {
        out.push(OutputEvent::Key { time, code: key, value });
        self.syn(time, out);
        proof {
            assert(out@ =~= old(out)@
                + seq![
                    OutputEvent::Key { time: time, code: key, value: value },
                    OutputEvent::Syn { time: time },
                ]);
        }
    }

    /// Write one relative X displacement (no marker).
    fn write_x_move(&self, time: Time, value: i32, out: &mut Vec<OutputEvent>)
        ensures
            final(out)@ == old(out)@.push(OutputEvent::RelX { time: time, value: value }),
    {
        out.push(OutputEvent::RelX { time, value });
    }

    /// Write one relative Y displacement (no marker).
    fn write_y_move(&self, time: Time, value: i32, out: &mut Vec<OutputEvent>)
        ensures
            final(out)@ == old(out)@.push(OutputEvent::RelY { time: time, value: value }),
    {
        out.push(OutputEvent::RelY { time, value });
    }

    /// Apply a velocity command to the X axis.
    fn set_x_vel(&mut self, time: Time, x: i64)
        requires
            old(self)@.wf(),
            -VEL_MAX <= x <= VEL_MAX,
            0 <= time@ <= TIME_MAX as int,
        ensures
            final(self)@ == (WorkerView {
                x: set_vel_axis(old(self)@.x, time@, x as int),
                ..old(self)@
            }),
    {
        if x == 0 {
            self.x_interp = Option::None;
        } else {
            if self.x_interp.is_none() {
                self.x_interp = Option::Some(Interpolator::new(time));
            }
            match &mut self.x_interp {
                Option::Some(interp) => interp.update(time, x),
                Option::None => {},
            }
        }
    }

    /// Apply a velocity command to the Y axis.
    fn set_y_vel(&mut self, time: Time, y: i64)
        requires
            old(self)@.wf(),
            -VEL_MAX <= y <= VEL_MAX,
            0 <= time@ <= TIME_MAX as int,
        ensures
            final(self)@ == (WorkerView {
                y: set_vel_axis(old(self)@.y, time@, y as int),
                ..old(self)@
            }),
    {
        if y == 0 {
            self.y_interp = Option::None;
        } else {
            if self.y_interp.is_none() {
                self.y_interp = Option::Some(Interpolator::new(time));
            }
            match &mut self.y_interp {
                Option::Some(interp) => interp.update(time, y),
                Option::None => {},
            }
        }
    }

    /// Apply one drained command: write its events and update the axis
    /// integrators.
    pub fn process(&mut self, msg: WorkerMessage, out: &mut Vec<OutputEvent>)
        requires
            old(self)@.wf(),
            msg_ok(msg),
        ensures
            final(self)@ == msg_state(old(self)@, msg),
            final(out)@ == old(out)@ + msg_events(msg),
            final(self)@.wf(),
    {
        let WorkerMessage(time, op) = msg;
        match op {
            InputOp::Button { key, value } => {
                self.button(time, key, value, out);
            },
            InputOp::XAbs { x } => {
                self.write_x_move(time.back_by(HALF_TICK_MICROS), JUMP_SENTINEL, out);
                self.write_x_move(time, x, out);
                self.syn(time, out);
            },
            InputOp::YAbs { y } => {
                self.write_y_move(time.back_by(HALF_TICK_MICROS), JUMP_SENTINEL, out);
                self.write_y_move(time, y, out);
                self.syn(time, out);
            },
            InputOp::XRel { dx } => {
                self.write_x_move(time, dx, out);
                self.syn(time, out);
            },
            InputOp::YRel { dy } => {
                self.write_y_move(time, dy, out);
                self.syn(time, out);
            },
            InputOp::XVel { dxdt } => {
                self.set_x_vel(time, dxdt);
            },
            InputOp::YVel { dydt } => {
                self.set_y_vel(time, dydt);
            },
        }
        proof {
            assert(out@ =~= old(out)@ + msg_events(msg));
        }
    }

    /// The tick's interpolation phase: one displacement per live axis,
    /// then a single synchronization marker covering both.
    pub fn send_velocity(&mut self, t: Time, out: &mut Vec<OutputEvent>)
        requires
            old(self)@.wf(),
            old(self)@.ready(t@),
            0 <= t@ <= TIME_MAX as int,
        ensures
            final(self)@ == interpolation_state(old(self)@, t@),
            final(out)@ == old(out)@ + interpolation_events(old(self)@, t),
            final(self)@.wf(),
            final(self)@.ready(t@),
    {
        match &mut self.x_interp {
            Option::Some(interp) => {
                let dx = interp.interpolate(t);
                let value = clamp_to_i32(dx);
                out.push(OutputEvent::RelX { time: t, value });
            },
            Option::None => {},
        }
        match &mut self.y_interp {
            Option::Some(interp) => {
                let dy = interp.interpolate(t);
                let value = clamp_to_i32(dy);
                out.push(OutputEvent::RelY { time: t, value });
            },
            Option::None => {},
        }
        self.syn(t, out);
        proof {
            assert(out@ =~= old(out)@ + interpolation_events(old(self)@, t));
        }
    }

    /// One whole tick: apply every drained command in arrival order, then
    /// run the interpolation phase at the sampled time. All commands take
    /// effect before the tick's interpolation sample, so a velocity change
    /// shows in the very next sample.
    pub fn tick(&mut self, msgs: &Vec<WorkerMessage>, now: Time, out: &mut Vec<OutputEvent>)
        requires
            old(self)@.wf(),
            old(self)@.ready(now@),
            0 <= now@ <= TIME_MAX as int,
            forall|i: int| 0 <= i < msgs@.len() ==> msg_ok(#[trigger] msgs@[i]) && msgs@[i].0@ <= now@,
        ensures
            final(self)@ == interpolation_state(batch_state(old(self)@, msgs@), now@),
            final(out)@ == old(out)@ + batch_events(msgs@)
                + interpolation_events(batch_state(old(self)@, msgs@), now),
            final(self)@.wf(),
    {
        let ghost w0 = self@;
        let ghost out0 = out@;
        let mut i: usize = 0;
        while i < msgs.len()
            invariant
                0 <= i <= msgs@.len(),
                self@ == batch_state(w0, msgs@.take(i as int)),
                out@ == out0 + batch_events(msgs@.take(i as int)),
                self@.wf(),
                self@.ready(now@),
                0 <= now@ <= TIME_MAX as int,
                forall|j: int| 0 <= j < msgs@.len()
                    ==> msg_ok(#[trigger] msgs@[j]) && msgs@[j].0@ <= now@,
            decreases msgs@.len() - i,
        {
            let msg = msgs[i];
            proof {
                lemma_msg_state_wf(self@, msg, now@);
                lemma_batch_snoc(w0, msgs@.take(i as int), msg);
                assert(msgs@.take(i as int).push(msg) =~= msgs@.take(i as int + 1));
            }
            self.process(msg, out);
            i = i + 1;
        }
        proof {
            assert(msgs@.take(msgs@.len() as int) =~= msgs@);
        }
        self.send_velocity(now, out);
        proof {
            assert(out@ =~= out0 + batch_events(msgs@)
                + interpolation_events(batch_state(w0, msgs@), now));
        }
    }
}

/// Saturate a displacement into the 32-bit range of a device event value.
fn clamp_to_i32(v: i64) -> (r: i32)
    ensures
        r as int == clamp_i32(v as int),
{
    if v > i32::MAX as i64 {
        i32::MAX
    } else if v < i32::MIN as i64 {
        i32::MIN
    } else {
        v as i32
    }
}

/// An explicit command timestamp, or the sampled clock when none was
/// given.
pub open spec fn spec_time_or_now(time: Option<Time>, now: Time) -> Time {
    match time {
        Option::Some(t) => t,
        Option::None => now,
    }
}

/// Resolve an optional explicit timestamp against the sampled clock.
pub fn time_or_now(time: Option<Time>, now: Time) -> (t: Time)
    ensures
        t == spec_time_or_now(time, now),
{
    match time {
        Option::Some(t) => t,
        Option::None => now,
    }
}

impl WorkerMessage {
    /// The command a `button` request produces.
    pub fn button(time: Option<Time>, now: Time, key: u16, value: i32) -> (m: WorkerMessage)
        ensures
            m == WorkerMessage(
                spec_time_or_now(time, now),
                InputOp::Button { key: key, value: value },
            ),
    {
        WorkerMessage(time_or_now(time, now), InputOp::Button { key, value })
    }

    /// The command a `set_x_vel` request produces.
    pub fn set_x_vel(time: Option<Time>, now: Time, dxdt: i64) -> (m: WorkerMessage)
        ensures
            m == WorkerMessage(spec_time_or_now(time, now), InputOp::XVel { dxdt: dxdt }),
    {
        WorkerMessage(time_or_now(time, now), InputOp::XVel { dxdt })
    }

    /// The command a `set_y_vel` request produces.
    pub fn set_y_vel(time: Option<Time>, now: Time, dydt: i64) -> (m: WorkerMessage)
        ensures
            m == WorkerMessage(spec_time_or_now(time, now), InputOp::YVel { dydt: dydt }),
    {
        WorkerMessage(time_or_now(time, now), InputOp::YVel { dydt })
    }

    /// The command a `move_x` request produces.
    pub fn move_x(time: Option<Time>, now: Time, dx: i32) -> (m: WorkerMessage)
        ensures
            m == WorkerMessage(spec_time_or_now(time, now), InputOp::XRel { dx: dx }),
    {
        WorkerMessage(time_or_now(time, now), InputOp::XRel { dx })
    }

    /// The command a `move_y` request produces.
    pub fn move_y(time: Option<Time>, now: Time, dy: i32) -> (m: WorkerMessage)
        ensures
            m == WorkerMessage(spec_time_or_now(time, now), InputOp::YRel { dy: dy }),
    {
        WorkerMessage(time_or_now(time, now), InputOp::YRel { dy })
    }

    /// The command a `set_x` request produces.
    pub fn set_x(time: Option<Time>, now: Time, x: i32) -> (m: WorkerMessage)
        ensures
            m == WorkerMessage(spec_time_or_now(time, now), InputOp::XAbs { x: x }),
    {
        WorkerMessage(time_or_now(time, now), InputOp::XAbs { x })
    }

    /// The command a `set_y` request produces.
    pub fn set_y(time: Option<Time>, now: Time, y: i32) -> (m: WorkerMessage)
        ensures
            m == WorkerMessage(spec_time_or_now(time, now), InputOp::YAbs { y: y }),
    {
        WorkerMessage(time_or_now(time, now), InputOp::YAbs { y })
    }
}

/// One axis carried through interpolation steps at each time in `ts`.
pub open spec fn run_axis(a: Option<InterpView>, ts: Seq<int>) -> Option<InterpView>
    decreases ts.len(),
{
    if ts.len() == 0 {
        a
    } else {
        run_axis(step_axis(a, ts[0]), ts.drop_first())
    }
}

/// An idle axis stays idle through any run of interpolation steps.
pub proof fn lemma_run_axis_none(ts: Seq<int>)
    ensures
        run_axis(Option::None, ts) is None,
    decreases ts.len(),
{
    if ts.len() > 0 {
        lemma_run_axis_none(ts.drop_first());
    }
}

/// Law (idempotence under zero velocity): a velocity command with rate
/// zero clears the axis outright — no remainder survives — and however
/// many interpolation steps follow, the axis stays cleared and writes no
/// displacement event at any of them.
pub proof fn lemma_zero_velocity_idle(
    a: Option<InterpView>,
    t: int,
    ts: Seq<int>,
    now: Time,
    x_axis: bool,
)
    ensures
        set_vel_axis(a, t, 0) is None,
        run_axis(set_vel_axis(a, t, 0), ts) is None,
        axis_events(run_axis(set_vel_axis(a, t, 0), ts), now, x_axis)
            == Seq::<OutputEvent>::empty(),
{
    lemma_run_axis_none(ts);
}

} // verus!
