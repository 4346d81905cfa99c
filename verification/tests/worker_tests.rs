use evdotool::time_util::Time;
use evdotool::virtual_input::{
    InputOp, OutputEvent, VirtualInputWorker, WorkerMessage, JUMP_SENTINEL,
};

fn t(micros: i64) -> Time {
    Time::from_micros(micros)
}

#[test]
fn button_writes_key_then_syn() {
    let mut worker = VirtualInputWorker::new();
    let mut out: Vec<OutputEvent> = Vec::new();
    worker.process(WorkerMessage(t(1_000), InputOp::Button { key: 30, value: 1 }), &mut out);
    assert_eq!(
        out,
        vec![
            OutputEvent::Key { time: t(1_000), code: 30, value: 1 },
            OutputEvent::Syn { time: t(1_000) },
        ]
    );
}

#[test]
fn relative_move_writes_displacement_then_syn() {
    let mut worker = VirtualInputWorker::new();
    let mut out: Vec<OutputEvent> = Vec::new();
    worker.process(WorkerMessage(t(2_000), InputOp::YRel { dy: -4 }), &mut out);
    assert_eq!(
        out,
        vec![
            OutputEvent::RelY { time: t(2_000), value: -4 },
            OutputEvent::Syn { time: t(2_000) },
        ]
    );
}

#[test]
fn absolute_jump_writes_sentinel_then_move_then_syn() {
    let mut worker = VirtualInputWorker::new();
    let mut out: Vec<OutputEvent> = Vec::new();
    worker.process(WorkerMessage(t(10_000), InputOp::XAbs { x: 77 }), &mut out);
    assert_eq!(
        out,
        vec![
            // The drift-reset sentinel is timed half a tick earlier.
            OutputEvent::RelX { time: t(6_000), value: JUMP_SENTINEL },
            OutputEvent::RelX { time: t(10_000), value: 77 },
            OutputEvent::Syn { time: t(10_000) },
        ]
    );
}

#[test]
fn velocity_command_emits_no_event() {
    let mut worker = VirtualInputWorker::new();
    let mut out: Vec<OutputEvent> = Vec::new();
    worker.process(WorkerMessage(t(0), InputOp::XVel { dxdt: 100 }), &mut out);
    assert_eq!(out, vec![]);
}

#[test]
fn tick_applies_commands_before_interpolating() {
    // Velocity set at t=0; one tick later the axis has integrated
    // exactly one tick's worth of movement.
    let mut worker = VirtualInputWorker::new();
    let mut out: Vec<OutputEvent> = Vec::new();
    let msgs = vec![WorkerMessage(t(0), InputOp::XVel { dxdt: 1_000 })];
    worker.tick(&msgs, t(8_000), &mut out);
    assert_eq!(
        out,
        vec![
            OutputEvent::RelX { time: t(8_000), value: 8 },
            OutputEvent::Syn { time: t(8_000) },
        ]
    );
}

#[test]
fn command_ordering_within_one_tick() {
    // SetVelocityX(5), then MoveRelativeX(2), then SetVelocityX(0),
    // all within one tick window, then one interpolation step: the
    // relative move is applied once, and the interpolation step
    // contributes no displacement because the velocity is already zero
    // at sample time.
    let mut worker = VirtualInputWorker::new();
    let mut out: Vec<OutputEvent> = Vec::new();
    let msgs = vec![
        WorkerMessage(t(1_000), InputOp::XVel { dxdt: 5 }),
        WorkerMessage(t(1_100), InputOp::XRel { dx: 2 }),
        WorkerMessage(t(1_200), InputOp::XVel { dxdt: 0 }),
    ];
    worker.tick(&msgs, t(8_000), &mut out);
    assert_eq!(
        out,
        vec![
            OutputEvent::RelX { time: t(1_100), value: 2 },
            OutputEvent::Syn { time: t(1_100) },
            OutputEvent::Syn { time: t(8_000) },
        ]
    );
}

#[test]
fn zero_velocity_clears_carried_remainder() {
    // Build up a fractional remainder, zero the velocity, then drive
    // the axis again: the old remainder must not leak into new motion.
    let mut worker = VirtualInputWorker::new();
    let mut out: Vec<OutputEvent> = Vec::new();
    // 1.5 units wanted by t=1500: 1 emitted, 0.5 carried.
    worker.tick(&vec![WorkerMessage(t(0), InputOp::XVel { dxdt: 1_000 })], t(1_500), &mut out);
    assert_eq!(
        out,
        vec![
            OutputEvent::RelX { time: t(1_500), value: 1 },
            OutputEvent::Syn { time: t(1_500) },
        ]
    );
    out.clear();
    // Tear the axis down, then re-create it: the 0.5 carry is gone, so
    // another 1.5-unit integral again emits just 1.
    worker.tick(&vec![WorkerMessage(t(2_000), InputOp::XVel { dxdt: 0 })], t(3_000), &mut out);
    assert_eq!(out, vec![OutputEvent::Syn { time: t(3_000) }]);
    out.clear();
    worker.tick(&vec![WorkerMessage(t(3_000), InputOp::XVel { dxdt: 1_000 })], t(4_500), &mut out);
    assert_eq!(
        out,
        vec![
            OutputEvent::RelX { time: t(4_500), value: 1 },
            OutputEvent::Syn { time: t(4_500) },
        ]
    );
}

#[test]
fn zero_velocity_axis_stays_idle() {
    let mut worker = VirtualInputWorker::new();
    let mut out: Vec<OutputEvent> = Vec::new();
    worker.tick(&vec![WorkerMessage(t(0), InputOp::YVel { dydt: 500 })], t(8_000), &mut out);
    out.clear();
    worker.tick(&vec![WorkerMessage(t(8_000), InputOp::YVel { dydt: 0 })], t(16_000), &mut out);
    assert_eq!(out, vec![OutputEvent::Syn { time: t(16_000) }]);
    out.clear();
    // Every later tick: no displacement events at all.
    worker.tick(&Vec::new(), t(24_000), &mut out);
    worker.tick(&Vec::new(), t(32_000), &mut out);
    assert_eq!(
        out,
        vec![OutputEvent::Syn { time: t(24_000) }, OutputEvent::Syn { time: t(32_000) }]
    );
}

#[test]
fn both_axes_interpolate_in_one_tick() {
    let mut worker = VirtualInputWorker::new();
    let mut out: Vec<OutputEvent> = Vec::new();
    let msgs = vec![
        WorkerMessage(t(0), InputOp::XVel { dxdt: 2_000 }),
        WorkerMessage(t(0), InputOp::YVel { dydt: -2_000 }),
    ];
    worker.tick(&msgs, t(8_000), &mut out);
    assert_eq!(
        out,
        vec![
            OutputEvent::RelX { time: t(8_000), value: 16 },
            OutputEvent::RelY { time: t(8_000), value: -16 },
            OutputEvent::Syn { time: t(8_000) },
        ]
    );
}

#[test]
fn huge_integral_saturates_to_event_range() {
    // Top velocity left alone for a very long gap overflows the 32-bit
    // event value; the written displacement saturates.
    let mut worker = VirtualInputWorker::new();
    let mut out: Vec<OutputEvent> = Vec::new();
    worker.tick(&vec![WorkerMessage(t(0), InputOp::XVel { dxdt: 50_000 })], t(0), &mut out);
    out.clear();
    worker.tick(&Vec::new(), t(100_000_000_000), &mut out);
    assert_eq!(
        out,
        vec![
            OutputEvent::RelX { time: t(100_000_000_000), value: i32::MAX },
            OutputEvent::Syn { time: t(100_000_000_000) },
        ]
    );
}

#[test]
fn facade_resolves_explicit_time_and_now() {
    let m1 = WorkerMessage::move_x(Some(t(5)), t(9), 10);
    assert_eq!(m1, WorkerMessage(t(5), InputOp::XRel { dx: 10 }));
    let m2 = WorkerMessage::move_y(None, t(9), -3);
    assert_eq!(m2, WorkerMessage(t(9), InputOp::YRel { dy: -3 }));
    let m3 = WorkerMessage::button(None, t(7), 30, 1);
    assert_eq!(m3, WorkerMessage(t(7), InputOp::Button { key: 30, value: 1 }));
    let m4 = WorkerMessage::set_x_vel(None, t(7), 5);
    assert_eq!(m4, WorkerMessage(t(7), InputOp::XVel { dxdt: 5 }));
    let m5 = WorkerMessage::set_y_vel(Some(t(2)), t(7), -5);
    assert_eq!(m5, WorkerMessage(t(2), InputOp::YVel { dydt: -5 }));
    let m6 = WorkerMessage::set_x(None, t(7), 640);
    assert_eq!(m6, WorkerMessage(t(7), InputOp::XAbs { x: 640 }));
    let m7 = WorkerMessage::set_y(None, t(7), 480);
    assert_eq!(m7, WorkerMessage(t(7), InputOp::YAbs { y: 480 }));
}
