use spout::{Call, Kind, Operation, Spout, SpoutLibLogLevel, Value};

const HANDLE: usize = 0x7f00_1000;

/// A stand-in for the native library: answers a call by the slot it arrives
/// at, and checks that the handle leads the arguments.
fn known_table(call: &Call) -> u32 {
    assert_eq!(call.args[0], Value::Address(HANDLE));
    match Operation::from_slot(call.slot) {
        Some(Operation::GetWidth) => 1920,
        Some(Operation::GetHeight) => 1080,
        Some(Operation::GetSenderFormat) => 87,
        _ => panic!("slot {} is not filled in this table", call.slot),
    }
}

#[test]
fn new_spout_is_ready_and_holds_its_handle() {
    let spout = Spout::new(HANDLE);
    assert!(spout.is_ready());
    assert_eq!(spout.handle(), HANDLE);
}

#[test]
fn get_width_returns_what_the_slot_returns() {
    let spout = Spout::new(HANDLE);
    let width = spout.get_width(|call| known_table(&call));
    assert_eq!(width, 1920);
}

#[test]
fn get_height_goes_to_its_own_slot() {
    let spout = Spout::new(HANDLE);
    assert_eq!(spout.get_height(|call| known_table(&call)), 1080);
    assert_eq!(spout.get_sender_format(|call| known_table(&call)), 87);
}

#[test]
fn get_width_passes_the_handle_alone() {
    let spout = Spout::new(HANDLE);
    let mut seen = Vec::new();
    spout.get_width(|call| {
        seen.push((call.slot, call.args));
        0
    });
    assert_eq!(seen, vec![(7, vec![Value::Address(HANDLE)])]);
}

#[test]
fn send_image_returns_false_when_the_slot_does() {
    let spout = Spout::new(HANDLE);
    let sent = spout.send_image(0x5000, 640, 480, 0x1908, false, |call| {
        assert_eq!(call.slot, Operation::SendImage.slot());
        false
    });
    assert!(!sent);
    assert!(spout.is_ready());
}

#[test]
fn send_image_returns_true_when_the_slot_does() {
    let spout = Spout::new(HANDLE);
    assert!(spout.send_image(0x5000, 640, 480, 0x1908, false, |_| true));
}

#[test]
fn send_image_forwards_its_arguments_in_order() {
    let spout = Spout::new(HANDLE);
    let mut seen = Vec::new();
    spout.send_image(0x5000, 640, 480, 0x1908, true, |call| {
        seen.push((call.slot, call.args));
        true
    });
    assert_eq!(
        seen,
        vec![(
            5,
            vec![
                Value::Address(HANDLE),
                Value::Address(0x5000),
                Value::Unsigned(640),
                Value::Unsigned(480),
                Value::Unsigned(0x1908),
                Value::Flag(true),
            ]
        )]
    );
}

#[test]
fn send_fbo_forwards_its_arguments_in_order() {
    let spout = Spout::new(HANDLE);
    let mut seen = Vec::new();
    let sent = spout.send_fbo(9, 1280, 720, false, |call| {
        seen.push((call.slot, call.args));
        true
    });
    assert!(sent);
    assert_eq!(
        seen,
        vec![(
            3,
            vec![
                Value::Address(HANDLE),
                Value::Unsigned(9),
                Value::Unsigned(1280),
                Value::Unsigned(720),
                Value::Flag(false),
            ]
        )]
    );
}

#[test]
fn copy_texture_forwards_eight_arguments() {
    let spout = Spout::new(HANDLE);
    let mut seen = Vec::new();
    spout.copy_texture(1, 2, 3, 4, 5, 6, true, 8, |call| seen.push((call.slot, call.args)));
    assert_eq!(
        seen,
        vec![(
            123,
            vec![
                Value::Address(HANDLE),
                Value::Unsigned(1),
                Value::Unsigned(2),
                Value::Unsigned(3),
                Value::Unsigned(4),
                Value::Unsigned(5),
                Value::Unsigned(6),
                Value::Flag(true),
                Value::Unsigned(8),
            ]
        )]
    );
}

#[test]
fn read_memory_buffer_forwards_addresses_and_length() {
    let spout = Spout::new(HANDLE);
    let mut seen = Vec::new();
    let read = spout.read_memory_buffer(0x100, 0x200, -3, |call| {
        seen.push((call.slot, call.args));
        -1
    });
    assert_eq!(read, -1);
    assert_eq!(
        seen,
        vec![(
            40,
            vec![
                Value::Address(HANDLE),
                Value::Address(0x100),
                Value::Address(0x200),
                Value::Signed(-3),
            ]
        )]
    );
}

#[test]
fn log_level_travels_as_its_integer() {
    let spout = Spout::new(HANDLE);
    let mut seen = Vec::new();
    spout.set_spout_log_level(SpoutLibLogLevel::Warning, |call| seen.push((call.slot, call.args)));
    spout.set_spout_log_level(SpoutLibLogLevel::Off, |call| seen.push((call.slot, call.args)));
    assert_eq!(
        seen,
        vec![
            (51, vec![Value::Address(HANDLE), Value::Signed(3)]),
            (51, vec![Value::Address(HANDLE), Value::Signed(6)]),
        ]
    );
}

#[test]
fn replies_of_every_type_pass_through() {
    let spout = Spout::new(HANDLE);
    assert_eq!(spout.get_name(|_| 0xdead_0000), 0xdead_0000);
    assert_eq!(spout.get_frame(|_| -42i64), -42);
    assert_eq!(spout.get_fps(|_| 60.0f64.to_bits()), 60.0f64.to_bits());
    assert_eq!(spout.get_share_mode(|_| i32::MIN), i32::MIN);
    assert_eq!(spout.get_shared_texture_id(|_| u32::MAX), u32::MAX);
    assert_eq!(spout.get_handle(|_| 0), 0);
    assert!(spout.is_connected(|_| true));
    assert!(!spout.is_connected(|_| false));
}

#[test]
fn null_arguments_are_forwarded_unchanged() {
    let spout = Spout::new(HANDLE);
    let mut seen = Vec::new();
    spout.set_sender_name(0, |call| seen.push(call.args));
    assert_eq!(seen, vec![vec![Value::Address(HANDLE), Value::Address(0)]]);
}

#[test]
fn each_call_reaches_the_native_side_once() {
    let spout = Spout::new(HANDLE);
    let mut calls = 0;
    spout.select_sender(|_| calls += 1);
    spout.select_sender(|_| calls += 1);
    spout.open_spout_console(|_| calls += 1);
    assert_eq!(calls, 3);
}

#[test]
fn calls_leave_the_spout_ready() {
    let spout = Spout::new(HANDLE);
    spout.release_receiver(|_| ());
    spout.release_sender(10, |_| ());
    assert!(spout.close_opengl(|_| false) == false);
    assert!(spout.is_ready());
    assert_eq!(spout.handle(), HANDLE);
}

#[test]
fn dispatch_prepends_the_handle() {
    let spout = Spout::new(HANDLE);
    let args = vec![Value::Signed(30)];
    assert!(Operation::HoldFps.admits_args(&args));
    assert_eq!(Operation::HoldFps.result(), None);
    let mut seen = Vec::new();
    spout.dispatch(Operation::HoldFps, args, |call| seen.push((call.slot, call.args)));
    assert_eq!(seen, vec![(34, vec![Value::Address(HANDLE), Value::Signed(30)])]);
}

#[test]
fn dispatch_returns_the_reply_unchanged() {
    let spout = Spout::new(HANDLE);
    assert_eq!(Operation::GetSpoutVersion.result(), Some(Kind::Signed));
    let reply: i32 = spout.dispatch(Operation::GetSpoutVersion, Vec::new(), |_| 2007);
    assert_eq!(reply, 2007);
}

#[test]
fn release_calls_the_last_slot_with_the_handle() {
    let mut spout = Spout::new(HANDLE);
    let mut seen = Vec::new();
    spout.release(|call| seen.push((call.slot, call.args)));
    assert_eq!(seen, vec![(136, vec![Value::Address(HANDLE)])]);
}

#[test]
fn release_ends_the_spout() {
    let mut spout = Spout::new(HANDLE);
    assert!(spout.is_ready());
    spout.release(|_| ());
    assert!(!spout.is_ready());
    assert_eq!(spout.handle(), HANDLE);
}

#[test]
fn a_guarded_release_happens_once() {
    let mut spout = Spout::new(HANDLE);
    let mut released = Vec::new();
    for _ in 0..3 {
        if spout.is_ready() {
            spout.release(|call| released.push(call.args[0]));
        }
    }
    assert_eq!(released, vec![Value::Address(HANDLE)]);
}

#[test]
fn two_spouts_release_their_own_handles() {
    let mut first = Spout::new(0x1000);
    let mut second = Spout::new(0x2000);
    let mut released = Vec::new();
    second.release(|call| released.push(call.args[0]));
    first.release(|call| released.push(call.args[0]));
    assert_eq!(released, vec![Value::Address(0x2000), Value::Address(0x1000)]);
}
