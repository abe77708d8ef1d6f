use spout::{Kind, Operation, SpoutLibLogLevel, Value, SLOTS};

#[test]
fn table_has_one_hundred_and_thirty_seven_slots() {
    assert_eq!(SLOTS, 137);
}

#[test]
fn first_and_last_slots() {
    assert_eq!(Operation::SetSenderName.slot(), 0);
    assert_eq!(Operation::Release.slot(), 136);
}

#[test]
fn slots_follow_the_declared_order() {
    assert_eq!(Operation::SetSenderFormat.slot(), 1);
    assert_eq!(Operation::ReleaseSender.slot(), 2);
    assert_eq!(Operation::SendFbo.slot(), 3);
    assert_eq!(Operation::SendTexture.slot(), 4);
    assert_eq!(Operation::SendImage.slot(), 5);
    assert_eq!(Operation::GetName.slot(), 6);
    assert_eq!(Operation::GetWidth.slot(), 7);
    assert_eq!(Operation::GetHeight.slot(), 8);
    assert_eq!(Operation::SetReceiverName.slot(), 14);
    assert_eq!(Operation::SelectSender.slot(), 30);
    assert_eq!(Operation::SetFrameCount.slot(), 31);
    assert_eq!(Operation::WriteMemoryBuffer.slot(), 39);
    assert_eq!(Operation::OpenSpoutConsole.slot(), 44);
    assert_eq!(Operation::SetSpoutLogLevel.slot(), 51);
    assert_eq!(Operation::SpoutMessageBox.slot(), 58);
    assert_eq!(Operation::GetSdkVersion.slot(), 71);
    assert_eq!(Operation::CopyTexture.slot(), 123);
    assert_eq!(Operation::OpenDirectx.slot(), 130);
    assert_eq!(Operation::GetDx11Context.slot(), 135);
}

#[test]
fn reserved_slots_keep_later_operations_in_place() {
    assert_eq!(Operation::GetSpoutLog.slot(), 48);
    assert_eq!(Operation::ShowSpoutLogs.slot(), 49);
    assert_eq!(Operation::SpoutMessageBoxIcon.slot(), 59);
    assert_eq!(Operation::CopyToClipBoard.slot(), 63);
    assert_eq!(Operation::ReadDwordFromRegistry.slot(), 64);
    assert_eq!(Operation::FindSubKey.slot(), 70);
    assert_eq!(Operation::GetDx11Format.slot(), 124);
    assert_eq!(Operation::GlFormatName.slot(), 129);
}

#[test]
fn from_slot_is_the_inverse_of_slot() {
    for slot in 0..SLOTS {
        let op = Operation::from_slot(slot).expect("every slot of the table holds an operation");
        assert_eq!(op.slot(), slot);
    }
}

#[test]
fn from_slot_finds_the_operation() {
    assert_eq!(Operation::from_slot(0), Some(Operation::SetSenderName));
    assert_eq!(Operation::from_slot(7), Some(Operation::GetWidth));
    assert_eq!(Operation::from_slot(136), Some(Operation::Release));
}

#[test]
fn from_slot_beyond_the_table() {
    assert_eq!(Operation::from_slot(137), None);
    assert_eq!(Operation::from_slot(138), None);
    assert_eq!(Operation::from_slot(usize::MAX), None);
}

#[test]
fn no_two_operations_share_a_slot() {
    let mut seen = vec![false; SLOTS];
    for slot in 0..SLOTS {
        let op = Operation::from_slot(slot).unwrap();
        assert!(!seen[op.slot()]);
        seen[op.slot()] = true;
    }
    assert!(seen.iter().all(|&s| s));
}

#[test]
fn parameters_of_send_fbo() {
    assert_eq!(
        Operation::SendFbo.parameters(),
        vec![Kind::Unsigned, Kind::Unsigned, Kind::Unsigned, Kind::Flag]
    );
}

#[test]
fn parameters_of_send_image() {
    assert_eq!(
        Operation::SendImage.parameters(),
        vec![Kind::Address, Kind::Unsigned, Kind::Unsigned, Kind::Unsigned, Kind::Flag]
    );
}

#[test]
fn parameters_of_copy_texture() {
    assert_eq!(
        Operation::CopyTexture.parameters(),
        vec![
            Kind::Unsigned,
            Kind::Unsigned,
            Kind::Unsigned,
            Kind::Unsigned,
            Kind::Unsigned,
            Kind::Unsigned,
            Kind::Flag,
            Kind::Unsigned,
        ]
    );
}

#[test]
fn parameters_of_get_sender_info() {
    assert_eq!(
        Operation::GetSenderInfo.parameters(),
        vec![Kind::Address, Kind::Address, Kind::Address, Kind::Address, Kind::Address]
    );
}

#[test]
fn parameters_of_read_memory_buffer() {
    assert_eq!(
        Operation::ReadMemoryBuffer.parameters(),
        vec![Kind::Address, Kind::Address, Kind::Signed]
    );
}

#[test]
fn log_level_is_passed_as_a_signed_integer() {
    assert_eq!(Operation::SetSpoutLogLevel.parameters(), vec![Kind::Signed]);
}

#[test]
fn operations_without_parameters() {
    assert_eq!(Operation::GetWidth.parameters(), vec![]);
    assert_eq!(Operation::Release.parameters(), vec![]);
    assert_eq!(Operation::ReleaseReceiver.parameters(), vec![]);
}

#[test]
fn reserved_slots_are_declared_without_parameters() {
    assert_eq!(Operation::SpoutMessageBoxIcon.parameters(), vec![]);
    assert_eq!(Operation::WritePathToRegistry.parameters(), vec![]);
    assert_eq!(Operation::Dx11Format.parameters(), vec![]);
}

#[test]
fn admits_the_declared_arguments() {
    let args = vec![Value::Unsigned(3), Value::Unsigned(640), Value::Unsigned(480), Value::Flag(true)];
    assert!(Operation::SendFbo.admits_args(&args));
    assert!(Operation::GetWidth.admits_args(&vec![]));
}

#[test]
fn refuses_too_few_arguments() {
    let args = vec![Value::Unsigned(3), Value::Unsigned(640), Value::Unsigned(480)];
    assert!(!Operation::SendFbo.admits_args(&args));
    assert!(!Operation::SetSenderName.admits_args(&vec![]));
}

#[test]
fn refuses_too_many_arguments() {
    assert!(!Operation::GetWidth.admits_args(&vec![Value::Unsigned(1)]));
}

#[test]
fn refuses_an_argument_of_another_shape() {
    let args = vec![Value::Unsigned(3), Value::Unsigned(640), Value::Signed(480), Value::Flag(true)];
    assert!(!Operation::SendFbo.admits_args(&args));
    assert!(!Operation::SetSenderName.admits_args(&vec![Value::Unsigned(0)]));
    assert!(!Operation::HoldFps.admits_args(&vec![Value::Unsigned(60)]));
    assert!(Operation::HoldFps.admits_args(&vec![Value::Signed(60)]));
}

#[test]
fn refuses_arguments_in_another_order() {
    let args = vec![Value::Flag(true), Value::Unsigned(3), Value::Unsigned(640), Value::Unsigned(480)];
    assert!(!Operation::SendFbo.admits_args(&args));
}

#[test]
fn kind_of_each_value() {
    assert_eq!(Value::Address(0x10).kind(), Kind::Address);
    assert_eq!(Value::Unsigned(7).kind(), Kind::Unsigned);
    assert_eq!(Value::Signed(-7).kind(), Kind::Signed);
    assert_eq!(Value::Flag(false).kind(), Kind::Flag);
}

#[test]
fn log_levels_count_up_from_zero() {
    assert_eq!(SpoutLibLogLevel::Silent.raw(), 0);
    assert_eq!(SpoutLibLogLevel::Verbose.raw(), 1);
    assert_eq!(SpoutLibLogLevel::Notice.raw(), 2);
    assert_eq!(SpoutLibLogLevel::Warning.raw(), 3);
    assert_eq!(SpoutLibLogLevel::Error.raw(), 4);
    assert_eq!(SpoutLibLogLevel::Fatal.raw(), 5);
    assert_eq!(SpoutLibLogLevel::Off.raw(), 6);
}

#[test]
fn results_of_the_declared_operations() {
    assert_eq!(Operation::SetSenderName.result(), None);
    assert_eq!(Operation::SendFbo.result(), Some(Kind::Flag));
    assert_eq!(Operation::GetName.result(), Some(Kind::Address));
    assert_eq!(Operation::GetWidth.result(), Some(Kind::Unsigned));
    assert_eq!(Operation::GetFps.result(), Some(Kind::Double));
    assert_eq!(Operation::GetFrame.result(), Some(Kind::Long));
    assert_eq!(Operation::GetHandle.result(), Some(Kind::Address));
    assert_eq!(Operation::GetSenderFormat.result(), Some(Kind::Unsigned));
    assert_eq!(Operation::ReadMemoryBuffer.result(), Some(Kind::Signed));
    assert_eq!(Operation::GetSharedTextureId.result(), Some(Kind::Unsigned));
    assert_eq!(Operation::EndTiming.result(), Some(Kind::Double));
    assert_eq!(Operation::IsFrameCountEnabled.result(), None);
    assert_eq!(Operation::Release.result(), None);
}

#[test]
fn results_of_reserved_slots() {
    assert_eq!(Operation::GetSpoutLog.result(), Some(Kind::Address));
    assert_eq!(Operation::SpoutMessageBoxIcon.result(), None);
    assert_eq!(Operation::CopyToClipBoard.result(), Some(Kind::Flag));
    assert_eq!(Operation::RemoveSubKey.result(), Some(Kind::Flag));
    assert_eq!(Operation::GlFormatName.result(), None);
}
