//! The operations that the native library offers, in the order of its
//! function table.
//!
//! The order of the variants of [`Operation`] is the order of the table: the
//! library is reached through a table of function addresses, and an operation
//! is found in it by position alone. A variant that moved, or one left out,
//! would send every later call to the wrong function, so reserved entries are
//! listed too, to keep what follows them in place.

use vstd::prelude::*;
use crate::value::{kinds, Kind, Value};

verus! {

/// Number of entries in the native function table.
pub const SLOTS: usize = 137;

/// One entry of the native function table.
#[derive(Clone, Copy, Debug, PartialEq, Eq, Structural)]
pub enum Operation {
    // Sender
    SetSenderName,
    SetSenderFormat,
    ReleaseSender,
    SendFbo,
    SendTexture,
    SendImage,
    GetName,
    GetWidth,
    GetHeight,
    GetFps,
    GetFrame,
    GetHandle,
    GetCpu,
    GetGldx,
    // Receiver
    SetReceiverName,
    ReleaseReceiver,
    ReceiveTexture,
    ReceiveImage,
    IsUpdated,
    IsConnected,
    IsFrameNew,
    GetSenderName,
    GetSenderWidth,
    GetSenderHeight,
    GetSenderFormat,
    GetSenderFps,
    GetSenderFrame,
    GetSenderHandle,
    GetSenderCpu,
    GetSenderGldx,
    SelectSender,
    // Frame counting and synchronisation
    SetFrameCount,
    DisableFrameCount,
    IsFrameCountEnabled,
    HoldFps,
    GetRefreshRate,
    SetFrameSync,
    WaitFrameSync,
    EnableFrameSync,
    // Shared memory buffers
    WriteMemoryBuffer,
    ReadMemoryBuffer,
    CreateMemoryBuffer,
    DeleteMemoryBuffer,
    GetMemoryBufferSize,
    // Console, logging and message boxes
    OpenSpoutConsole,
    CloseSpoutConsole,
    EnableSpoutLog,
    EnableSpoutLogFile,
    /// Reserved: no method of the connection reaches it.
    GetSpoutLog,
    ShowSpoutLogs,
    DisableSpoutLog,
    SetSpoutLogLevel,
    SpoutLog,
    SpoutLogVerbose,
    SpoutLogNotice,
    SpoutLogWarning,
    SpoutLogError,
    SpoutLogFatal,
    SpoutMessageBox,
    /// Reserved: no method of the connection reaches it.
    SpoutMessageBoxIcon,
    /// Reserved: no method of the connection reaches it.
    SpoutMessageBoxButton,
    /// Reserved: no method of the connection reaches it.
    SpoutMessageBoxModeless,
    /// Reserved: no method of the connection reaches it.
    SpoutMessageBoxWindow,
    /// Reserved: no method of the connection reaches it.
    CopyToClipBoard,
    // Registry (reserved slots)
    /// Reserved: no method of the connection reaches it.
    ReadDwordFromRegistry,
    /// Reserved: no method of the connection reaches it.
    WriteDwordToRegistry,
    /// Reserved: no method of the connection reaches it.
    ReadPathFromRegistry,
    /// Reserved: no method of the connection reaches it.
    WritePathToRegistry,
    /// Reserved: no method of the connection reaches it.
    RemovePathFromRegistry,
    /// Reserved: no method of the connection reaches it.
    RemoveSubKey,
    /// Reserved: no method of the connection reaches it.
    FindSubKey,
    // Library information and timing
    GetSdkVersion,
    IsLaptop,
    StartTiming,
    EndTiming,
    // Shared texture
    IsInitialized,
    BindSharedTexture,
    UnBindSharedTexture,
    GetSharedTextureId,
    // Sender names
    GetSenderCount,
    GetSender,
    FindSenderName,
    GetSenderInfo,
    GetActiveSender,
    SetActiveSender,
    // Buffering and sender limits
    GetBufferMode,
    SetBufferMode,
    GetBuffers,
    SetBuffers,
    GetMaxSenders,
    SetMaxSenders,
    // Sender and receiver management
    CreateSender,
    UpdateSender,
    CreateReceiver,
    CheckReceiver,
    GetDx9,
    SetDx9,
    GetMemoryShareMode,
    SetMemoryShareMode,
    GetCpuMode,
    SetCpuMode,
    GetShareMode,
    SetShareMode,
    SelectSenderPanel,
    // Host, vertical sync and version
    GetHostPath,
    GetVerticalSync,
    SetVerticalSync,
    GetSpoutVersion,
    // Graphics compatibility
    GetAutoShare,
    SetAutoShare,
    IsGldxReady,
    // Graphics adapters
    GetNumAdapters,
    GetAdapterName,
    AdapterName,
    GetAdapter,
    GetPerformancePreference,
    SetPerformancePreference,
    GetPreferredAdapterName,
    SetPreferredAdapter,
    IsPreferenceAvailable,
    IsApplicationPath,
    // OpenGL utilities
    CreateOpengl,
    CloseOpengl,
    CopyTexture,
    // Texture formats (reserved slots)
    /// Reserved: no method of the connection reaches it.
    GetDx11Format,
    /// Reserved: no method of the connection reaches it.
    SetDx11Format,
    /// Reserved: no method of the connection reaches it.
    Dx11Format,
    /// Reserved: no method of the connection reaches it.
    GldxFormat,
    /// Reserved: no method of the connection reaches it.
    Glformat,
    /// Reserved: no method of the connection reaches it.
    GlFormatName,
    // DirectX
    OpenDirectx,
    CloseDirectx,
    OpenDirectx11,
    CloseDirectx11,
    GetDx11Device,
    GetDx11Context,
    // Life cycle
    Release,
}

impl Operation {
    /// Position of this operation in the native function table.
    pub open spec fn spec_slot(self) -> usize {
        match self {
            Operation::SetSenderName => 0,
            Operation::SetSenderFormat => 1,
            Operation::ReleaseSender => 2,
            Operation::SendFbo => 3,
            Operation::SendTexture => 4,
            Operation::SendImage => 5,
            Operation::GetName => 6,
            Operation::GetWidth => 7,
            Operation::GetHeight => 8,
            Operation::GetFps => 9,
            Operation::GetFrame => 10,
            Operation::GetHandle => 11,
            Operation::GetCpu => 12,
            Operation::GetGldx => 13,
            Operation::SetReceiverName => 14,
            Operation::ReleaseReceiver => 15,
            Operation::ReceiveTexture => 16,
            Operation::ReceiveImage => 17,
            Operation::IsUpdated => 18,
            Operation::IsConnected => 19,
            Operation::IsFrameNew => 20,
            Operation::GetSenderName => 21,
            Operation::GetSenderWidth => 22,
            Operation::GetSenderHeight => 23,
            Operation::GetSenderFormat => 24,
            Operation::GetSenderFps => 25,
            Operation::GetSenderFrame => 26,
            Operation::GetSenderHandle => 27,
            Operation::GetSenderCpu => 28,
            Operation::GetSenderGldx => 29,
            Operation::SelectSender => 30,
            Operation::SetFrameCount => 31,
            Operation::DisableFrameCount => 32,
            Operation::IsFrameCountEnabled => 33,
            Operation::HoldFps => 34,
            Operation::GetRefreshRate => 35,
            Operation::SetFrameSync => 36,
            Operation::WaitFrameSync => 37,
            Operation::EnableFrameSync => 38,
            Operation::WriteMemoryBuffer => 39,
            Operation::ReadMemoryBuffer => 40,
            Operation::CreateMemoryBuffer => 41,
            Operation::DeleteMemoryBuffer => 42,
            Operation::GetMemoryBufferSize => 43,
            Operation::OpenSpoutConsole => 44,
            Operation::CloseSpoutConsole => 45,
            Operation::EnableSpoutLog => 46,
            Operation::EnableSpoutLogFile => 47,
            Operation::GetSpoutLog => 48,
            Operation::ShowSpoutLogs => 49,
            Operation::DisableSpoutLog => 50,
            Operation::SetSpoutLogLevel => 51,
            Operation::SpoutLog => 52,
            Operation::SpoutLogVerbose => 53,
            Operation::SpoutLogNotice => 54,
            Operation::SpoutLogWarning => 55,
            Operation::SpoutLogError => 56,
            Operation::SpoutLogFatal => 57,
            Operation::SpoutMessageBox => 58,
            Operation::SpoutMessageBoxIcon => 59,
            Operation::SpoutMessageBoxButton => 60,
            Operation::SpoutMessageBoxModeless => 61,
            Operation::SpoutMessageBoxWindow => 62,
            Operation::CopyToClipBoard => 63,
            Operation::ReadDwordFromRegistry => 64,
            Operation::WriteDwordToRegistry => 65,
            Operation::ReadPathFromRegistry => 66,
            Operation::WritePathToRegistry => 67,
            Operation::RemovePathFromRegistry => 68,
            Operation::RemoveSubKey => 69,
            Operation::FindSubKey => 70,
            Operation::GetSdkVersion => 71,
            Operation::IsLaptop => 72,
            Operation::StartTiming => 73,
            Operation::EndTiming => 74,
            Operation::IsInitialized => 75,
            Operation::BindSharedTexture => 76,
            Operation::UnBindSharedTexture => 77,
            Operation::GetSharedTextureId => 78,
            Operation::GetSenderCount => 79,
            Operation::GetSender => 80,
            Operation::FindSenderName => 81,
            Operation::GetSenderInfo => 82,
            Operation::GetActiveSender => 83,
            Operation::SetActiveSender => 84,
            Operation::GetBufferMode => 85,
            Operation::SetBufferMode => 86,
            Operation::GetBuffers => 87,
            Operation::SetBuffers => 88,
            Operation::GetMaxSenders => 89,
            Operation::SetMaxSenders => 90,
            Operation::CreateSender => 91,
            Operation::UpdateSender => 92,
            Operation::CreateReceiver => 93,
            Operation::CheckReceiver => 94,
            Operation::GetDx9 => 95,
            Operation::SetDx9 => 96,
            Operation::GetMemoryShareMode => 97,
            Operation::SetMemoryShareMode => 98,
            Operation::GetCpuMode => 99,
            Operation::SetCpuMode => 100,
            Operation::GetShareMode => 101,
            Operation::SetShareMode => 102,
            Operation::SelectSenderPanel => 103,
            Operation::GetHostPath => 104,
            Operation::GetVerticalSync => 105,
            Operation::SetVerticalSync => 106,
            Operation::GetSpoutVersion => 107,
            Operation::GetAutoShare => 108,
            Operation::SetAutoShare => 109,
            Operation::IsGldxReady => 110,
            Operation::GetNumAdapters => 111,
            Operation::GetAdapterName => 112,
            Operation::AdapterName => 113,
            Operation::GetAdapter => 114,
            Operation::GetPerformancePreference => 115,
            Operation::SetPerformancePreference => 116,
            Operation::GetPreferredAdapterName => 117,
            Operation::SetPreferredAdapter => 118,
            Operation::IsPreferenceAvailable => 119,
            Operation::IsApplicationPath => 120,
            Operation::CreateOpengl => 121,
            Operation::CloseOpengl => 122,
            Operation::CopyTexture => 123,
            Operation::GetDx11Format => 124,
            Operation::SetDx11Format => 125,
            Operation::Dx11Format => 126,
            Operation::GldxFormat => 127,
            Operation::Glformat => 128,
            Operation::GlFormatName => 129,
            Operation::OpenDirectx => 130,
            Operation::CloseDirectx => 131,
            Operation::OpenDirectx11 => 132,
            Operation::CloseDirectx11 => 133,
            Operation::GetDx11Device => 134,
            Operation::GetDx11Context => 135,
            Operation::Release => 136,
        }
    }

    /// Position of this operation in the native function table.
    #[verifier::when_used_as_spec(spec_slot)]
    pub fn slot(self) -> (slot: usize)
        ensures
            slot == self.spec_slot(),
            slot < SLOTS,
    {
        match self {
            Operation::SetSenderName => 0,
            Operation::SetSenderFormat => 1,
            Operation::ReleaseSender => 2,
            Operation::SendFbo => 3,
            Operation::SendTexture => 4,
            Operation::SendImage => 5,
            Operation::GetName => 6,
            Operation::GetWidth => 7,
            Operation::GetHeight => 8,
            Operation::GetFps => 9,
            Operation::GetFrame => 10,
            Operation::GetHandle => 11,
            Operation::GetCpu => 12,
            Operation::GetGldx => 13,
            Operation::SetReceiverName => 14,
            Operation::ReleaseReceiver => 15,
            Operation::ReceiveTexture => 16,
            Operation::ReceiveImage => 17,
            Operation::IsUpdated => 18,
            Operation::IsConnected => 19,
            Operation::IsFrameNew => 20,
            Operation::GetSenderName => 21,
            Operation::GetSenderWidth => 22,
            Operation::GetSenderHeight => 23,
            Operation::GetSenderFormat => 24,
            Operation::GetSenderFps => 25,
            Operation::GetSenderFrame => 26,
            Operation::GetSenderHandle => 27,
            Operation::GetSenderCpu => 28,
            Operation::GetSenderGldx => 29,
            Operation::SelectSender => 30,
            Operation::SetFrameCount => 31,
            Operation::DisableFrameCount => 32,
            Operation::IsFrameCountEnabled => 33,
            Operation::HoldFps => 34,
            Operation::GetRefreshRate => 35,
            Operation::SetFrameSync => 36,
            Operation::WaitFrameSync => 37,
            Operation::EnableFrameSync => 38,
            Operation::WriteMemoryBuffer => 39,
            Operation::ReadMemoryBuffer => 40,
            Operation::CreateMemoryBuffer => 41,
            Operation::DeleteMemoryBuffer => 42,
            Operation::GetMemoryBufferSize => 43,
            Operation::OpenSpoutConsole => 44,
            Operation::CloseSpoutConsole => 45,
            Operation::EnableSpoutLog => 46,
            Operation::EnableSpoutLogFile => 47,
            Operation::GetSpoutLog => 48,
            Operation::ShowSpoutLogs => 49,
            Operation::DisableSpoutLog => 50,
            Operation::SetSpoutLogLevel => 51,
            Operation::SpoutLog => 52,
            Operation::SpoutLogVerbose => 53,
            Operation::SpoutLogNotice => 54,
            Operation::SpoutLogWarning => 55,
            Operation::SpoutLogError => 56,
            Operation::SpoutLogFatal => 57,
            Operation::SpoutMessageBox => 58,
            Operation::SpoutMessageBoxIcon => 59,
            Operation::SpoutMessageBoxButton => 60,
            Operation::SpoutMessageBoxModeless => 61,
            Operation::SpoutMessageBoxWindow => 62,
            Operation::CopyToClipBoard => 63,
            Operation::ReadDwordFromRegistry => 64,
            Operation::WriteDwordToRegistry => 65,
            Operation::ReadPathFromRegistry => 66,
            Operation::WritePathToRegistry => 67,
            Operation::RemovePathFromRegistry => 68,
            Operation::RemoveSubKey => 69,
            Operation::FindSubKey => 70,
            Operation::GetSdkVersion => 71,
            Operation::IsLaptop => 72,
            Operation::StartTiming => 73,
            Operation::EndTiming => 74,
            Operation::IsInitialized => 75,
            Operation::BindSharedTexture => 76,
            Operation::UnBindSharedTexture => 77,
            Operation::GetSharedTextureId => 78,
            Operation::GetSenderCount => 79,
            Operation::GetSender => 80,
            Operation::FindSenderName => 81,
            Operation::GetSenderInfo => 82,
            Operation::GetActiveSender => 83,
            Operation::SetActiveSender => 84,
            Operation::GetBufferMode => 85,
            Operation::SetBufferMode => 86,
            Operation::GetBuffers => 87,
            Operation::SetBuffers => 88,
            Operation::GetMaxSenders => 89,
            Operation::SetMaxSenders => 90,
            Operation::CreateSender => 91,
            Operation::UpdateSender => 92,
            Operation::CreateReceiver => 93,
            Operation::CheckReceiver => 94,
            Operation::GetDx9 => 95,
            Operation::SetDx9 => 96,
            Operation::GetMemoryShareMode => 97,
            Operation::SetMemoryShareMode => 98,
            Operation::GetCpuMode => 99,
            Operation::SetCpuMode => 100,
            Operation::GetShareMode => 101,
            Operation::SetShareMode => 102,
            Operation::SelectSenderPanel => 103,
            Operation::GetHostPath => 104,
            Operation::GetVerticalSync => 105,
            Operation::SetVerticalSync => 106,
            Operation::GetSpoutVersion => 107,
            Operation::GetAutoShare => 108,
            Operation::SetAutoShare => 109,
            Operation::IsGldxReady => 110,
            Operation::GetNumAdapters => 111,
            Operation::GetAdapterName => 112,
            Operation::AdapterName => 113,
            Operation::GetAdapter => 114,
            Operation::GetPerformancePreference => 115,
            Operation::SetPerformancePreference => 116,
            Operation::GetPreferredAdapterName => 117,
            Operation::SetPreferredAdapter => 118,
            Operation::IsPreferenceAvailable => 119,
            Operation::IsApplicationPath => 120,
            Operation::CreateOpengl => 121,
            Operation::CloseOpengl => 122,
            Operation::CopyTexture => 123,
            Operation::GetDx11Format => 124,
            Operation::SetDx11Format => 125,
            Operation::Dx11Format => 126,
            Operation::GldxFormat => 127,
            Operation::Glformat => 128,
            Operation::GlFormatName => 129,
            Operation::OpenDirectx => 130,
            Operation::CloseDirectx => 131,
            Operation::OpenDirectx11 => 132,
            Operation::CloseDirectx11 => 133,
            Operation::GetDx11Device => 134,
            Operation::GetDx11Context => 135,
            Operation::Release => 136,
        }
    }

    /// The operation found at a position of the table, if the table reaches
    /// that far.
    pub fn from_slot(slot: usize) -> (found: Option<Operation>)
        ensures
            match found {
                Some(op) => op.slot() == slot,
                None => slot >= SLOTS,
            },
    {
        match slot {
            0 => Some(Operation::SetSenderName),
            1 => Some(Operation::SetSenderFormat),
            2 => Some(Operation::ReleaseSender),
            3 => Some(Operation::SendFbo),
            4 => Some(Operation::SendTexture),
            5 => Some(Operation::SendImage),
            6 => Some(Operation::GetName),
            7 => Some(Operation::GetWidth),
            8 => Some(Operation::GetHeight),
            9 => Some(Operation::GetFps),
            10 => Some(Operation::GetFrame),
            11 => Some(Operation::GetHandle),
            12 => Some(Operation::GetCpu),
            13 => Some(Operation::GetGldx),
            14 => Some(Operation::SetReceiverName),
            15 => Some(Operation::ReleaseReceiver),
            16 => Some(Operation::ReceiveTexture),
            17 => Some(Operation::ReceiveImage),
            18 => Some(Operation::IsUpdated),
            19 => Some(Operation::IsConnected),
            20 => Some(Operation::IsFrameNew),
            21 => Some(Operation::GetSenderName),
            22 => Some(Operation::GetSenderWidth),
            23 => Some(Operation::GetSenderHeight),
            24 => Some(Operation::GetSenderFormat),
            25 => Some(Operation::GetSenderFps),
            26 => Some(Operation::GetSenderFrame),
            27 => Some(Operation::GetSenderHandle),
            28 => Some(Operation::GetSenderCpu),
            29 => Some(Operation::GetSenderGldx),
            30 => Some(Operation::SelectSender),
            31 => Some(Operation::SetFrameCount),
            32 => Some(Operation::DisableFrameCount),
            33 => Some(Operation::IsFrameCountEnabled),
            34 => Some(Operation::HoldFps),
            35 => Some(Operation::GetRefreshRate),
            36 => Some(Operation::SetFrameSync),
            37 => Some(Operation::WaitFrameSync),
            38 => Some(Operation::EnableFrameSync),
            39 => Some(Operation::WriteMemoryBuffer),
            40 => Some(Operation::ReadMemoryBuffer),
            41 => Some(Operation::CreateMemoryBuffer),
            42 => Some(Operation::DeleteMemoryBuffer),
            43 => Some(Operation::GetMemoryBufferSize),
            44 => Some(Operation::OpenSpoutConsole),
            45 => Some(Operation::CloseSpoutConsole),
            46 => Some(Operation::EnableSpoutLog),
            47 => Some(Operation::EnableSpoutLogFile),
            48 => Some(Operation::GetSpoutLog),
            49 => Some(Operation::ShowSpoutLogs),
            50 => Some(Operation::DisableSpoutLog),
            51 => Some(Operation::SetSpoutLogLevel),
            52 => Some(Operation::SpoutLog),
            53 => Some(Operation::SpoutLogVerbose),
            54 => Some(Operation::SpoutLogNotice),
            55 => Some(Operation::SpoutLogWarning),
            56 => Some(Operation::SpoutLogError),
            57 => Some(Operation::SpoutLogFatal),
            58 => Some(Operation::SpoutMessageBox),
            59 => Some(Operation::SpoutMessageBoxIcon),
            60 => Some(Operation::SpoutMessageBoxButton),
            61 => Some(Operation::SpoutMessageBoxModeless),
            62 => Some(Operation::SpoutMessageBoxWindow),
            63 => Some(Operation::CopyToClipBoard),
            64 => Some(Operation::ReadDwordFromRegistry),
            65 => Some(Operation::WriteDwordToRegistry),
            66 => Some(Operation::ReadPathFromRegistry),
            67 => Some(Operation::WritePathToRegistry),
            68 => Some(Operation::RemovePathFromRegistry),
            69 => Some(Operation::RemoveSubKey),
            70 => Some(Operation::FindSubKey),
            71 => Some(Operation::GetSdkVersion),
            72 => Some(Operation::IsLaptop),
            73 => Some(Operation::StartTiming),
            74 => Some(Operation::EndTiming),
            75 => Some(Operation::IsInitialized),
            76 => Some(Operation::BindSharedTexture),
            77 => Some(Operation::UnBindSharedTexture),
            78 => Some(Operation::GetSharedTextureId),
            79 => Some(Operation::GetSenderCount),
            80 => Some(Operation::GetSender),
            81 => Some(Operation::FindSenderName),
            82 => Some(Operation::GetSenderInfo),
            83 => Some(Operation::GetActiveSender),
            84 => Some(Operation::SetActiveSender),
            85 => Some(Operation::GetBufferMode),
            86 => Some(Operation::SetBufferMode),
            87 => Some(Operation::GetBuffers),
            88 => Some(Operation::SetBuffers),
            89 => Some(Operation::GetMaxSenders),
            90 => Some(Operation::SetMaxSenders),
            91 => Some(Operation::CreateSender),
            92 => Some(Operation::UpdateSender),
            93 => Some(Operation::CreateReceiver),
            94 => Some(Operation::CheckReceiver),
            95 => Some(Operation::GetDx9),
            96 => Some(Operation::SetDx9),
            97 => Some(Operation::GetMemoryShareMode),
            98 => Some(Operation::SetMemoryShareMode),
            99 => Some(Operation::GetCpuMode),
            100 => Some(Operation::SetCpuMode),
            101 => Some(Operation::GetShareMode),
            102 => Some(Operation::SetShareMode),
            103 => Some(Operation::SelectSenderPanel),
            104 => Some(Operation::GetHostPath),
            105 => Some(Operation::GetVerticalSync),
            106 => Some(Operation::SetVerticalSync),
            107 => Some(Operation::GetSpoutVersion),
            108 => Some(Operation::GetAutoShare),
            109 => Some(Operation::SetAutoShare),
            110 => Some(Operation::IsGldxReady),
            111 => Some(Operation::GetNumAdapters),
            112 => Some(Operation::GetAdapterName),
            113 => Some(Operation::AdapterName),
            114 => Some(Operation::GetAdapter),
            115 => Some(Operation::GetPerformancePreference),
            116 => Some(Operation::SetPerformancePreference),
            117 => Some(Operation::GetPreferredAdapterName),
            118 => Some(Operation::SetPreferredAdapter),
            119 => Some(Operation::IsPreferenceAvailable),
            120 => Some(Operation::IsApplicationPath),
            121 => Some(Operation::CreateOpengl),
            122 => Some(Operation::CloseOpengl),
            123 => Some(Operation::CopyTexture),
            124 => Some(Operation::GetDx11Format),
            125 => Some(Operation::SetDx11Format),
            126 => Some(Operation::Dx11Format),
            127 => Some(Operation::GldxFormat),
            128 => Some(Operation::Glformat),
            129 => Some(Operation::GlFormatName),
            130 => Some(Operation::OpenDirectx),
            131 => Some(Operation::CloseDirectx),
            132 => Some(Operation::OpenDirectx11),
            133 => Some(Operation::CloseDirectx11),
            134 => Some(Operation::GetDx11Device),
            135 => Some(Operation::GetDx11Context),
            136 => Some(Operation::Release),
            _ => None,
        }
    }

    /// The shapes of the arguments that this operation takes after the
    /// library's handle, in order. Reserved entries are declared without any.
    pub open spec fn spec_parameters(self) -> Seq<Kind> {
        match self {
            Operation::SetSenderName => seq![Kind::Address],
            Operation::SetSenderFormat => seq![Kind::Unsigned],
            Operation::ReleaseSender => seq![Kind::Unsigned],
            Operation::SendFbo => seq![Kind::Unsigned, Kind::Unsigned, Kind::Unsigned, Kind::Flag],
            Operation::SendTexture => seq![
                Kind::Unsigned,
                Kind::Unsigned,
                Kind::Unsigned,
                Kind::Unsigned,
                Kind::Flag,
                Kind::Unsigned,
            ],
            Operation::SendImage => seq![
                Kind::Address,
                Kind::Unsigned,
                Kind::Unsigned,
                Kind::Unsigned,
                Kind::Flag,
            ],
            Operation::GetName => seq![],
            Operation::GetWidth => seq![],
            Operation::GetHeight => seq![],
            Operation::GetFps => seq![],
            Operation::GetFrame => seq![],
            Operation::GetHandle => seq![],
            Operation::GetCpu => seq![],
            Operation::GetGldx => seq![],
            Operation::SetReceiverName => seq![Kind::Address],
            Operation::ReleaseReceiver => seq![],
            Operation::ReceiveTexture => seq![
                Kind::Unsigned,
                Kind::Unsigned,
                Kind::Flag,
                Kind::Unsigned,
            ],
            Operation::ReceiveImage => seq![
                Kind::Address,
                Kind::Unsigned,
                Kind::Flag,
                Kind::Unsigned,
            ],
            Operation::IsUpdated => seq![],
            Operation::IsConnected => seq![],
            Operation::IsFrameNew => seq![],
            Operation::GetSenderName => seq![],
            Operation::GetSenderWidth => seq![],
            Operation::GetSenderHeight => seq![],
            Operation::GetSenderFormat => seq![],
            Operation::GetSenderFps => seq![],
            Operation::GetSenderFrame => seq![],
            Operation::GetSenderHandle => seq![],
            Operation::GetSenderCpu => seq![],
            Operation::GetSenderGldx => seq![],
            Operation::SelectSender => seq![],
            Operation::SetFrameCount => seq![Kind::Flag],
            Operation::DisableFrameCount => seq![],
            Operation::IsFrameCountEnabled => seq![],
            Operation::HoldFps => seq![Kind::Signed],
            Operation::GetRefreshRate => seq![],
            Operation::SetFrameSync => seq![Kind::Address],
            Operation::WaitFrameSync => seq![Kind::Address, Kind::Unsigned],
            Operation::EnableFrameSync => seq![Kind::Flag],
            Operation::WriteMemoryBuffer => seq![Kind::Address, Kind::Address, Kind::Signed],
            Operation::ReadMemoryBuffer => seq![Kind::Address, Kind::Address, Kind::Signed],
            Operation::CreateMemoryBuffer => seq![Kind::Address, Kind::Signed],
            Operation::DeleteMemoryBuffer => seq![],
            Operation::GetMemoryBufferSize => seq![Kind::Address],
            Operation::OpenSpoutConsole => seq![],
            Operation::CloseSpoutConsole => seq![Kind::Flag],
            Operation::EnableSpoutLog => seq![],
            Operation::EnableSpoutLogFile => seq![Kind::Address, Kind::Flag],
            Operation::GetSpoutLog => seq![],
            Operation::ShowSpoutLogs => seq![],
            Operation::DisableSpoutLog => seq![],
            Operation::SetSpoutLogLevel => seq![Kind::Signed],
            Operation::SpoutLog => seq![Kind::Address],
            Operation::SpoutLogVerbose => seq![Kind::Address],
            Operation::SpoutLogNotice => seq![Kind::Address],
            Operation::SpoutLogWarning => seq![Kind::Address],
            Operation::SpoutLogError => seq![Kind::Address],
            Operation::SpoutLogFatal => seq![Kind::Address],
            Operation::SpoutMessageBox => seq![Kind::Address, Kind::Unsigned],
            Operation::SpoutMessageBoxIcon => seq![],
            Operation::SpoutMessageBoxButton => seq![],
            Operation::SpoutMessageBoxModeless => seq![],
            Operation::SpoutMessageBoxWindow => seq![],
            Operation::CopyToClipBoard => seq![],
            Operation::ReadDwordFromRegistry => seq![],
            Operation::WriteDwordToRegistry => seq![],
            Operation::ReadPathFromRegistry => seq![],
            Operation::WritePathToRegistry => seq![],
            Operation::RemovePathFromRegistry => seq![],
            Operation::RemoveSubKey => seq![],
            Operation::FindSubKey => seq![],
            Operation::GetSdkVersion => seq![],
            Operation::IsLaptop => seq![],
            Operation::StartTiming => seq![],
            Operation::EndTiming => seq![],
            Operation::IsInitialized => seq![],
            Operation::BindSharedTexture => seq![],
            Operation::UnBindSharedTexture => seq![],
            Operation::GetSharedTextureId => seq![],
            Operation::GetSenderCount => seq![],
            Operation::GetSender => seq![Kind::Signed, Kind::Address, Kind::Signed],
            Operation::FindSenderName => seq![Kind::Address],
            Operation::GetSenderInfo => seq![
                Kind::Address,
                Kind::Address,
                Kind::Address,
                Kind::Address,
                Kind::Address,
            ],
            Operation::GetActiveSender => seq![Kind::Address],
            Operation::SetActiveSender => seq![Kind::Address],
            Operation::GetBufferMode => seq![],
            Operation::SetBufferMode => seq![Kind::Flag],
            Operation::GetBuffers => seq![],
            Operation::SetBuffers => seq![Kind::Signed],
            Operation::GetMaxSenders => seq![],
            Operation::SetMaxSenders => seq![Kind::Signed],
            Operation::CreateSender => seq![
                Kind::Address,
                Kind::Unsigned,
                Kind::Unsigned,
                Kind::Unsigned,
            ],
            Operation::UpdateSender => seq![Kind::Address, Kind::Unsigned, Kind::Unsigned],
            Operation::CreateReceiver => seq![
                Kind::Address,
                Kind::Address,
                Kind::Address,
                Kind::Flag,
            ],
            Operation::CheckReceiver => seq![
                Kind::Address,
                Kind::Address,
                Kind::Address,
                Kind::Address,
            ],
            Operation::GetDx9 => seq![],
            Operation::SetDx9 => seq![Kind::Flag],
            Operation::GetMemoryShareMode => seq![],
            Operation::SetMemoryShareMode => seq![Kind::Flag],
            Operation::GetCpuMode => seq![],
            Operation::SetCpuMode => seq![Kind::Flag],
            Operation::GetShareMode => seq![],
            Operation::SetShareMode => seq![Kind::Signed],
            Operation::SelectSenderPanel => seq![],
            Operation::GetHostPath => seq![Kind::Address, Kind::Address, Kind::Signed],
            Operation::GetVerticalSync => seq![],
            Operation::SetVerticalSync => seq![Kind::Flag],
            Operation::GetSpoutVersion => seq![],
            Operation::GetAutoShare => seq![],
            Operation::SetAutoShare => seq![Kind::Flag],
            Operation::IsGldxReady => seq![],
            Operation::GetNumAdapters => seq![],
            Operation::GetAdapterName => seq![Kind::Signed, Kind::Address, Kind::Signed],
            Operation::AdapterName => seq![],
            Operation::GetAdapter => seq![],
            Operation::GetPerformancePreference => seq![Kind::Address],
            Operation::SetPerformancePreference => seq![Kind::Signed, Kind::Address],
            Operation::GetPreferredAdapterName => seq![Kind::Signed, Kind::Address, Kind::Signed],
            Operation::SetPreferredAdapter => seq![Kind::Signed],
            Operation::IsPreferenceAvailable => seq![],
            Operation::IsApplicationPath => seq![Kind::Address],
            Operation::CreateOpengl => seq![],
            Operation::CloseOpengl => seq![],
            Operation::CopyTexture => seq![
                Kind::Unsigned,
                Kind::Unsigned,
                Kind::Unsigned,
                Kind::Unsigned,
                Kind::Unsigned,
                Kind::Unsigned,
                Kind::Flag,
                Kind::Unsigned,
            ],
            Operation::GetDx11Format => seq![],
            Operation::SetDx11Format => seq![],
            Operation::Dx11Format => seq![],
            Operation::GldxFormat => seq![],
            Operation::Glformat => seq![],
            Operation::GlFormatName => seq![],
            Operation::OpenDirectx => seq![],
            Operation::CloseDirectx => seq![],
            Operation::OpenDirectx11 => seq![Kind::Address],
            Operation::CloseDirectx11 => seq![],
            Operation::GetDx11Device => seq![],
            Operation::GetDx11Context => seq![],
            Operation::Release => seq![],
        }
    }

    /// The shapes of the arguments that this operation takes after the
    /// library's handle, in order.
    pub fn parameters(self) -> (shapes: Vec<Kind>)
        ensures
            shapes@ == self.spec_parameters(),
    {
        match self {
            Operation::SetSenderName => vec![Kind::Address],
            Operation::SetSenderFormat => vec![Kind::Unsigned],
            Operation::ReleaseSender => vec![Kind::Unsigned],
            Operation::SendFbo => vec![Kind::Unsigned, Kind::Unsigned, Kind::Unsigned, Kind::Flag],
            Operation::SendTexture => vec![
                Kind::Unsigned,
                Kind::Unsigned,
                Kind::Unsigned,
                Kind::Unsigned,
                Kind::Flag,
                Kind::Unsigned,
            ],
            Operation::SendImage => vec![
                Kind::Address,
                Kind::Unsigned,
                Kind::Unsigned,
                Kind::Unsigned,
                Kind::Flag,
            ],
            Operation::GetName => Vec::new(),
            Operation::GetWidth => Vec::new(),
            Operation::GetHeight => Vec::new(),
            Operation::GetFps => Vec::new(),
            Operation::GetFrame => Vec::new(),
            Operation::GetHandle => Vec::new(),
            Operation::GetCpu => Vec::new(),
            Operation::GetGldx => Vec::new(),
            Operation::SetReceiverName => vec![Kind::Address],
            Operation::ReleaseReceiver => Vec::new(),
            Operation::ReceiveTexture => vec![
                Kind::Unsigned,
                Kind::Unsigned,
                Kind::Flag,
                Kind::Unsigned,
            ],
            Operation::ReceiveImage => vec![
                Kind::Address,
                Kind::Unsigned,
                Kind::Flag,
                Kind::Unsigned,
            ],
            Operation::IsUpdated => Vec::new(),
            Operation::IsConnected => Vec::new(),
            Operation::IsFrameNew => Vec::new(),
            Operation::GetSenderName => Vec::new(),
            Operation::GetSenderWidth => Vec::new(),
            Operation::GetSenderHeight => Vec::new(),
            Operation::GetSenderFormat => Vec::new(),
            Operation::GetSenderFps => Vec::new(),
            Operation::GetSenderFrame => Vec::new(),
            Operation::GetSenderHandle => Vec::new(),
            Operation::GetSenderCpu => Vec::new(),
            Operation::GetSenderGldx => Vec::new(),
            Operation::SelectSender => Vec::new(),
            Operation::SetFrameCount => vec![Kind::Flag],
            Operation::DisableFrameCount => Vec::new(),
            Operation::IsFrameCountEnabled => Vec::new(),
            Operation::HoldFps => vec![Kind::Signed],
            Operation::GetRefreshRate => Vec::new(),
            Operation::SetFrameSync => vec![Kind::Address],
            Operation::WaitFrameSync => vec![Kind::Address, Kind::Unsigned],
            Operation::EnableFrameSync => vec![Kind::Flag],
            Operation::WriteMemoryBuffer => vec![Kind::Address, Kind::Address, Kind::Signed],
            Operation::ReadMemoryBuffer => vec![Kind::Address, Kind::Address, Kind::Signed],
            Operation::CreateMemoryBuffer => vec![Kind::Address, Kind::Signed],
            Operation::DeleteMemoryBuffer => Vec::new(),
            Operation::GetMemoryBufferSize => vec![Kind::Address],
            Operation::OpenSpoutConsole => Vec::new(),
            Operation::CloseSpoutConsole => vec![Kind::Flag],
            Operation::EnableSpoutLog => Vec::new(),
            Operation::EnableSpoutLogFile => vec![Kind::Address, Kind::Flag],
            Operation::GetSpoutLog => Vec::new(),
            Operation::ShowSpoutLogs => Vec::new(),
            Operation::DisableSpoutLog => Vec::new(),
            Operation::SetSpoutLogLevel => vec![Kind::Signed],
            Operation::SpoutLog => vec![Kind::Address],
            Operation::SpoutLogVerbose => vec![Kind::Address],
            Operation::SpoutLogNotice => vec![Kind::Address],
            Operation::SpoutLogWarning => vec![Kind::Address],
            Operation::SpoutLogError => vec![Kind::Address],
            Operation::SpoutLogFatal => vec![Kind::Address],
            Operation::SpoutMessageBox => vec![Kind::Address, Kind::Unsigned],
            Operation::SpoutMessageBoxIcon => Vec::new(),
            Operation::SpoutMessageBoxButton => Vec::new(),
            Operation::SpoutMessageBoxModeless => Vec::new(),
            Operation::SpoutMessageBoxWindow => Vec::new(),
            Operation::CopyToClipBoard => Vec::new(),
            Operation::ReadDwordFromRegistry => Vec::new(),
            Operation::WriteDwordToRegistry => Vec::new(),
            Operation::ReadPathFromRegistry => Vec::new(),
            Operation::WritePathToRegistry => Vec::new(),
            Operation::RemovePathFromRegistry => Vec::new(),
            Operation::RemoveSubKey => Vec::new(),
            Operation::FindSubKey => Vec::new(),
            Operation::GetSdkVersion => Vec::new(),
            Operation::IsLaptop => Vec::new(),
            Operation::StartTiming => Vec::new(),
            Operation::EndTiming => Vec::new(),
            Operation::IsInitialized => Vec::new(),
            Operation::BindSharedTexture => Vec::new(),
            Operation::UnBindSharedTexture => Vec::new(),
            Operation::GetSharedTextureId => Vec::new(),
            Operation::GetSenderCount => Vec::new(),
            Operation::GetSender => vec![Kind::Signed, Kind::Address, Kind::Signed],
            Operation::FindSenderName => vec![Kind::Address],
            Operation::GetSenderInfo => vec![
                Kind::Address,
                Kind::Address,
                Kind::Address,
                Kind::Address,
                Kind::Address,
            ],
            Operation::GetActiveSender => vec![Kind::Address],
            Operation::SetActiveSender => vec![Kind::Address],
            Operation::GetBufferMode => Vec::new(),
            Operation::SetBufferMode => vec![Kind::Flag],
            Operation::GetBuffers => Vec::new(),
            Operation::SetBuffers => vec![Kind::Signed],
            Operation::GetMaxSenders => Vec::new(),
            Operation::SetMaxSenders => vec![Kind::Signed],
            Operation::CreateSender => vec![
                Kind::Address,
                Kind::Unsigned,
                Kind::Unsigned,
                Kind::Unsigned,
            ],
            Operation::UpdateSender => vec![Kind::Address, Kind::Unsigned, Kind::Unsigned],
            Operation::CreateReceiver => vec![
                Kind::Address,
                Kind::Address,
                Kind::Address,
                Kind::Flag,
            ],
            Operation::CheckReceiver => vec![
                Kind::Address,
                Kind::Address,
                Kind::Address,
                Kind::Address,
            ],
            Operation::GetDx9 => Vec::new(),
            Operation::SetDx9 => vec![Kind::Flag],
            Operation::GetMemoryShareMode => Vec::new(),
            Operation::SetMemoryShareMode => vec![Kind::Flag],
            Operation::GetCpuMode => Vec::new(),
            Operation::SetCpuMode => vec![Kind::Flag],
            Operation::GetShareMode => Vec::new(),
            Operation::SetShareMode => vec![Kind::Signed],
            Operation::SelectSenderPanel => Vec::new(),
            Operation::GetHostPath => vec![Kind::Address, Kind::Address, Kind::Signed],
            Operation::GetVerticalSync => Vec::new(),
            Operation::SetVerticalSync => vec![Kind::Flag],
            Operation::GetSpoutVersion => Vec::new(),
            Operation::GetAutoShare => Vec::new(),
            Operation::SetAutoShare => vec![Kind::Flag],
            Operation::IsGldxReady => Vec::new(),
            Operation::GetNumAdapters => Vec::new(),
            Operation::GetAdapterName => vec![Kind::Signed, Kind::Address, Kind::Signed],
            Operation::AdapterName => Vec::new(),
            Operation::GetAdapter => Vec::new(),
            Operation::GetPerformancePreference => vec![Kind::Address],
            Operation::SetPerformancePreference => vec![Kind::Signed, Kind::Address],
            Operation::GetPreferredAdapterName => vec![Kind::Signed, Kind::Address, Kind::Signed],
            Operation::SetPreferredAdapter => vec![Kind::Signed],
            Operation::IsPreferenceAvailable => Vec::new(),
            Operation::IsApplicationPath => vec![Kind::Address],
            Operation::CreateOpengl => Vec::new(),
            Operation::CloseOpengl => Vec::new(),
            Operation::CopyTexture => vec![
                Kind::Unsigned,
                Kind::Unsigned,
                Kind::Unsigned,
                Kind::Unsigned,
                Kind::Unsigned,
                Kind::Unsigned,
                Kind::Flag,
                Kind::Unsigned,
            ],
            Operation::GetDx11Format => Vec::new(),
            Operation::SetDx11Format => Vec::new(),
            Operation::Dx11Format => Vec::new(),
            Operation::GldxFormat => Vec::new(),
            Operation::Glformat => Vec::new(),
            Operation::GlFormatName => Vec::new(),
            Operation::OpenDirectx => Vec::new(),
            Operation::CloseDirectx => Vec::new(),
            Operation::OpenDirectx11 => vec![Kind::Address],
            Operation::CloseDirectx11 => Vec::new(),
            Operation::GetDx11Device => Vec::new(),
            Operation::GetDx11Context => Vec::new(),
            Operation::Release => Vec::new(),
        }
    }

    /// The shape of what this operation answers with, if it answers at all.
    pub open spec fn spec_result(self) -> Option<Kind> {
        match self {
            Operation::SetSenderName => None,
            Operation::SetSenderFormat => None,
            Operation::ReleaseSender => None,
            Operation::SendFbo => Some(Kind::Flag),
            Operation::SendTexture => Some(Kind::Flag),
            Operation::SendImage => Some(Kind::Flag),
            Operation::GetName => Some(Kind::Address),
            Operation::GetWidth => Some(Kind::Unsigned),
            Operation::GetHeight => Some(Kind::Unsigned),
            Operation::GetFps => Some(Kind::Double),
            Operation::GetFrame => Some(Kind::Long),
            Operation::GetHandle => Some(Kind::Address),
            Operation::GetCpu => Some(Kind::Flag),
            Operation::GetGldx => Some(Kind::Flag),
            Operation::SetReceiverName => None,
            Operation::ReleaseReceiver => None,
            Operation::ReceiveTexture => Some(Kind::Flag),
            Operation::ReceiveImage => Some(Kind::Flag),
            Operation::IsUpdated => Some(Kind::Flag),
            Operation::IsConnected => Some(Kind::Flag),
            Operation::IsFrameNew => Some(Kind::Flag),
            Operation::GetSenderName => Some(Kind::Address),
            Operation::GetSenderWidth => Some(Kind::Unsigned),
            Operation::GetSenderHeight => Some(Kind::Unsigned),
            Operation::GetSenderFormat => Some(Kind::Unsigned),
            Operation::GetSenderFps => Some(Kind::Double),
            Operation::GetSenderFrame => Some(Kind::Long),
            Operation::GetSenderHandle => Some(Kind::Address),
            Operation::GetSenderCpu => Some(Kind::Flag),
            Operation::GetSenderGldx => Some(Kind::Flag),
            Operation::SelectSender => None,
            Operation::SetFrameCount => None,
            Operation::DisableFrameCount => None,
            Operation::IsFrameCountEnabled => None,
            Operation::HoldFps => None,
            Operation::GetRefreshRate => Some(Kind::Double),
            Operation::SetFrameSync => None,
            Operation::WaitFrameSync => Some(Kind::Flag),
            Operation::EnableFrameSync => None,
            Operation::WriteMemoryBuffer => Some(Kind::Flag),
            Operation::ReadMemoryBuffer => Some(Kind::Signed),
            Operation::CreateMemoryBuffer => Some(Kind::Flag),
            Operation::DeleteMemoryBuffer => Some(Kind::Flag),
            Operation::GetMemoryBufferSize => Some(Kind::Signed),
            Operation::OpenSpoutConsole => None,
            Operation::CloseSpoutConsole => None,
            Operation::EnableSpoutLog => None,
            Operation::EnableSpoutLogFile => None,
            Operation::GetSpoutLog => Some(Kind::Address),
            Operation::ShowSpoutLogs => None,
            Operation::DisableSpoutLog => None,
            Operation::SetSpoutLogLevel => None,
            Operation::SpoutLog => None,
            Operation::SpoutLogVerbose => None,
            Operation::SpoutLogNotice => None,
            Operation::SpoutLogWarning => None,
            Operation::SpoutLogError => None,
            Operation::SpoutLogFatal => None,
            Operation::SpoutMessageBox => Some(Kind::Signed),
            Operation::SpoutMessageBoxIcon => None,
            Operation::SpoutMessageBoxButton => None,
            Operation::SpoutMessageBoxModeless => None,
            Operation::SpoutMessageBoxWindow => None,
            Operation::CopyToClipBoard => Some(Kind::Flag),
            Operation::ReadDwordFromRegistry => Some(Kind::Flag),
            Operation::WriteDwordToRegistry => Some(Kind::Flag),
            Operation::ReadPathFromRegistry => Some(Kind::Flag),
            Operation::WritePathToRegistry => Some(Kind::Flag),
            Operation::RemovePathFromRegistry => Some(Kind::Flag),
            Operation::RemoveSubKey => Some(Kind::Flag),
            Operation::FindSubKey => Some(Kind::Flag),
            Operation::GetSdkVersion => Some(Kind::Address),
            Operation::IsLaptop => Some(Kind::Flag),
            Operation::StartTiming => None,
            Operation::EndTiming => Some(Kind::Double),
            Operation::IsInitialized => Some(Kind::Flag),
            Operation::BindSharedTexture => Some(Kind::Flag),
            Operation::UnBindSharedTexture => Some(Kind::Flag),
            Operation::GetSharedTextureId => Some(Kind::Unsigned),
            Operation::GetSenderCount => Some(Kind::Signed),
            Operation::GetSender => Some(Kind::Flag),
            Operation::FindSenderName => Some(Kind::Flag),
            Operation::GetSenderInfo => Some(Kind::Flag),
            Operation::GetActiveSender => Some(Kind::Flag),
            Operation::SetActiveSender => Some(Kind::Flag),
            Operation::GetBufferMode => Some(Kind::Flag),
            Operation::SetBufferMode => None,
            Operation::GetBuffers => Some(Kind::Signed),
            Operation::SetBuffers => None,
            Operation::GetMaxSenders => Some(Kind::Signed),
            Operation::SetMaxSenders => None,
            Operation::CreateSender => Some(Kind::Flag),
            Operation::UpdateSender => Some(Kind::Flag),
            Operation::CreateReceiver => Some(Kind::Flag),
            Operation::CheckReceiver => Some(Kind::Flag),
            Operation::GetDx9 => Some(Kind::Flag),
            Operation::SetDx9 => Some(Kind::Flag),
            Operation::GetMemoryShareMode => Some(Kind::Flag),
            Operation::SetMemoryShareMode => Some(Kind::Flag),
            Operation::GetCpuMode => Some(Kind::Flag),
            Operation::SetCpuMode => Some(Kind::Flag),
            Operation::GetShareMode => Some(Kind::Signed),
            Operation::SetShareMode => None,
            Operation::SelectSenderPanel => None,
            Operation::GetHostPath => Some(Kind::Flag),
            Operation::GetVerticalSync => Some(Kind::Signed),
            Operation::SetVerticalSync => Some(Kind::Flag),
            Operation::GetSpoutVersion => Some(Kind::Signed),
            Operation::GetAutoShare => Some(Kind::Flag),
            Operation::SetAutoShare => None,
            Operation::IsGldxReady => Some(Kind::Flag),
            Operation::GetNumAdapters => Some(Kind::Signed),
            Operation::GetAdapterName => Some(Kind::Flag),
            Operation::AdapterName => Some(Kind::Address),
            Operation::GetAdapter => Some(Kind::Signed),
            Operation::GetPerformancePreference => Some(Kind::Signed),
            Operation::SetPerformancePreference => Some(Kind::Flag),
            Operation::GetPreferredAdapterName => Some(Kind::Flag),
            Operation::SetPreferredAdapter => Some(Kind::Flag),
            Operation::IsPreferenceAvailable => Some(Kind::Flag),
            Operation::IsApplicationPath => Some(Kind::Flag),
            Operation::CreateOpengl => Some(Kind::Flag),
            Operation::CloseOpengl => Some(Kind::Flag),
            Operation::CopyTexture => None,
            Operation::GetDx11Format => None,
            Operation::SetDx11Format => None,
            Operation::Dx11Format => None,
            Operation::GldxFormat => None,
            Operation::Glformat => None,
            Operation::GlFormatName => None,
            Operation::OpenDirectx => Some(Kind::Flag),
            Operation::CloseDirectx => None,
            Operation::OpenDirectx11 => Some(Kind::Flag),
            Operation::CloseDirectx11 => None,
            Operation::GetDx11Device => Some(Kind::Address),
            Operation::GetDx11Context => Some(Kind::Address),
            Operation::Release => None,
        }
    }

    /// The shape of what this operation answers with, if it answers at all.
    #[verifier::when_used_as_spec(spec_result)]
    pub fn result(self) -> (shape: Option<Kind>)
        ensures
            shape == self.spec_result(),
    {
        match self {
            Operation::SetSenderName => None,
            Operation::SetSenderFormat => None,
            Operation::ReleaseSender => None,
            Operation::SendFbo => Some(Kind::Flag),
            Operation::SendTexture => Some(Kind::Flag),
            Operation::SendImage => Some(Kind::Flag),
            Operation::GetName => Some(Kind::Address),
            Operation::GetWidth => Some(Kind::Unsigned),
            Operation::GetHeight => Some(Kind::Unsigned),
            Operation::GetFps => Some(Kind::Double),
            Operation::GetFrame => Some(Kind::Long),
            Operation::GetHandle => Some(Kind::Address),
            Operation::GetCpu => Some(Kind::Flag),
            Operation::GetGldx => Some(Kind::Flag),
            Operation::SetReceiverName => None,
            Operation::ReleaseReceiver => None,
            Operation::ReceiveTexture => Some(Kind::Flag),
            Operation::ReceiveImage => Some(Kind::Flag),
            Operation::IsUpdated => Some(Kind::Flag),
            Operation::IsConnected => Some(Kind::Flag),
            Operation::IsFrameNew => Some(Kind::Flag),
            Operation::GetSenderName => Some(Kind::Address),
            Operation::GetSenderWidth => Some(Kind::Unsigned),
            Operation::GetSenderHeight => Some(Kind::Unsigned),
            Operation::GetSenderFormat => Some(Kind::Unsigned),
            Operation::GetSenderFps => Some(Kind::Double),
            Operation::GetSenderFrame => Some(Kind::Long),
            Operation::GetSenderHandle => Some(Kind::Address),
            Operation::GetSenderCpu => Some(Kind::Flag),
            Operation::GetSenderGldx => Some(Kind::Flag),
            Operation::SelectSender => None,
            Operation::SetFrameCount => None,
            Operation::DisableFrameCount => None,
            Operation::IsFrameCountEnabled => None,
            Operation::HoldFps => None,
            Operation::GetRefreshRate => Some(Kind::Double),
            Operation::SetFrameSync => None,
            Operation::WaitFrameSync => Some(Kind::Flag),
            Operation::EnableFrameSync => None,
            Operation::WriteMemoryBuffer => Some(Kind::Flag),
            Operation::ReadMemoryBuffer => Some(Kind::Signed),
            Operation::CreateMemoryBuffer => Some(Kind::Flag),
            Operation::DeleteMemoryBuffer => Some(Kind::Flag),
            Operation::GetMemoryBufferSize => Some(Kind::Signed),
            Operation::OpenSpoutConsole => None,
            Operation::CloseSpoutConsole => None,
            Operation::EnableSpoutLog => None,
            Operation::EnableSpoutLogFile => None,
            Operation::GetSpoutLog => Some(Kind::Address),
            Operation::ShowSpoutLogs => None,
            Operation::DisableSpoutLog => None,
            Operation::SetSpoutLogLevel => None,
            Operation::SpoutLog => None,
            Operation::SpoutLogVerbose => None,
            Operation::SpoutLogNotice => None,
            Operation::SpoutLogWarning => None,
            Operation::SpoutLogError => None,
            Operation::SpoutLogFatal => None,
            Operation::SpoutMessageBox => Some(Kind::Signed),
            Operation::SpoutMessageBoxIcon => None,
            Operation::SpoutMessageBoxButton => None,
            Operation::SpoutMessageBoxModeless => None,
            Operation::SpoutMessageBoxWindow => None,
            Operation::CopyToClipBoard => Some(Kind::Flag),
            Operation::ReadDwordFromRegistry => Some(Kind::Flag),
            Operation::WriteDwordToRegistry => Some(Kind::Flag),
            Operation::ReadPathFromRegistry => Some(Kind::Flag),
            Operation::WritePathToRegistry => Some(Kind::Flag),
            Operation::RemovePathFromRegistry => Some(Kind::Flag),
            Operation::RemoveSubKey => Some(Kind::Flag),
            Operation::FindSubKey => Some(Kind::Flag),
            Operation::GetSdkVersion => Some(Kind::Address),
            Operation::IsLaptop => Some(Kind::Flag),
            Operation::StartTiming => None,
            Operation::EndTiming => Some(Kind::Double),
            Operation::IsInitialized => Some(Kind::Flag),
            Operation::BindSharedTexture => Some(Kind::Flag),
            Operation::UnBindSharedTexture => Some(Kind::Flag),
            Operation::GetSharedTextureId => Some(Kind::Unsigned),
            Operation::GetSenderCount => Some(Kind::Signed),
            Operation::GetSender => Some(Kind::Flag),
            Operation::FindSenderName => Some(Kind::Flag),
            Operation::GetSenderInfo => Some(Kind::Flag),
            Operation::GetActiveSender => Some(Kind::Flag),
            Operation::SetActiveSender => Some(Kind::Flag),
            Operation::GetBufferMode => Some(Kind::Flag),
            Operation::SetBufferMode => None,
            Operation::GetBuffers => Some(Kind::Signed),
            Operation::SetBuffers => None,
            Operation::GetMaxSenders => Some(Kind::Signed),
            Operation::SetMaxSenders => None,
            Operation::CreateSender => Some(Kind::Flag),
            Operation::UpdateSender => Some(Kind::Flag),
            Operation::CreateReceiver => Some(Kind::Flag),
            Operation::CheckReceiver => Some(Kind::Flag),
            Operation::GetDx9 => Some(Kind::Flag),
            Operation::SetDx9 => Some(Kind::Flag),
            Operation::GetMemoryShareMode => Some(Kind::Flag),
            Operation::SetMemoryShareMode => Some(Kind::Flag),
            Operation::GetCpuMode => Some(Kind::Flag),
            Operation::SetCpuMode => Some(Kind::Flag),
            Operation::GetShareMode => Some(Kind::Signed),
            Operation::SetShareMode => None,
            Operation::SelectSenderPanel => None,
            Operation::GetHostPath => Some(Kind::Flag),
            Operation::GetVerticalSync => Some(Kind::Signed),
            Operation::SetVerticalSync => Some(Kind::Flag),
            Operation::GetSpoutVersion => Some(Kind::Signed),
            Operation::GetAutoShare => Some(Kind::Flag),
            Operation::SetAutoShare => None,
            Operation::IsGldxReady => Some(Kind::Flag),
            Operation::GetNumAdapters => Some(Kind::Signed),
            Operation::GetAdapterName => Some(Kind::Flag),
            Operation::AdapterName => Some(Kind::Address),
            Operation::GetAdapter => Some(Kind::Signed),
            Operation::GetPerformancePreference => Some(Kind::Signed),
            Operation::SetPerformancePreference => Some(Kind::Flag),
            Operation::GetPreferredAdapterName => Some(Kind::Flag),
            Operation::SetPreferredAdapter => Some(Kind::Flag),
            Operation::IsPreferenceAvailable => Some(Kind::Flag),
            Operation::IsApplicationPath => Some(Kind::Flag),
            Operation::CreateOpengl => Some(Kind::Flag),
            Operation::CloseOpengl => Some(Kind::Flag),
            Operation::CopyTexture => None,
            Operation::GetDx11Format => None,
            Operation::SetDx11Format => None,
            Operation::Dx11Format => None,
            Operation::GldxFormat => None,
            Operation::Glformat => None,
            Operation::GlFormatName => None,
            Operation::OpenDirectx => Some(Kind::Flag),
            Operation::CloseDirectx => None,
            Operation::OpenDirectx11 => Some(Kind::Flag),
            Operation::CloseDirectx11 => None,
            Operation::GetDx11Device => Some(Kind::Address),
            Operation::GetDx11Context => Some(Kind::Address),
            Operation::Release => None,
        }
    }

    /// Whether `args` has the number and the shapes of arguments that this
    /// operation is declared with.
    pub open spec fn admits(self, args: Seq<Value>) -> bool {
        kinds(args) == self.spec_parameters()
    }

    /// Tests whether `args` has the number and the shapes of arguments that
    /// this operation is declared with.
    pub fn admits_args(self, args: &Vec<Value>) -> (fits: bool)
        ensures
            fits == self.admits(args@),
    {
        let shapes = self.parameters();
        if shapes.len() != args.len() {
            return false;
        }
        let mut i: usize = 0;
        while i < args.len()
            invariant
                i <= args.len(),
                shapes.len() == args.len(),
                shapes@ == self.spec_parameters(),
                forall|j: int| 0 <= j < i ==> args@[j].kind() == shapes@[j],
            decreases args.len() - i,
        {
            if args[i].kind() != shapes[i] {
                assert(kinds(args@)[i as int] != self.spec_parameters()[i as int]);
                return false;
            }
            i += 1;
        }
        assert(kinds(args@) =~= self.spec_parameters());
        true
    }

    /// No two operations share a position of the table.
    pub proof fn lemma_slot_injective(a: Operation, b: Operation)
        requires
            a.slot() == b.slot(),
        ensures
            a == b,
    {
    }
}

} // verus!
