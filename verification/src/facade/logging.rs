//! The native console, the native log and message boxes.

use vstd::prelude::*;
use crate::call::{accepts, returned, Call};
use crate::facade::Spout;
use crate::level::SpoutLibLogLevel;
use crate::operation::Operation;
use crate::value::{kinds, Value};

verus! {

impl Spout {
    /// Calls the native `open_spout_console`.
    pub fn open_spout_console<F: FnOnce(Call)>(&self, native: F)
        requires
            self.is_ready(),
            accepts(native, self.plan(Operation::OpenSpoutConsole, Seq::empty())),
        ensures
            returned(native, self.plan(Operation::OpenSpoutConsole, Seq::empty()), ()),
    {
        let args: Vec<Value> = Vec::new();
        assert(kinds(args@) =~= Operation::OpenSpoutConsole.spec_parameters());
        self.dispatch(Operation::OpenSpoutConsole, args, native)
    }

    /// Calls the native `close_spout_console`.
    pub fn close_spout_console<F: FnOnce(Call)>(&self, warning: bool, native: F)
        requires
            self.is_ready(),
            accepts(native, self.plan(Operation::CloseSpoutConsole, seq![Value::Flag(warning)])),
        ensures
            returned(
                native,
                self.plan(Operation::CloseSpoutConsole, seq![Value::Flag(warning)]),
                (),
            ),
    {
        let args: Vec<Value> = vec![Value::Flag(warning)];
        assert(args@ =~= seq![Value::Flag(warning)]);
        assert(kinds(args@) =~= Operation::CloseSpoutConsole.spec_parameters());
        self.dispatch(Operation::CloseSpoutConsole, args, native)
    }

    /// Calls the native `enable_spout_log`.
    pub fn enable_spout_log<F: FnOnce(Call)>(&self, native: F)
        requires
            self.is_ready(),
            accepts(native, self.plan(Operation::EnableSpoutLog, Seq::empty())),
        ensures
            returned(native, self.plan(Operation::EnableSpoutLog, Seq::empty()), ()),
    {
        let args: Vec<Value> = Vec::new();
        assert(kinds(args@) =~= Operation::EnableSpoutLog.spec_parameters());
        self.dispatch(Operation::EnableSpoutLog, args, native)
    }

    /// Calls the native `enable_spout_log_file`.
    pub fn enable_spout_log_file<F: FnOnce(Call)>(&self, filename: usize, append: bool, native: F)
        requires
            self.is_ready(),
            accepts(
                native,
                self.plan(
                    Operation::EnableSpoutLogFile,
                    seq![Value::Address(filename), Value::Flag(append)],
                ),
            ),
        ensures
            returned(
                native,
                self.plan(
                    Operation::EnableSpoutLogFile,
                    seq![Value::Address(filename), Value::Flag(append)],
                ),
                (),
            ),
    {
        let args: Vec<Value> = vec![Value::Address(filename), Value::Flag(append)];
        assert(args@ =~= seq![Value::Address(filename), Value::Flag(append)]);
        assert(kinds(args@) =~= Operation::EnableSpoutLogFile.spec_parameters());
        self.dispatch(Operation::EnableSpoutLogFile, args, native)
    }

    /// Calls the native `show_spout_logs`.
    pub fn show_spout_logs<F: FnOnce(Call)>(&self, native: F)
        requires
            self.is_ready(),
            accepts(native, self.plan(Operation::ShowSpoutLogs, Seq::empty())),
        ensures
            returned(native, self.plan(Operation::ShowSpoutLogs, Seq::empty()), ()),
    {
        let args: Vec<Value> = Vec::new();
        assert(kinds(args@) =~= Operation::ShowSpoutLogs.spec_parameters());
        self.dispatch(Operation::ShowSpoutLogs, args, native)
    }

    /// Calls the native `disable_spout_log`.
    pub fn disable_spout_log<F: FnOnce(Call)>(&self, native: F)
        requires
            self.is_ready(),
            accepts(native, self.plan(Operation::DisableSpoutLog, Seq::empty())),
        ensures
            returned(native, self.plan(Operation::DisableSpoutLog, Seq::empty()), ()),
    {
        let args: Vec<Value> = Vec::new();
        assert(kinds(args@) =~= Operation::DisableSpoutLog.spec_parameters());
        self.dispatch(Operation::DisableSpoutLog, args, native)
    }

    /// Calls the native `set_spout_log_level`.
    pub fn set_spout_log_level<F: FnOnce(Call)>(&self, level: SpoutLibLogLevel, native: F)
        requires
            self.is_ready(),
            accepts(
                native,
                self.plan(Operation::SetSpoutLogLevel, seq![Value::Signed(level.raw())]),
            ),
        ensures
            returned(
                native,
                self.plan(Operation::SetSpoutLogLevel, seq![Value::Signed(level.raw())]),
                (),
            ),
    {
        let args: Vec<Value> = vec![Value::Signed(level.raw())];
        assert(args@ =~= seq![Value::Signed(level.raw())]);
        assert(kinds(args@) =~= Operation::SetSpoutLogLevel.spec_parameters());
        self.dispatch(Operation::SetSpoutLogLevel, args, native)
    }

    /// Calls the native `spout_log`.
    pub fn spout_log<F: FnOnce(Call)>(&self, format: usize, native: F)
        requires
            self.is_ready(),
            accepts(native, self.plan(Operation::SpoutLog, seq![Value::Address(format)])),
        ensures
            returned(native, self.plan(Operation::SpoutLog, seq![Value::Address(format)]), ()),
    {
        let args: Vec<Value> = vec![Value::Address(format)];
        assert(args@ =~= seq![Value::Address(format)]);
        assert(kinds(args@) =~= Operation::SpoutLog.spec_parameters());
        self.dispatch(Operation::SpoutLog, args, native)
    }

    /// Calls the native `spout_log_verbose`.
    pub fn spout_log_verbose<F: FnOnce(Call)>(&self, format: usize, native: F)
        requires
            self.is_ready(),
            accepts(native, self.plan(Operation::SpoutLogVerbose, seq![Value::Address(format)])),
        ensures
            returned(
                native,
                self.plan(Operation::SpoutLogVerbose, seq![Value::Address(format)]),
                (),
            ),
    {
        let args: Vec<Value> = vec![Value::Address(format)];
        assert(args@ =~= seq![Value::Address(format)]);
        assert(kinds(args@) =~= Operation::SpoutLogVerbose.spec_parameters());
        self.dispatch(Operation::SpoutLogVerbose, args, native)
    }

    /// Calls the native `spout_log_notice`.
    pub fn spout_log_notice<F: FnOnce(Call)>(&self, format: usize, native: F)
        requires
            self.is_ready(),
            accepts(native, self.plan(Operation::SpoutLogNotice, seq![Value::Address(format)])),
        ensures
            returned(
                native,
                self.plan(Operation::SpoutLogNotice, seq![Value::Address(format)]),
                (),
            ),
    {
        let args: Vec<Value> = vec![Value::Address(format)];
        assert(args@ =~= seq![Value::Address(format)]);
        assert(kinds(args@) =~= Operation::SpoutLogNotice.spec_parameters());
        self.dispatch(Operation::SpoutLogNotice, args, native)
    }

    /// Calls the native `spout_log_warning`.
    pub fn spout_log_warning<F: FnOnce(Call)>(&self, format: usize, native: F)
        requires
            self.is_ready(),
            accepts(native, self.plan(Operation::SpoutLogWarning, seq![Value::Address(format)])),
        ensures
            returned(
                native,
                self.plan(Operation::SpoutLogWarning, seq![Value::Address(format)]),
                (),
            ),
    {
        let args: Vec<Value> = vec![Value::Address(format)];
        assert(args@ =~= seq![Value::Address(format)]);
        assert(kinds(args@) =~= Operation::SpoutLogWarning.spec_parameters());
        self.dispatch(Operation::SpoutLogWarning, args, native)
    }

    /// Calls the native `spout_log_error`.
    pub fn spout_log_error<F: FnOnce(Call)>(&self, format: usize, native: F)
        requires
            self.is_ready(),
            accepts(native, self.plan(Operation::SpoutLogError, seq![Value::Address(format)])),
        ensures
            returned(native, self.plan(Operation::SpoutLogError, seq![Value::Address(format)]), ()),
    {
        let args: Vec<Value> = vec![Value::Address(format)];
        assert(args@ =~= seq![Value::Address(format)]);
        assert(kinds(args@) =~= Operation::SpoutLogError.spec_parameters());
        self.dispatch(Operation::SpoutLogError, args, native)
    }

    /// Calls the native `spout_log_fatal`.
    pub fn spout_log_fatal<F: FnOnce(Call)>(&self, format: usize, native: F)
        requires
            self.is_ready(),
            accepts(native, self.plan(Operation::SpoutLogFatal, seq![Value::Address(format)])),
        ensures
            returned(native, self.plan(Operation::SpoutLogFatal, seq![Value::Address(format)]), ()),
    {
        let args: Vec<Value> = vec![Value::Address(format)];
        assert(args@ =~= seq![Value::Address(format)]);
        assert(kinds(args@) =~= Operation::SpoutLogFatal.spec_parameters());
        self.dispatch(Operation::SpoutLogFatal, args, native)
    }

    /// Calls the native `spout_message_box`.
    pub fn spout_message_box<F: FnOnce(Call) -> i32>(
        &self,
        message: usize,
        milliseconds: u32,
        native: F,
    ) -> (reply: i32)
        requires
            self.is_ready(),
            accepts(
                native,
                self.plan(
                    Operation::SpoutMessageBox,
                    seq![Value::Address(message), Value::Unsigned(milliseconds)],
                ),
            ),
        ensures
            returned(
                native,
                self.plan(
                    Operation::SpoutMessageBox,
                    seq![Value::Address(message), Value::Unsigned(milliseconds)],
                ),
                reply,
            ),
    {
        let args: Vec<Value> = vec![Value::Address(message), Value::Unsigned(milliseconds)];
        assert(args@ =~= seq![Value::Address(message), Value::Unsigned(milliseconds)]);
        assert(kinds(args@) =~= Operation::SpoutMessageBox.spec_parameters());
        self.dispatch(Operation::SpoutMessageBox, args, native)
    }
}

} // verus!
