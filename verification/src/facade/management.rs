//! Senders and receivers by name, and how textures are shared.

use vstd::prelude::*;
use crate::call::{accepts, returned, Call};
use crate::facade::Spout;
use crate::operation::Operation;
use crate::value::{kinds, Value};

verus! {

impl Spout {
    /// Calls the native `create_sender`.
    pub fn create_sender<F: FnOnce(Call) -> bool>(
        &self,
        sender_name: usize,
        width: u32,
        height: u32,
        format: u32,
        native: F,
    ) -> (reply: bool)
        requires
            self.is_ready(),
            accepts(
                native,
                self.plan(
                    Operation::CreateSender,
                    seq![
                        Value::Address(sender_name),
                        Value::Unsigned(width),
                        Value::Unsigned(height),
                        Value::Unsigned(format),
                    ],
                ),
            ),
        ensures
            returned(
                native,
                self.plan(
                    Operation::CreateSender,
                    seq![
                        Value::Address(sender_name),
                        Value::Unsigned(width),
                        Value::Unsigned(height),
                        Value::Unsigned(format),
                    ],
                ),
                reply,
            ),
    {
        let args: Vec<Value> = vec![
            Value::Address(sender_name),
            Value::Unsigned(width),
            Value::Unsigned(height),
            Value::Unsigned(format),
        ];
        assert(args@ =~= seq![
            Value::Address(sender_name),
            Value::Unsigned(width),
            Value::Unsigned(height),
            Value::Unsigned(format),
        ]);
        assert(kinds(args@) =~= Operation::CreateSender.spec_parameters());
        self.dispatch(Operation::CreateSender, args, native)
    }

    /// Calls the native `update_sender`.
    pub fn update_sender<F: FnOnce(Call) -> bool>(
        &self,
        sender_name: usize,
        width: u32,
        height: u32,
        native: F,
    ) -> (reply: bool)
        requires
            self.is_ready(),
            accepts(
                native,
                self.plan(
                    Operation::UpdateSender,
                    seq![
                        Value::Address(sender_name),
                        Value::Unsigned(width),
                        Value::Unsigned(height),
                    ],
                ),
            ),
        ensures
            returned(
                native,
                self.plan(
                    Operation::UpdateSender,
                    seq![
                        Value::Address(sender_name),
                        Value::Unsigned(width),
                        Value::Unsigned(height),
                    ],
                ),
                reply,
            ),
    {
        let args: Vec<Value> = vec![
            Value::Address(sender_name),
            Value::Unsigned(width),
            Value::Unsigned(height),
        ];
        assert(args@ =~= seq![
            Value::Address(sender_name),
            Value::Unsigned(width),
            Value::Unsigned(height),
        ]);
        assert(kinds(args@) =~= Operation::UpdateSender.spec_parameters());
        self.dispatch(Operation::UpdateSender, args, native)
    }

    /// Calls the native `create_receiver`.
    pub fn create_receiver<F: FnOnce(Call) -> bool>(
        &self,
        sender_name: usize,
        width: usize,
        height: usize,
        use_active: bool,
        native: F,
    ) -> (reply: bool)
        requires
            self.is_ready(),
            accepts(
                native,
                self.plan(
                    Operation::CreateReceiver,
                    seq![
                        Value::Address(sender_name),
                        Value::Address(width),
                        Value::Address(height),
                        Value::Flag(use_active),
                    ],
                ),
            ),
        ensures
            returned(
                native,
                self.plan(
                    Operation::CreateReceiver,
                    seq![
                        Value::Address(sender_name),
                        Value::Address(width),
                        Value::Address(height),
                        Value::Flag(use_active),
                    ],
                ),
                reply,
            ),
    {
        let args: Vec<Value> = vec![
            Value::Address(sender_name),
            Value::Address(width),
            Value::Address(height),
            Value::Flag(use_active),
        ];
        assert(args@ =~= seq![
            Value::Address(sender_name),
            Value::Address(width),
            Value::Address(height),
            Value::Flag(use_active),
        ]);
        assert(kinds(args@) =~= Operation::CreateReceiver.spec_parameters());
        self.dispatch(Operation::CreateReceiver, args, native)
    }

    /// Calls the native `check_receiver`.
    pub fn check_receiver<F: FnOnce(Call) -> bool>(
        &self,
        sender_name: usize,
        width: usize,
        height: usize,
        connected: usize,
        native: F,
    ) -> (reply: bool)
        requires
            self.is_ready(),
            accepts(
                native,
                self.plan(
                    Operation::CheckReceiver,
                    seq![
                        Value::Address(sender_name),
                        Value::Address(width),
                        Value::Address(height),
                        Value::Address(connected),
                    ],
                ),
            ),
        ensures
            returned(
                native,
                self.plan(
                    Operation::CheckReceiver,
                    seq![
                        Value::Address(sender_name),
                        Value::Address(width),
                        Value::Address(height),
                        Value::Address(connected),
                    ],
                ),
                reply,
            ),
    {
        let args: Vec<Value> = vec![
            Value::Address(sender_name),
            Value::Address(width),
            Value::Address(height),
            Value::Address(connected),
        ];
        assert(args@ =~= seq![
            Value::Address(sender_name),
            Value::Address(width),
            Value::Address(height),
            Value::Address(connected),
        ]);
        assert(kinds(args@) =~= Operation::CheckReceiver.spec_parameters());
        self.dispatch(Operation::CheckReceiver, args, native)
    }

    /// Calls the native `get_dx9`.
    pub fn get_dx9<F: FnOnce(Call) -> bool>(&self, native: F) -> (reply: bool)
        requires
            self.is_ready(),
            accepts(native, self.plan(Operation::GetDx9, Seq::empty())),
        ensures
            returned(native, self.plan(Operation::GetDx9, Seq::empty()), reply),
    {
        let args: Vec<Value> = Vec::new();
        assert(kinds(args@) =~= Operation::GetDx9.spec_parameters());
        self.dispatch(Operation::GetDx9, args, native)
    }

    /// Calls the native `set_dx9`.
    pub fn set_dx9<F: FnOnce(Call) -> bool>(&self, dx9: bool, native: F) -> (reply: bool)
        requires
            self.is_ready(),
            accepts(native, self.plan(Operation::SetDx9, seq![Value::Flag(dx9)])),
        ensures
            returned(native, self.plan(Operation::SetDx9, seq![Value::Flag(dx9)]), reply),
    {
        let args: Vec<Value> = vec![Value::Flag(dx9)];
        assert(args@ =~= seq![Value::Flag(dx9)]);
        assert(kinds(args@) =~= Operation::SetDx9.spec_parameters());
        self.dispatch(Operation::SetDx9, args, native)
    }

    /// Calls the native `get_memory_share_mode`.
    pub fn get_memory_share_mode<F: FnOnce(Call) -> bool>(&self, native: F) -> (reply: bool)
        requires
            self.is_ready(),
            accepts(native, self.plan(Operation::GetMemoryShareMode, Seq::empty())),
        ensures
            returned(native, self.plan(Operation::GetMemoryShareMode, Seq::empty()), reply),
    {
        let args: Vec<Value> = Vec::new();
        assert(kinds(args@) =~= Operation::GetMemoryShareMode.spec_parameters());
        self.dispatch(Operation::GetMemoryShareMode, args, native)
    }

    /// Calls the native `set_memory_share_mode`.
    pub fn set_memory_share_mode<F: FnOnce(Call) -> bool>(
        &self,
        mem: bool,
        native: F,
    ) -> (reply: bool)
        requires
            self.is_ready(),
            accepts(native, self.plan(Operation::SetMemoryShareMode, seq![Value::Flag(mem)])),
        ensures
            returned(
                native,
                self.plan(Operation::SetMemoryShareMode, seq![Value::Flag(mem)]),
                reply,
            ),
    {
        let args: Vec<Value> = vec![Value::Flag(mem)];
        assert(args@ =~= seq![Value::Flag(mem)]);
        assert(kinds(args@) =~= Operation::SetMemoryShareMode.spec_parameters());
        self.dispatch(Operation::SetMemoryShareMode, args, native)
    }

    /// Calls the native `get_cpu_mode`.
    pub fn get_cpu_mode<F: FnOnce(Call) -> bool>(&self, native: F) -> (reply: bool)
        requires
            self.is_ready(),
            accepts(native, self.plan(Operation::GetCpuMode, Seq::empty())),
        ensures
            returned(native, self.plan(Operation::GetCpuMode, Seq::empty()), reply),
    {
        let args: Vec<Value> = Vec::new();
        assert(kinds(args@) =~= Operation::GetCpuMode.spec_parameters());
        self.dispatch(Operation::GetCpuMode, args, native)
    }

    /// Calls the native `set_cpu_mode`.
    pub fn set_cpu_mode<F: FnOnce(Call) -> bool>(&self, cpu: bool, native: F) -> (reply: bool)
        requires
            self.is_ready(),
            accepts(native, self.plan(Operation::SetCpuMode, seq![Value::Flag(cpu)])),
        ensures
            returned(native, self.plan(Operation::SetCpuMode, seq![Value::Flag(cpu)]), reply),
    {
        let args: Vec<Value> = vec![Value::Flag(cpu)];
        assert(args@ =~= seq![Value::Flag(cpu)]);
        assert(kinds(args@) =~= Operation::SetCpuMode.spec_parameters());
        self.dispatch(Operation::SetCpuMode, args, native)
    }

    /// Calls the native `get_share_mode`.
    pub fn get_share_mode<F: FnOnce(Call) -> i32>(&self, native: F) -> (reply: i32)
        requires
            self.is_ready(),
            accepts(native, self.plan(Operation::GetShareMode, Seq::empty())),
        ensures
            returned(native, self.plan(Operation::GetShareMode, Seq::empty()), reply),
    {
        let args: Vec<Value> = Vec::new();
        assert(kinds(args@) =~= Operation::GetShareMode.spec_parameters());
        self.dispatch(Operation::GetShareMode, args, native)
    }

    /// Calls the native `set_share_mode`.
    pub fn set_share_mode<F: FnOnce(Call)>(&self, mode: i32, native: F)
        requires
            self.is_ready(),
            accepts(native, self.plan(Operation::SetShareMode, seq![Value::Signed(mode)])),
        ensures
            returned(native, self.plan(Operation::SetShareMode, seq![Value::Signed(mode)]), ()),
    {
        let args: Vec<Value> = vec![Value::Signed(mode)];
        assert(args@ =~= seq![Value::Signed(mode)]);
        assert(kinds(args@) =~= Operation::SetShareMode.spec_parameters());
        self.dispatch(Operation::SetShareMode, args, native)
    }

    /// Calls the native `select_sender_panel`.
    pub fn select_sender_panel<F: FnOnce(Call)>(&self, native: F)
        requires
            self.is_ready(),
            accepts(native, self.plan(Operation::SelectSenderPanel, Seq::empty())),
        ensures
            returned(native, self.plan(Operation::SelectSenderPanel, Seq::empty()), ()),
    {
        let args: Vec<Value> = Vec::new();
        assert(kinds(args@) =~= Operation::SelectSenderPanel.spec_parameters());
        self.dispatch(Operation::SelectSenderPanel, args, native)
    }

    /// Calls the native `get_auto_share`.
    pub fn get_auto_share<F: FnOnce(Call) -> bool>(&self, native: F) -> (reply: bool)
        requires
            self.is_ready(),
            accepts(native, self.plan(Operation::GetAutoShare, Seq::empty())),
        ensures
            returned(native, self.plan(Operation::GetAutoShare, Seq::empty()), reply),
    {
        let args: Vec<Value> = Vec::new();
        assert(kinds(args@) =~= Operation::GetAutoShare.spec_parameters());
        self.dispatch(Operation::GetAutoShare, args, native)
    }

    /// Calls the native `set_auto_share`.
    pub fn set_auto_share<F: FnOnce(Call)>(&self, auto: bool, native: F)
        requires
            self.is_ready(),
            accepts(native, self.plan(Operation::SetAutoShare, seq![Value::Flag(auto)])),
        ensures
            returned(native, self.plan(Operation::SetAutoShare, seq![Value::Flag(auto)]), ()),
    {
        let args: Vec<Value> = vec![Value::Flag(auto)];
        assert(args@ =~= seq![Value::Flag(auto)]);
        assert(kinds(args@) =~= Operation::SetAutoShare.spec_parameters());
        self.dispatch(Operation::SetAutoShare, args, native)
    }

    /// Calls the native `is_gldx_ready`.
    pub fn is_gldx_ready<F: FnOnce(Call) -> bool>(&self, native: F) -> (reply: bool)
        requires
            self.is_ready(),
            accepts(native, self.plan(Operation::IsGldxReady, Seq::empty())),
        ensures
            returned(native, self.plan(Operation::IsGldxReady, Seq::empty()), reply),
    {
        let args: Vec<Value> = Vec::new();
        assert(kinds(args@) =~= Operation::IsGldxReady.spec_parameters());
        self.dispatch(Operation::IsGldxReady, args, native)
    }
}

} // verus!
