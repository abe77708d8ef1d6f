//! The list of senders known to the system.

use vstd::prelude::*;
use crate::call::{accepts, returned, Call};
use crate::facade::Spout;
use crate::operation::Operation;
use crate::value::{kinds, Value};

verus! {

impl Spout {
    /// Calls the native `get_sender_count`.
    pub fn get_sender_count<F: FnOnce(Call) -> i32>(&self, native: F) -> (reply: i32)
        requires
            self.is_ready(),
            accepts(native, self.plan(Operation::GetSenderCount, Seq::empty())),
        ensures
            returned(native, self.plan(Operation::GetSenderCount, Seq::empty()), reply),
    {
        let args: Vec<Value> = Vec::new();
        assert(kinds(args@) =~= Operation::GetSenderCount.spec_parameters());
        self.dispatch(Operation::GetSenderCount, args, native)
    }

    /// Calls the native `get_sender`.
    pub fn get_sender<F: FnOnce(Call) -> bool>(
        &self,
        index: i32,
        sender_name: usize,
        max_size: i32,
        native: F,
    ) -> (reply: bool)
        requires
            self.is_ready(),
            accepts(
                native,
                self.plan(
                    Operation::GetSender,
                    seq![
                        Value::Signed(index),
                        Value::Address(sender_name),
                        Value::Signed(max_size),
                    ],
                ),
            ),
        ensures
            returned(
                native,
                self.plan(
                    Operation::GetSender,
                    seq![
                        Value::Signed(index),
                        Value::Address(sender_name),
                        Value::Signed(max_size),
                    ],
                ),
                reply,
            ),
    {
        let args: Vec<Value> = vec![
            Value::Signed(index),
            Value::Address(sender_name),
            Value::Signed(max_size),
        ];
        assert(args@ =~= seq![
            Value::Signed(index),
            Value::Address(sender_name),
            Value::Signed(max_size),
        ]);
        assert(kinds(args@) =~= Operation::GetSender.spec_parameters());
        self.dispatch(Operation::GetSender, args, native)
    }

    /// Calls the native `find_sender_name`.
    pub fn find_sender_name<F: FnOnce(Call) -> bool>(
        &self,
        sender_name: usize,
        native: F,
    ) -> (reply: bool)
        requires
            self.is_ready(),
            accepts(
                native,
                self.plan(Operation::FindSenderName, seq![Value::Address(sender_name)]),
            ),
        ensures
            returned(
                native,
                self.plan(Operation::FindSenderName, seq![Value::Address(sender_name)]),
                reply,
            ),
    {
        let args: Vec<Value> = vec![Value::Address(sender_name)];
        assert(args@ =~= seq![Value::Address(sender_name)]);
        assert(kinds(args@) =~= Operation::FindSenderName.spec_parameters());
        self.dispatch(Operation::FindSenderName, args, native)
    }

    /// Calls the native `get_sender_info`.
    pub fn get_sender_info<F: FnOnce(Call) -> bool>(
        &self,
        sender_name: usize,
        width: usize,
        height: usize,
        dx_share_handle: usize,
        format: usize,
        native: F,
    ) -> (reply: bool)
        requires
            self.is_ready(),
            accepts(
                native,
                self.plan(
                    Operation::GetSenderInfo,
                    seq![
                        Value::Address(sender_name),
                        Value::Address(width),
                        Value::Address(height),
                        Value::Address(dx_share_handle),
                        Value::Address(format),
                    ],
                ),
            ),
        ensures
            returned(
                native,
                self.plan(
                    Operation::GetSenderInfo,
                    seq![
                        Value::Address(sender_name),
                        Value::Address(width),
                        Value::Address(height),
                        Value::Address(dx_share_handle),
                        Value::Address(format),
                    ],
                ),
                reply,
            ),
    {
        let args: Vec<Value> = vec![
            Value::Address(sender_name),
            Value::Address(width),
            Value::Address(height),
            Value::Address(dx_share_handle),
            Value::Address(format),
        ];
        assert(args@ =~= seq![
            Value::Address(sender_name),
            Value::Address(width),
            Value::Address(height),
            Value::Address(dx_share_handle),
            Value::Address(format),
        ]);
        assert(kinds(args@) =~= Operation::GetSenderInfo.spec_parameters());
        self.dispatch(Operation::GetSenderInfo, args, native)
    }

    /// Calls the native `get_active_sender`.
    pub fn get_active_sender<F: FnOnce(Call) -> bool>(
        &self,
        sender_name: usize,
        native: F,
    ) -> (reply: bool)
        requires
            self.is_ready(),
            accepts(
                native,
                self.plan(Operation::GetActiveSender, seq![Value::Address(sender_name)]),
            ),
        ensures
            returned(
                native,
                self.plan(Operation::GetActiveSender, seq![Value::Address(sender_name)]),
                reply,
            ),
    {
        let args: Vec<Value> = vec![Value::Address(sender_name)];
        assert(args@ =~= seq![Value::Address(sender_name)]);
        assert(kinds(args@) =~= Operation::GetActiveSender.spec_parameters());
        self.dispatch(Operation::GetActiveSender, args, native)
    }

    /// Calls the native `set_active_sender`.
    pub fn set_active_sender<F: FnOnce(Call) -> bool>(
        &self,
        sender_name: usize,
        native: F,
    ) -> (reply: bool)
        requires
            self.is_ready(),
            accepts(
                native,
                self.plan(Operation::SetActiveSender, seq![Value::Address(sender_name)]),
            ),
        ensures
            returned(
                native,
                self.plan(Operation::SetActiveSender, seq![Value::Address(sender_name)]),
                reply,
            ),
    {
        let args: Vec<Value> = vec![Value::Address(sender_name)];
        assert(args@ =~= seq![Value::Address(sender_name)]);
        assert(kinds(args@) =~= Operation::SetActiveSender.spec_parameters());
        self.dispatch(Operation::SetActiveSender, args, native)
    }
}

} // verus!
