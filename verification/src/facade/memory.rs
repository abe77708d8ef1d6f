//! Shared memory buffers attached to a sender.

use vstd::prelude::*;
use crate::call::{accepts, returned, Call};
use crate::facade::Spout;
use crate::operation::Operation;
use crate::value::{kinds, Value};

verus! {

impl Spout {
    /// Calls the native `write_memory_buffer`.
    pub fn write_memory_buffer<F: FnOnce(Call) -> bool>(
        &self,
        sender_name: usize,
        data: usize,
        length: i32,
        native: F,
    ) -> (reply: bool)
        requires
            self.is_ready(),
            accepts(
                native,
                self.plan(
                    Operation::WriteMemoryBuffer,
                    seq![Value::Address(sender_name), Value::Address(data), Value::Signed(length)],
                ),
            ),
        ensures
            returned(
                native,
                self.plan(
                    Operation::WriteMemoryBuffer,
                    seq![Value::Address(sender_name), Value::Address(data), Value::Signed(length)],
                ),
                reply,
            ),
    {
        let args: Vec<Value> = vec![
            Value::Address(sender_name),
            Value::Address(data),
            Value::Signed(length),
        ];
        assert(args@ =~= seq![
            Value::Address(sender_name),
            Value::Address(data),
            Value::Signed(length),
        ]);
        assert(kinds(args@) =~= Operation::WriteMemoryBuffer.spec_parameters());
        self.dispatch(Operation::WriteMemoryBuffer, args, native)
    }

    /// Calls the native `read_memory_buffer`.
    pub fn read_memory_buffer<F: FnOnce(Call) -> i32>(
        &self,
        sender_name: usize,
        data: usize,
        max_length: i32,
        native: F,
    ) -> (reply: i32)
        requires
            self.is_ready(),
            accepts(
                native,
                self.plan(
                    Operation::ReadMemoryBuffer,
                    seq![
                        Value::Address(sender_name),
                        Value::Address(data),
                        Value::Signed(max_length),
                    ],
                ),
            ),
        ensures
            returned(
                native,
                self.plan(
                    Operation::ReadMemoryBuffer,
                    seq![
                        Value::Address(sender_name),
                        Value::Address(data),
                        Value::Signed(max_length),
                    ],
                ),
                reply,
            ),
    {
        let args: Vec<Value> = vec![
            Value::Address(sender_name),
            Value::Address(data),
            Value::Signed(max_length),
        ];
        assert(args@ =~= seq![
            Value::Address(sender_name),
            Value::Address(data),
            Value::Signed(max_length),
        ]);
        assert(kinds(args@) =~= Operation::ReadMemoryBuffer.spec_parameters());
        self.dispatch(Operation::ReadMemoryBuffer, args, native)
    }

    /// Calls the native `create_memory_buffer`.
    pub fn create_memory_buffer<F: FnOnce(Call) -> bool>(
        &self,
        name: usize,
        length: i32,
        native: F,
    ) -> (reply: bool)
        requires
            self.is_ready(),
            accepts(
                native,
                self.plan(
                    Operation::CreateMemoryBuffer,
                    seq![Value::Address(name), Value::Signed(length)],
                ),
            ),
        ensures
            returned(
                native,
                self.plan(
                    Operation::CreateMemoryBuffer,
                    seq![Value::Address(name), Value::Signed(length)],
                ),
                reply,
            ),
    {
        let args: Vec<Value> = vec![Value::Address(name), Value::Signed(length)];
        assert(args@ =~= seq![Value::Address(name), Value::Signed(length)]);
        assert(kinds(args@) =~= Operation::CreateMemoryBuffer.spec_parameters());
        self.dispatch(Operation::CreateMemoryBuffer, args, native)
    }

    /// Calls the native `delete_memory_buffer`.
    pub fn delete_memory_buffer<F: FnOnce(Call) -> bool>(&self, native: F) -> (reply: bool)
        requires
            self.is_ready(),
            accepts(native, self.plan(Operation::DeleteMemoryBuffer, Seq::empty())),
        ensures
            returned(native, self.plan(Operation::DeleteMemoryBuffer, Seq::empty()), reply),
    {
        let args: Vec<Value> = Vec::new();
        assert(kinds(args@) =~= Operation::DeleteMemoryBuffer.spec_parameters());
        self.dispatch(Operation::DeleteMemoryBuffer, args, native)
    }

    /// Calls the native `get_memory_buffer_size`.
    pub fn get_memory_buffer_size<F: FnOnce(Call) -> i32>(
        &self,
        name: usize,
        native: F,
    ) -> (reply: i32)
        requires
            self.is_ready(),
            accepts(native, self.plan(Operation::GetMemoryBufferSize, seq![Value::Address(name)])),
        ensures
            returned(
                native,
                self.plan(Operation::GetMemoryBufferSize, seq![Value::Address(name)]),
                reply,
            ),
    {
        let args: Vec<Value> = vec![Value::Address(name)];
        assert(args@ =~= seq![Value::Address(name)]);
        assert(kinds(args@) =~= Operation::GetMemoryBufferSize.spec_parameters());
        self.dispatch(Operation::GetMemoryBufferSize, args, native)
    }
}

} // verus!
