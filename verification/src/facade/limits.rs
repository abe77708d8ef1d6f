//! Buffering and the number of senders.

use vstd::prelude::*;
use crate::call::{accepts, returned, Call};
use crate::facade::Spout;
use crate::operation::Operation;
use crate::value::{kinds, Value};

verus! {

impl Spout {
    /// Calls the native `get_buffer_mode`.
    pub fn get_buffer_mode<F: FnOnce(Call) -> bool>(&self, native: F) -> (reply: bool)
        requires
            self.is_ready(),
            accepts(native, self.plan(Operation::GetBufferMode, Seq::empty())),
        ensures
            returned(native, self.plan(Operation::GetBufferMode, Seq::empty()), reply),
    {
        let args: Vec<Value> = Vec::new();
        assert(kinds(args@) =~= Operation::GetBufferMode.spec_parameters());
        self.dispatch(Operation::GetBufferMode, args, native)
    }

    /// Calls the native `set_buffer_mode`.
    pub fn set_buffer_mode<F: FnOnce(Call)>(&self, active: bool, native: F)
        requires
            self.is_ready(),
            accepts(native, self.plan(Operation::SetBufferMode, seq![Value::Flag(active)])),
        ensures
            returned(native, self.plan(Operation::SetBufferMode, seq![Value::Flag(active)]), ()),
    {
        let args: Vec<Value> = vec![Value::Flag(active)];
        assert(args@ =~= seq![Value::Flag(active)]);
        assert(kinds(args@) =~= Operation::SetBufferMode.spec_parameters());
        self.dispatch(Operation::SetBufferMode, args, native)
    }

    /// Calls the native `get_buffers`.
    pub fn get_buffers<F: FnOnce(Call) -> i32>(&self, native: F) -> (reply: i32)
        requires
            self.is_ready(),
            accepts(native, self.plan(Operation::GetBuffers, Seq::empty())),
        ensures
            returned(native, self.plan(Operation::GetBuffers, Seq::empty()), reply),
    {
        let args: Vec<Value> = Vec::new();
        assert(kinds(args@) =~= Operation::GetBuffers.spec_parameters());
        self.dispatch(Operation::GetBuffers, args, native)
    }

    /// Calls the native `set_buffers`.
    pub fn set_buffers<F: FnOnce(Call)>(&self, n_buffers: i32, native: F)
        requires
            self.is_ready(),
            accepts(native, self.plan(Operation::SetBuffers, seq![Value::Signed(n_buffers)])),
        ensures
            returned(native, self.plan(Operation::SetBuffers, seq![Value::Signed(n_buffers)]), ()),
    {
        let args: Vec<Value> = vec![Value::Signed(n_buffers)];
        assert(args@ =~= seq![Value::Signed(n_buffers)]);
        assert(kinds(args@) =~= Operation::SetBuffers.spec_parameters());
        self.dispatch(Operation::SetBuffers, args, native)
    }

    /// Calls the native `get_max_senders`.
    pub fn get_max_senders<F: FnOnce(Call) -> i32>(&self, native: F) -> (reply: i32)
        requires
            self.is_ready(),
            accepts(native, self.plan(Operation::GetMaxSenders, Seq::empty())),
        ensures
            returned(native, self.plan(Operation::GetMaxSenders, Seq::empty()), reply),
    {
        let args: Vec<Value> = Vec::new();
        assert(kinds(args@) =~= Operation::GetMaxSenders.spec_parameters());
        self.dispatch(Operation::GetMaxSenders, args, native)
    }

    /// Calls the native `set_max_senders`.
    pub fn set_max_senders<F: FnOnce(Call)>(&self, max_senders: i32, native: F)
        requires
            self.is_ready(),
            accepts(native, self.plan(Operation::SetMaxSenders, seq![Value::Signed(max_senders)])),
        ensures
            returned(
                native,
                self.plan(Operation::SetMaxSenders, seq![Value::Signed(max_senders)]),
                (),
            ),
    {
        let args: Vec<Value> = vec![Value::Signed(max_senders)];
        assert(args@ =~= seq![Value::Signed(max_senders)]);
        assert(kinds(args@) =~= Operation::SetMaxSenders.spec_parameters());
        self.dispatch(Operation::SetMaxSenders, args, native)
    }
}

} // verus!
