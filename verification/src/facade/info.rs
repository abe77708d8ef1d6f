//! Facts about the library and its host, and timing.

use vstd::prelude::*;
use crate::call::{accepts, returned, Call};
use crate::facade::Spout;
use crate::operation::Operation;
use crate::value::{kinds, Value};

verus! {

impl Spout {
    /// Calls the native `get_sdk_version`.
    /// The reply is the address that the library returned.
    pub fn get_sdk_version<F: FnOnce(Call) -> usize>(&self, native: F) -> (reply: usize)
        requires
            self.is_ready(),
            accepts(native, self.plan(Operation::GetSdkVersion, Seq::empty())),
        ensures
            returned(native, self.plan(Operation::GetSdkVersion, Seq::empty()), reply),
    {
        let args: Vec<Value> = Vec::new();
        assert(kinds(args@) =~= Operation::GetSdkVersion.spec_parameters());
        self.dispatch(Operation::GetSdkVersion, args, native)
    }

    /// Calls the native `is_laptop`.
    pub fn is_laptop<F: FnOnce(Call) -> bool>(&self, native: F) -> (reply: bool)
        requires
            self.is_ready(),
            accepts(native, self.plan(Operation::IsLaptop, Seq::empty())),
        ensures
            returned(native, self.plan(Operation::IsLaptop, Seq::empty()), reply),
    {
        let args: Vec<Value> = Vec::new();
        assert(kinds(args@) =~= Operation::IsLaptop.spec_parameters());
        self.dispatch(Operation::IsLaptop, args, native)
    }

    /// Calls the native `start_timing`.
    pub fn start_timing<F: FnOnce(Call)>(&self, native: F)
        requires
            self.is_ready(),
            accepts(native, self.plan(Operation::StartTiming, Seq::empty())),
        ensures
            returned(native, self.plan(Operation::StartTiming, Seq::empty()), ()),
    {
        let args: Vec<Value> = Vec::new();
        assert(kinds(args@) =~= Operation::StartTiming.spec_parameters());
        self.dispatch(Operation::StartTiming, args, native)
    }

    /// Calls the native `end_timing`.
    /// The reply is the bit pattern of the double that the library returned.
    pub fn end_timing<F: FnOnce(Call) -> u64>(&self, native: F) -> (reply: u64)
        requires
            self.is_ready(),
            accepts(native, self.plan(Operation::EndTiming, Seq::empty())),
        ensures
            returned(native, self.plan(Operation::EndTiming, Seq::empty()), reply),
    {
        let args: Vec<Value> = Vec::new();
        assert(kinds(args@) =~= Operation::EndTiming.spec_parameters());
        self.dispatch(Operation::EndTiming, args, native)
    }

    /// Calls the native `get_host_path`.
    pub fn get_host_path<F: FnOnce(Call) -> bool>(
        &self,
        sender_name: usize,
        host_path: usize,
        max_chars: i32,
        native: F,
    ) -> (reply: bool)
        requires
            self.is_ready(),
            accepts(
                native,
                self.plan(
                    Operation::GetHostPath,
                    seq![
                        Value::Address(sender_name),
                        Value::Address(host_path),
                        Value::Signed(max_chars),
                    ],
                ),
            ),
        ensures
            returned(
                native,
                self.plan(
                    Operation::GetHostPath,
                    seq![
                        Value::Address(sender_name),
                        Value::Address(host_path),
                        Value::Signed(max_chars),
                    ],
                ),
                reply,
            ),
    {
        let args: Vec<Value> = vec![
            Value::Address(sender_name),
            Value::Address(host_path),
            Value::Signed(max_chars),
        ];
        assert(args@ =~= seq![
            Value::Address(sender_name),
            Value::Address(host_path),
            Value::Signed(max_chars),
        ]);
        assert(kinds(args@) =~= Operation::GetHostPath.spec_parameters());
        self.dispatch(Operation::GetHostPath, args, native)
    }

    /// Calls the native `get_vertical_sync`.
    pub fn get_vertical_sync<F: FnOnce(Call) -> i32>(&self, native: F) -> (reply: i32)
        requires
            self.is_ready(),
            accepts(native, self.plan(Operation::GetVerticalSync, Seq::empty())),
        ensures
            returned(native, self.plan(Operation::GetVerticalSync, Seq::empty()), reply),
    {
        let args: Vec<Value> = Vec::new();
        assert(kinds(args@) =~= Operation::GetVerticalSync.spec_parameters());
        self.dispatch(Operation::GetVerticalSync, args, native)
    }

    /// Calls the native `set_vertical_sync`.
    pub fn set_vertical_sync<F: FnOnce(Call) -> bool>(&self, sync: bool, native: F) -> (reply: bool)
        requires
            self.is_ready(),
            accepts(native, self.plan(Operation::SetVerticalSync, seq![Value::Flag(sync)])),
        ensures
            returned(native, self.plan(Operation::SetVerticalSync, seq![Value::Flag(sync)]), reply),
    {
        let args: Vec<Value> = vec![Value::Flag(sync)];
        assert(args@ =~= seq![Value::Flag(sync)]);
        assert(kinds(args@) =~= Operation::SetVerticalSync.spec_parameters());
        self.dispatch(Operation::SetVerticalSync, args, native)
    }

    /// Calls the native `get_spout_version`.
    pub fn get_spout_version<F: FnOnce(Call) -> i32>(&self, native: F) -> (reply: i32)
        requires
            self.is_ready(),
            accepts(native, self.plan(Operation::GetSpoutVersion, Seq::empty())),
        ensures
            returned(native, self.plan(Operation::GetSpoutVersion, Seq::empty()), reply),
    {
        let args: Vec<Value> = Vec::new();
        assert(kinds(args@) =~= Operation::GetSpoutVersion.spec_parameters());
        self.dispatch(Operation::GetSpoutVersion, args, native)
    }
}

} // verus!
