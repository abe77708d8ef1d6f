//! Frame counting, frame rate and frame synchronisation.

use vstd::prelude::*;
use crate::call::{accepts, returned, Call};
use crate::facade::Spout;
use crate::operation::Operation;
use crate::value::{kinds, Value};

verus! {

impl Spout {
    /// Calls the native `set_frame_count`.
    pub fn set_frame_count<F: FnOnce(Call)>(&self, enable: bool, native: F)
        requires
            self.is_ready(),
            accepts(native, self.plan(Operation::SetFrameCount, seq![Value::Flag(enable)])),
        ensures
            returned(native, self.plan(Operation::SetFrameCount, seq![Value::Flag(enable)]), ()),
    {
        let args: Vec<Value> = vec![Value::Flag(enable)];
        assert(args@ =~= seq![Value::Flag(enable)]);
        assert(kinds(args@) =~= Operation::SetFrameCount.spec_parameters());
        self.dispatch(Operation::SetFrameCount, args, native)
    }

    /// Calls the native `disable_frame_count`.
    pub fn disable_frame_count<F: FnOnce(Call)>(&self, native: F)
        requires
            self.is_ready(),
            accepts(native, self.plan(Operation::DisableFrameCount, Seq::empty())),
        ensures
            returned(native, self.plan(Operation::DisableFrameCount, Seq::empty()), ()),
    {
        let args: Vec<Value> = Vec::new();
        assert(kinds(args@) =~= Operation::DisableFrameCount.spec_parameters());
        self.dispatch(Operation::DisableFrameCount, args, native)
    }

    /// Calls the native `is_frame_count_enabled`.
    pub fn is_frame_count_enabled<F: FnOnce(Call)>(&self, native: F)
        requires
            self.is_ready(),
            accepts(native, self.plan(Operation::IsFrameCountEnabled, Seq::empty())),
        ensures
            returned(native, self.plan(Operation::IsFrameCountEnabled, Seq::empty()), ()),
    {
        let args: Vec<Value> = Vec::new();
        assert(kinds(args@) =~= Operation::IsFrameCountEnabled.spec_parameters());
        self.dispatch(Operation::IsFrameCountEnabled, args, native)
    }

    /// Calls the native `hold_fps`.
    pub fn hold_fps<F: FnOnce(Call)>(&self, fps: i32, native: F)
        requires
            self.is_ready(),
            accepts(native, self.plan(Operation::HoldFps, seq![Value::Signed(fps)])),
        ensures
            returned(native, self.plan(Operation::HoldFps, seq![Value::Signed(fps)]), ()),
    {
        let args: Vec<Value> = vec![Value::Signed(fps)];
        assert(args@ =~= seq![Value::Signed(fps)]);
        assert(kinds(args@) =~= Operation::HoldFps.spec_parameters());
        self.dispatch(Operation::HoldFps, args, native)
    }

    /// Calls the native `get_refresh_rate`.
    /// The reply is the bit pattern of the double that the library returned.
    pub fn get_refresh_rate<F: FnOnce(Call) -> u64>(&self, native: F) -> (reply: u64)
        requires
            self.is_ready(),
            accepts(native, self.plan(Operation::GetRefreshRate, Seq::empty())),
        ensures
            returned(native, self.plan(Operation::GetRefreshRate, Seq::empty()), reply),
    {
        let args: Vec<Value> = Vec::new();
        assert(kinds(args@) =~= Operation::GetRefreshRate.spec_parameters());
        self.dispatch(Operation::GetRefreshRate, args, native)
    }

    /// Calls the native `set_frame_sync`.
    pub fn set_frame_sync<F: FnOnce(Call)>(&self, sender_name: usize, native: F)
        requires
            self.is_ready(),
            accepts(native, self.plan(Operation::SetFrameSync, seq![Value::Address(sender_name)])),
        ensures
            returned(
                native,
                self.plan(Operation::SetFrameSync, seq![Value::Address(sender_name)]),
                (),
            ),
    {
        let args: Vec<Value> = vec![Value::Address(sender_name)];
        assert(args@ =~= seq![Value::Address(sender_name)]);
        assert(kinds(args@) =~= Operation::SetFrameSync.spec_parameters());
        self.dispatch(Operation::SetFrameSync, args, native)
    }

    /// Calls the native `wait_frame_sync`.
    pub fn wait_frame_sync<F: FnOnce(Call) -> bool>(
        &self,
        sender_name: usize,
        timeout: u32,
        native: F,
    ) -> (reply: bool)
        requires
            self.is_ready(),
            accepts(
                native,
                self.plan(
                    Operation::WaitFrameSync,
                    seq![Value::Address(sender_name), Value::Unsigned(timeout)],
                ),
            ),
        ensures
            returned(
                native,
                self.plan(
                    Operation::WaitFrameSync,
                    seq![Value::Address(sender_name), Value::Unsigned(timeout)],
                ),
                reply,
            ),
    {
        let args: Vec<Value> = vec![Value::Address(sender_name), Value::Unsigned(timeout)];
        assert(args@ =~= seq![Value::Address(sender_name), Value::Unsigned(timeout)]);
        assert(kinds(args@) =~= Operation::WaitFrameSync.spec_parameters());
        self.dispatch(Operation::WaitFrameSync, args, native)
    }

    /// Calls the native `enable_frame_sync`.
    pub fn enable_frame_sync<F: FnOnce(Call)>(&self, sync: bool, native: F)
        requires
            self.is_ready(),
            accepts(native, self.plan(Operation::EnableFrameSync, seq![Value::Flag(sync)])),
        ensures
            returned(native, self.plan(Operation::EnableFrameSync, seq![Value::Flag(sync)]), ()),
    {
        let args: Vec<Value> = vec![Value::Flag(sync)];
        assert(args@ =~= seq![Value::Flag(sync)]);
        assert(kinds(args@) =~= Operation::EnableFrameSync.spec_parameters());
        self.dispatch(Operation::EnableFrameSync, args, native)
    }
}

} // verus!
