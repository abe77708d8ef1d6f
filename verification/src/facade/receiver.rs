//! Operations of the receiving side.

use vstd::prelude::*;
use crate::call::{accepts, returned, Call};
use crate::facade::Spout;
use crate::operation::Operation;
use crate::value::{kinds, Value};
use gl::types::{GLenum, GLuint};

verus! {

impl Spout {
    /// Calls the native `set_receiver_name`.
    pub fn set_receiver_name<F: FnOnce(Call)>(&self, sendername: usize, native: F)
        requires
            self.is_ready(),
            accepts(
                native,
                self.plan(Operation::SetReceiverName, seq![Value::Address(sendername)]),
            ),
        ensures
            returned(
                native,
                self.plan(Operation::SetReceiverName, seq![Value::Address(sendername)]),
                (),
            ),
    {
        let args: Vec<Value> = vec![Value::Address(sendername)];
        assert(args@ =~= seq![Value::Address(sendername)]);
        assert(kinds(args@) =~= Operation::SetReceiverName.spec_parameters());
        self.dispatch(Operation::SetReceiverName, args, native)
    }

    /// Calls the native `release_receiver`.
    pub fn release_receiver<F: FnOnce(Call)>(&self, native: F)
        requires
            self.is_ready(),
            accepts(native, self.plan(Operation::ReleaseReceiver, Seq::empty())),
        ensures
            returned(native, self.plan(Operation::ReleaseReceiver, Seq::empty()), ()),
    {
        let args: Vec<Value> = Vec::new();
        assert(kinds(args@) =~= Operation::ReleaseReceiver.spec_parameters());
        self.dispatch(Operation::ReleaseReceiver, args, native)
    }

    /// Calls the native `receive_texture`.
    pub fn receive_texture<F: FnOnce(Call) -> bool>(
        &self,
        texture_id: GLuint,
        texture_target: GLuint,
        invert: bool,
        host_fbo: GLuint,
        native: F,
    ) -> (reply: bool)
        requires
            self.is_ready(),
            accepts(
                native,
                self.plan(
                    Operation::ReceiveTexture,
                    seq![
                        Value::Unsigned(texture_id),
                        Value::Unsigned(texture_target),
                        Value::Flag(invert),
                        Value::Unsigned(host_fbo),
                    ],
                ),
            ),
        ensures
            returned(
                native,
                self.plan(
                    Operation::ReceiveTexture,
                    seq![
                        Value::Unsigned(texture_id),
                        Value::Unsigned(texture_target),
                        Value::Flag(invert),
                        Value::Unsigned(host_fbo),
                    ],
                ),
                reply,
            ),
    {
        let args: Vec<Value> = vec![
            Value::Unsigned(texture_id),
            Value::Unsigned(texture_target),
            Value::Flag(invert),
            Value::Unsigned(host_fbo),
        ];
        assert(args@ =~= seq![
            Value::Unsigned(texture_id),
            Value::Unsigned(texture_target),
            Value::Flag(invert),
            Value::Unsigned(host_fbo),
        ]);
        assert(kinds(args@) =~= Operation::ReceiveTexture.spec_parameters());
        self.dispatch(Operation::ReceiveTexture, args, native)
    }

    /// Calls the native `receive_image`.
    pub fn receive_image<F: FnOnce(Call) -> bool>(
        &self,
        pixels: usize,
        format: GLenum,
        invert: bool,
        host_fbo: GLuint,
        native: F,
    ) -> (reply: bool)
        requires
            self.is_ready(),
            accepts(
                native,
                self.plan(
                    Operation::ReceiveImage,
                    seq![
                        Value::Address(pixels),
                        Value::Unsigned(format),
                        Value::Flag(invert),
                        Value::Unsigned(host_fbo),
                    ],
                ),
            ),
        ensures
            returned(
                native,
                self.plan(
                    Operation::ReceiveImage,
                    seq![
                        Value::Address(pixels),
                        Value::Unsigned(format),
                        Value::Flag(invert),
                        Value::Unsigned(host_fbo),
                    ],
                ),
                reply,
            ),
    {
        let args: Vec<Value> = vec![
            Value::Address(pixels),
            Value::Unsigned(format),
            Value::Flag(invert),
            Value::Unsigned(host_fbo),
        ];
        assert(args@ =~= seq![
            Value::Address(pixels),
            Value::Unsigned(format),
            Value::Flag(invert),
            Value::Unsigned(host_fbo),
        ]);
        assert(kinds(args@) =~= Operation::ReceiveImage.spec_parameters());
        self.dispatch(Operation::ReceiveImage, args, native)
    }

    /// Calls the native `is_updated`.
    pub fn is_updated<F: FnOnce(Call) -> bool>(&self, native: F) -> (reply: bool)
        requires
            self.is_ready(),
            accepts(native, self.plan(Operation::IsUpdated, Seq::empty())),
        ensures
            returned(native, self.plan(Operation::IsUpdated, Seq::empty()), reply),
    {
        let args: Vec<Value> = Vec::new();
        assert(kinds(args@) =~= Operation::IsUpdated.spec_parameters());
        self.dispatch(Operation::IsUpdated, args, native)
    }

    /// Calls the native `is_connected`.
    pub fn is_connected<F: FnOnce(Call) -> bool>(&self, native: F) -> (reply: bool)
        requires
            self.is_ready(),
            accepts(native, self.plan(Operation::IsConnected, Seq::empty())),
        ensures
            returned(native, self.plan(Operation::IsConnected, Seq::empty()), reply),
    {
        let args: Vec<Value> = Vec::new();
        assert(kinds(args@) =~= Operation::IsConnected.spec_parameters());
        self.dispatch(Operation::IsConnected, args, native)
    }

    /// Calls the native `is_frame_new`.
    pub fn is_frame_new<F: FnOnce(Call) -> bool>(&self, native: F) -> (reply: bool)
        requires
            self.is_ready(),
            accepts(native, self.plan(Operation::IsFrameNew, Seq::empty())),
        ensures
            returned(native, self.plan(Operation::IsFrameNew, Seq::empty()), reply),
    {
        let args: Vec<Value> = Vec::new();
        assert(kinds(args@) =~= Operation::IsFrameNew.spec_parameters());
        self.dispatch(Operation::IsFrameNew, args, native)
    }

    /// Calls the native `get_sender_name`.
    /// The reply is the address that the library returned.
    pub fn get_sender_name<F: FnOnce(Call) -> usize>(&self, native: F) -> (reply: usize)
        requires
            self.is_ready(),
            accepts(native, self.plan(Operation::GetSenderName, Seq::empty())),
        ensures
            returned(native, self.plan(Operation::GetSenderName, Seq::empty()), reply),
    {
        let args: Vec<Value> = Vec::new();
        assert(kinds(args@) =~= Operation::GetSenderName.spec_parameters());
        self.dispatch(Operation::GetSenderName, args, native)
    }

    /// Calls the native `get_sender_width`.
    pub fn get_sender_width<F: FnOnce(Call) -> u32>(&self, native: F) -> (reply: u32)
        requires
            self.is_ready(),
            accepts(native, self.plan(Operation::GetSenderWidth, Seq::empty())),
        ensures
            returned(native, self.plan(Operation::GetSenderWidth, Seq::empty()), reply),
    {
        let args: Vec<Value> = Vec::new();
        assert(kinds(args@) =~= Operation::GetSenderWidth.spec_parameters());
        self.dispatch(Operation::GetSenderWidth, args, native)
    }

    /// Calls the native `get_sender_height`.
    pub fn get_sender_height<F: FnOnce(Call) -> u32>(&self, native: F) -> (reply: u32)
        requires
            self.is_ready(),
            accepts(native, self.plan(Operation::GetSenderHeight, Seq::empty())),
        ensures
            returned(native, self.plan(Operation::GetSenderHeight, Seq::empty()), reply),
    {
        let args: Vec<Value> = Vec::new();
        assert(kinds(args@) =~= Operation::GetSenderHeight.spec_parameters());
        self.dispatch(Operation::GetSenderHeight, args, native)
    }

    /// Calls the native `get_sender_format`.
    pub fn get_sender_format<F: FnOnce(Call) -> u32>(&self, native: F) -> (reply: u32)
        requires
            self.is_ready(),
            accepts(native, self.plan(Operation::GetSenderFormat, Seq::empty())),
        ensures
            returned(native, self.plan(Operation::GetSenderFormat, Seq::empty()), reply),
    {
        let args: Vec<Value> = Vec::new();
        assert(kinds(args@) =~= Operation::GetSenderFormat.spec_parameters());
        self.dispatch(Operation::GetSenderFormat, args, native)
    }

    /// Calls the native `get_sender_fps`.
    /// The reply is the bit pattern of the double that the library returned.
    pub fn get_sender_fps<F: FnOnce(Call) -> u64>(&self, native: F) -> (reply: u64)
        requires
            self.is_ready(),
            accepts(native, self.plan(Operation::GetSenderFps, Seq::empty())),
        ensures
            returned(native, self.plan(Operation::GetSenderFps, Seq::empty()), reply),
    {
        let args: Vec<Value> = Vec::new();
        assert(kinds(args@) =~= Operation::GetSenderFps.spec_parameters());
        self.dispatch(Operation::GetSenderFps, args, native)
    }

    /// Calls the native `get_sender_frame`.
    pub fn get_sender_frame<F: FnOnce(Call) -> i64>(&self, native: F) -> (reply: i64)
        requires
            self.is_ready(),
            accepts(native, self.plan(Operation::GetSenderFrame, Seq::empty())),
        ensures
            returned(native, self.plan(Operation::GetSenderFrame, Seq::empty()), reply),
    {
        let args: Vec<Value> = Vec::new();
        assert(kinds(args@) =~= Operation::GetSenderFrame.spec_parameters());
        self.dispatch(Operation::GetSenderFrame, args, native)
    }

    /// Calls the native `get_sender_handle`.
    /// The reply is the address that the library returned.
    pub fn get_sender_handle<F: FnOnce(Call) -> usize>(&self, native: F) -> (reply: usize)
        requires
            self.is_ready(),
            accepts(native, self.plan(Operation::GetSenderHandle, Seq::empty())),
        ensures
            returned(native, self.plan(Operation::GetSenderHandle, Seq::empty()), reply),
    {
        let args: Vec<Value> = Vec::new();
        assert(kinds(args@) =~= Operation::GetSenderHandle.spec_parameters());
        self.dispatch(Operation::GetSenderHandle, args, native)
    }

    /// Calls the native `get_sender_cpu`.
    pub fn get_sender_cpu<F: FnOnce(Call) -> bool>(&self, native: F) -> (reply: bool)
        requires
            self.is_ready(),
            accepts(native, self.plan(Operation::GetSenderCpu, Seq::empty())),
        ensures
            returned(native, self.plan(Operation::GetSenderCpu, Seq::empty()), reply),
    {
        let args: Vec<Value> = Vec::new();
        assert(kinds(args@) =~= Operation::GetSenderCpu.spec_parameters());
        self.dispatch(Operation::GetSenderCpu, args, native)
    }

    /// Calls the native `get_sender_gldx`.
    pub fn get_sender_gldx<F: FnOnce(Call) -> bool>(&self, native: F) -> (reply: bool)
        requires
            self.is_ready(),
            accepts(native, self.plan(Operation::GetSenderGldx, Seq::empty())),
        ensures
            returned(native, self.plan(Operation::GetSenderGldx, Seq::empty()), reply),
    {
        let args: Vec<Value> = Vec::new();
        assert(kinds(args@) =~= Operation::GetSenderGldx.spec_parameters());
        self.dispatch(Operation::GetSenderGldx, args, native)
    }

    /// Calls the native `select_sender`.
    pub fn select_sender<F: FnOnce(Call)>(&self, native: F)
        requires
            self.is_ready(),
            accepts(native, self.plan(Operation::SelectSender, Seq::empty())),
        ensures
            returned(native, self.plan(Operation::SelectSender, Seq::empty()), ()),
    {
        let args: Vec<Value> = Vec::new();
        assert(kinds(args@) =~= Operation::SelectSender.spec_parameters());
        self.dispatch(Operation::SelectSender, args, native)
    }
}

} // verus!
