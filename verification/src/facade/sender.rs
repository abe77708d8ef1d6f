//! Operations of the sending side.

use vstd::prelude::*;
use crate::call::{accepts, returned, Call};
use crate::facade::Spout;
use crate::operation::Operation;
use crate::value::{kinds, Value};
use gl::types::{GLenum, GLuint};

verus! {

impl Spout {
    /// Calls the native `set_sender_name`.
    pub fn set_sender_name<F: FnOnce(Call)>(&self, sendername: usize, native: F)
        requires
            self.is_ready(),
            accepts(native, self.plan(Operation::SetSenderName, seq![Value::Address(sendername)])),
        ensures
            returned(
                native,
                self.plan(Operation::SetSenderName, seq![Value::Address(sendername)]),
                (),
            ),
    {
        let args: Vec<Value> = vec![Value::Address(sendername)];
        assert(args@ =~= seq![Value::Address(sendername)]);
        assert(kinds(args@) =~= Operation::SetSenderName.spec_parameters());
        self.dispatch(Operation::SetSenderName, args, native)
    }

    /// Calls the native `set_sender_format`.
    pub fn set_sender_format<F: FnOnce(Call)>(&self, format: u32, native: F)
        requires
            self.is_ready(),
            accepts(native, self.plan(Operation::SetSenderFormat, seq![Value::Unsigned(format)])),
        ensures
            returned(
                native,
                self.plan(Operation::SetSenderFormat, seq![Value::Unsigned(format)]),
                (),
            ),
    {
        let args: Vec<Value> = vec![Value::Unsigned(format)];
        assert(args@ =~= seq![Value::Unsigned(format)]);
        assert(kinds(args@) =~= Operation::SetSenderFormat.spec_parameters());
        self.dispatch(Operation::SetSenderFormat, args, native)
    }

    /// Calls the native `release_sender`.
    pub fn release_sender<F: FnOnce(Call)>(&self, msec: u32, native: F)
        requires
            self.is_ready(),
            accepts(native, self.plan(Operation::ReleaseSender, seq![Value::Unsigned(msec)])),
        ensures
            returned(native, self.plan(Operation::ReleaseSender, seq![Value::Unsigned(msec)]), ()),
    {
        let args: Vec<Value> = vec![Value::Unsigned(msec)];
        assert(args@ =~= seq![Value::Unsigned(msec)]);
        assert(kinds(args@) =~= Operation::ReleaseSender.spec_parameters());
        self.dispatch(Operation::ReleaseSender, args, native)
    }

    /// Calls the native `send_fbo`.
    pub fn send_fbo<F: FnOnce(Call) -> bool>(
        &self,
        fbo_id: GLuint,
        width: u32,
        height: u32,
        invert: bool,
        native: F,
    ) -> (reply: bool)
        requires
            self.is_ready(),
            accepts(
                native,
                self.plan(
                    Operation::SendFbo,
                    seq![
                        Value::Unsigned(fbo_id),
                        Value::Unsigned(width),
                        Value::Unsigned(height),
                        Value::Flag(invert),
                    ],
                ),
            ),
        ensures
            returned(
                native,
                self.plan(
                    Operation::SendFbo,
                    seq![
                        Value::Unsigned(fbo_id),
                        Value::Unsigned(width),
                        Value::Unsigned(height),
                        Value::Flag(invert),
                    ],
                ),
                reply,
            ),
    {
        let args: Vec<Value> = vec![
            Value::Unsigned(fbo_id),
            Value::Unsigned(width),
            Value::Unsigned(height),
            Value::Flag(invert),
        ];
        assert(args@ =~= seq![
            Value::Unsigned(fbo_id),
            Value::Unsigned(width),
            Value::Unsigned(height),
            Value::Flag(invert),
        ]);
        assert(kinds(args@) =~= Operation::SendFbo.spec_parameters());
        self.dispatch(Operation::SendFbo, args, native)
    }

    /// Calls the native `send_texture`.
    pub fn send_texture<F: FnOnce(Call) -> bool>(
        &self,
        texture_id: GLuint,
        texture_target: GLuint,
        width: u32,
        height: u32,
        invert: bool,
        host_fbo: GLuint,
        native: F,
    ) -> (reply: bool)
        requires
            self.is_ready(),
            accepts(
                native,
                self.plan(
                    Operation::SendTexture,
                    seq![
                        Value::Unsigned(texture_id),
                        Value::Unsigned(texture_target),
                        Value::Unsigned(width),
                        Value::Unsigned(height),
                        Value::Flag(invert),
                        Value::Unsigned(host_fbo),
                    ],
                ),
            ),
        ensures
            returned(
                native,
                self.plan(
                    Operation::SendTexture,
                    seq![
                        Value::Unsigned(texture_id),
                        Value::Unsigned(texture_target),
                        Value::Unsigned(width),
                        Value::Unsigned(height),
                        Value::Flag(invert),
                        Value::Unsigned(host_fbo),
                    ],
                ),
                reply,
            ),
    {
        let args: Vec<Value> = vec![
            Value::Unsigned(texture_id),
            Value::Unsigned(texture_target),
            Value::Unsigned(width),
            Value::Unsigned(height),
            Value::Flag(invert),
            Value::Unsigned(host_fbo),
        ];
        assert(args@ =~= seq![
            Value::Unsigned(texture_id),
            Value::Unsigned(texture_target),
            Value::Unsigned(width),
            Value::Unsigned(height),
            Value::Flag(invert),
            Value::Unsigned(host_fbo),
        ]);
        assert(kinds(args@) =~= Operation::SendTexture.spec_parameters());
        self.dispatch(Operation::SendTexture, args, native)
    }

    /// Calls the native `send_image`.
    pub fn send_image<F: FnOnce(Call) -> bool>(
        &self,
        pixels: usize,
        width: u32,
        height: u32,
        format: GLenum,
        invert: bool,
        native: F,
    ) -> (reply: bool)
        requires
            self.is_ready(),
            accepts(
                native,
                self.plan(
                    Operation::SendImage,
                    seq![
                        Value::Address(pixels),
                        Value::Unsigned(width),
                        Value::Unsigned(height),
                        Value::Unsigned(format),
                        Value::Flag(invert),
                    ],
                ),
            ),
        ensures
            returned(
                native,
                self.plan(
                    Operation::SendImage,
                    seq![
                        Value::Address(pixels),
                        Value::Unsigned(width),
                        Value::Unsigned(height),
                        Value::Unsigned(format),
                        Value::Flag(invert),
                    ],
                ),
                reply,
            ),
    {
        let args: Vec<Value> = vec![
            Value::Address(pixels),
            Value::Unsigned(width),
            Value::Unsigned(height),
            Value::Unsigned(format),
            Value::Flag(invert),
        ];
        assert(args@ =~= seq![
            Value::Address(pixels),
            Value::Unsigned(width),
            Value::Unsigned(height),
            Value::Unsigned(format),
            Value::Flag(invert),
        ]);
        assert(kinds(args@) =~= Operation::SendImage.spec_parameters());
        self.dispatch(Operation::SendImage, args, native)
    }

    /// Calls the native `get_name`.
    /// The reply is the address that the library returned.
    pub fn get_name<F: FnOnce(Call) -> usize>(&self, native: F) -> (reply: usize)
        requires
            self.is_ready(),
            accepts(native, self.plan(Operation::GetName, Seq::empty())),
        ensures
            returned(native, self.plan(Operation::GetName, Seq::empty()), reply),
    {
        let args: Vec<Value> = Vec::new();
        assert(kinds(args@) =~= Operation::GetName.spec_parameters());
        self.dispatch(Operation::GetName, args, native)
    }

    /// Calls the native `get_width`.
    pub fn get_width<F: FnOnce(Call) -> u32>(&self, native: F) -> (reply: u32)
        requires
            self.is_ready(),
            accepts(native, self.plan(Operation::GetWidth, Seq::empty())),
        ensures
            returned(native, self.plan(Operation::GetWidth, Seq::empty()), reply),
    {
        let args: Vec<Value> = Vec::new();
        assert(kinds(args@) =~= Operation::GetWidth.spec_parameters());
        self.dispatch(Operation::GetWidth, args, native)
    }

    /// Calls the native `get_height`.
    pub fn get_height<F: FnOnce(Call) -> u32>(&self, native: F) -> (reply: u32)
        requires
            self.is_ready(),
            accepts(native, self.plan(Operation::GetHeight, Seq::empty())),
        ensures
            returned(native, self.plan(Operation::GetHeight, Seq::empty()), reply),
    {
        let args: Vec<Value> = Vec::new();
        assert(kinds(args@) =~= Operation::GetHeight.spec_parameters());
        self.dispatch(Operation::GetHeight, args, native)
    }

    /// Calls the native `get_fps`.
    /// The reply is the bit pattern of the double that the library returned.
    pub fn get_fps<F: FnOnce(Call) -> u64>(&self, native: F) -> (reply: u64)
        requires
            self.is_ready(),
            accepts(native, self.plan(Operation::GetFps, Seq::empty())),
        ensures
            returned(native, self.plan(Operation::GetFps, Seq::empty()), reply),
    {
        let args: Vec<Value> = Vec::new();
        assert(kinds(args@) =~= Operation::GetFps.spec_parameters());
        self.dispatch(Operation::GetFps, args, native)
    }

    /// Calls the native `get_frame`.
    pub fn get_frame<F: FnOnce(Call) -> i64>(&self, native: F) -> (reply: i64)
        requires
            self.is_ready(),
            accepts(native, self.plan(Operation::GetFrame, Seq::empty())),
        ensures
            returned(native, self.plan(Operation::GetFrame, Seq::empty()), reply),
    {
        let args: Vec<Value> = Vec::new();
        assert(kinds(args@) =~= Operation::GetFrame.spec_parameters());
        self.dispatch(Operation::GetFrame, args, native)
    }

    /// Calls the native `get_handle`.
    /// The reply is the address that the library returned.
    pub fn get_handle<F: FnOnce(Call) -> usize>(&self, native: F) -> (reply: usize)
        requires
            self.is_ready(),
            accepts(native, self.plan(Operation::GetHandle, Seq::empty())),
        ensures
            returned(native, self.plan(Operation::GetHandle, Seq::empty()), reply),
    {
        let args: Vec<Value> = Vec::new();
        assert(kinds(args@) =~= Operation::GetHandle.spec_parameters());
        self.dispatch(Operation::GetHandle, args, native)
    }

    /// Calls the native `get_cpu`.
    pub fn get_cpu<F: FnOnce(Call) -> bool>(&self, native: F) -> (reply: bool)
        requires
            self.is_ready(),
            accepts(native, self.plan(Operation::GetCpu, Seq::empty())),
        ensures
            returned(native, self.plan(Operation::GetCpu, Seq::empty()), reply),
    {
        let args: Vec<Value> = Vec::new();
        assert(kinds(args@) =~= Operation::GetCpu.spec_parameters());
        self.dispatch(Operation::GetCpu, args, native)
    }

    /// Calls the native `get_gldx`.
    pub fn get_gldx<F: FnOnce(Call) -> bool>(&self, native: F) -> (reply: bool)
        requires
            self.is_ready(),
            accepts(native, self.plan(Operation::GetGldx, Seq::empty())),
        ensures
            returned(native, self.plan(Operation::GetGldx, Seq::empty()), reply),
    {
        let args: Vec<Value> = Vec::new();
        assert(kinds(args@) =~= Operation::GetGldx.spec_parameters());
        self.dispatch(Operation::GetGldx, args, native)
    }
}

} // verus!
