//! The shared texture and the OpenGL utilities.

use vstd::prelude::*;
use crate::call::{accepts, returned, Call};
use crate::facade::Spout;
use crate::operation::Operation;
use crate::value::{kinds, Value};
use gl::types::{GLuint};

verus! {

impl Spout {
    /// Calls the native `is_initialized`.
    pub fn is_initialized<F: FnOnce(Call) -> bool>(&self, native: F) -> (reply: bool)
        requires
            self.is_ready(),
            accepts(native, self.plan(Operation::IsInitialized, Seq::empty())),
        ensures
            returned(native, self.plan(Operation::IsInitialized, Seq::empty()), reply),
    {
        let args: Vec<Value> = Vec::new();
        assert(kinds(args@) =~= Operation::IsInitialized.spec_parameters());
        self.dispatch(Operation::IsInitialized, args, native)
    }

    /// Calls the native `bind_shared_texture`.
    pub fn bind_shared_texture<F: FnOnce(Call) -> bool>(&self, native: F) -> (reply: bool)
        requires
            self.is_ready(),
            accepts(native, self.plan(Operation::BindSharedTexture, Seq::empty())),
        ensures
            returned(native, self.plan(Operation::BindSharedTexture, Seq::empty()), reply),
    {
        let args: Vec<Value> = Vec::new();
        assert(kinds(args@) =~= Operation::BindSharedTexture.spec_parameters());
        self.dispatch(Operation::BindSharedTexture, args, native)
    }

    /// Calls the native `un_bind_shared_texture`.
    pub fn un_bind_shared_texture<F: FnOnce(Call) -> bool>(&self, native: F) -> (reply: bool)
        requires
            self.is_ready(),
            accepts(native, self.plan(Operation::UnBindSharedTexture, Seq::empty())),
        ensures
            returned(native, self.plan(Operation::UnBindSharedTexture, Seq::empty()), reply),
    {
        let args: Vec<Value> = Vec::new();
        assert(kinds(args@) =~= Operation::UnBindSharedTexture.spec_parameters());
        self.dispatch(Operation::UnBindSharedTexture, args, native)
    }

    /// Calls the native `get_shared_texture_id`.
    pub fn get_shared_texture_id<F: FnOnce(Call) -> GLuint>(&self, native: F) -> (reply: GLuint)
        requires
            self.is_ready(),
            accepts(native, self.plan(Operation::GetSharedTextureId, Seq::empty())),
        ensures
            returned(native, self.plan(Operation::GetSharedTextureId, Seq::empty()), reply),
    {
        let args: Vec<Value> = Vec::new();
        assert(kinds(args@) =~= Operation::GetSharedTextureId.spec_parameters());
        self.dispatch(Operation::GetSharedTextureId, args, native)
    }

    /// Calls the native `create_opengl`.
    pub fn create_opengl<F: FnOnce(Call) -> bool>(&self, native: F) -> (reply: bool)
        requires
            self.is_ready(),
            accepts(native, self.plan(Operation::CreateOpengl, Seq::empty())),
        ensures
            returned(native, self.plan(Operation::CreateOpengl, Seq::empty()), reply),
    {
        let args: Vec<Value> = Vec::new();
        assert(kinds(args@) =~= Operation::CreateOpengl.spec_parameters());
        self.dispatch(Operation::CreateOpengl, args, native)
    }

    /// Calls the native `close_opengl`.
    pub fn close_opengl<F: FnOnce(Call) -> bool>(&self, native: F) -> (reply: bool)
        requires
            self.is_ready(),
            accepts(native, self.plan(Operation::CloseOpengl, Seq::empty())),
        ensures
            returned(native, self.plan(Operation::CloseOpengl, Seq::empty()), reply),
    {
        let args: Vec<Value> = Vec::new();
        assert(kinds(args@) =~= Operation::CloseOpengl.spec_parameters());
        self.dispatch(Operation::CloseOpengl, args, native)
    }

    /// Calls the native `copy_texture`.
    pub fn copy_texture<F: FnOnce(Call)>(
        &self,
        source_id: GLuint,
        source_target: GLuint,
        dest_id: GLuint,
        dest_target: GLuint,
        width: u32,
        height: u32,
        invert: bool,
        host_fbo: GLuint,
        native: F,
    )
        requires
            self.is_ready(),
            accepts(
                native,
                self.plan(
                    Operation::CopyTexture,
                    seq![
                        Value::Unsigned(source_id),
                        Value::Unsigned(source_target),
                        Value::Unsigned(dest_id),
                        Value::Unsigned(dest_target),
                        Value::Unsigned(width),
                        Value::Unsigned(height),
                        Value::Flag(invert),
                        Value::Unsigned(host_fbo),
                    ],
                ),
            ),
        ensures
            returned(
                native,
                self.plan(
                    Operation::CopyTexture,
                    seq![
                        Value::Unsigned(source_id),
                        Value::Unsigned(source_target),
                        Value::Unsigned(dest_id),
                        Value::Unsigned(dest_target),
                        Value::Unsigned(width),
                        Value::Unsigned(height),
                        Value::Flag(invert),
                        Value::Unsigned(host_fbo),
                    ],
                ),
                (),
            ),
    {
        let args: Vec<Value> = vec![
            Value::Unsigned(source_id),
            Value::Unsigned(source_target),
            Value::Unsigned(dest_id),
            Value::Unsigned(dest_target),
            Value::Unsigned(width),
            Value::Unsigned(height),
            Value::Flag(invert),
            Value::Unsigned(host_fbo),
        ];
        assert(args@ =~= seq![
            Value::Unsigned(source_id),
            Value::Unsigned(source_target),
            Value::Unsigned(dest_id),
            Value::Unsigned(dest_target),
            Value::Unsigned(width),
            Value::Unsigned(height),
            Value::Flag(invert),
            Value::Unsigned(host_fbo),
        ]);
        assert(kinds(args@) =~= Operation::CopyTexture.spec_parameters());
        self.dispatch(Operation::CopyTexture, args, native)
    }
}

} // verus!
