//! The DirectX devices behind the shared textures.

use vstd::prelude::*;
use crate::call::{accepts, returned, Call};
use crate::facade::Spout;
use crate::operation::Operation;
use crate::value::{kinds, Value};

verus! {

impl Spout {
    /// Calls the native `open_directx`.
    pub fn open_directx<F: FnOnce(Call) -> bool>(&self, native: F) -> (reply: bool)
        requires
            self.is_ready(),
            accepts(native, self.plan(Operation::OpenDirectx, Seq::empty())),
        ensures
            returned(native, self.plan(Operation::OpenDirectx, Seq::empty()), reply),
    {
        let args: Vec<Value> = Vec::new();
        assert(kinds(args@) =~= Operation::OpenDirectx.spec_parameters());
        self.dispatch(Operation::OpenDirectx, args, native)
    }

    /// Calls the native `close_directx`.
    pub fn close_directx<F: FnOnce(Call)>(&self, native: F)
        requires
            self.is_ready(),
            accepts(native, self.plan(Operation::CloseDirectx, Seq::empty())),
        ensures
            returned(native, self.plan(Operation::CloseDirectx, Seq::empty()), ()),
    {
        let args: Vec<Value> = Vec::new();
        assert(kinds(args@) =~= Operation::CloseDirectx.spec_parameters());
        self.dispatch(Operation::CloseDirectx, args, native)
    }

    /// Calls the native `open_directx_11`.
    pub fn open_directx_11<F: FnOnce(Call) -> bool>(
        &self,
        device: usize,
        native: F,
    ) -> (reply: bool)
        requires
            self.is_ready(),
            accepts(native, self.plan(Operation::OpenDirectx11, seq![Value::Address(device)])),
        ensures
            returned(
                native,
                self.plan(Operation::OpenDirectx11, seq![Value::Address(device)]),
                reply,
            ),
    {
        let args: Vec<Value> = vec![Value::Address(device)];
        assert(args@ =~= seq![Value::Address(device)]);
        assert(kinds(args@) =~= Operation::OpenDirectx11.spec_parameters());
        self.dispatch(Operation::OpenDirectx11, args, native)
    }

    /// Calls the native `close_directx_11`.
    pub fn close_directx_11<F: FnOnce(Call)>(&self, native: F)
        requires
            self.is_ready(),
            accepts(native, self.plan(Operation::CloseDirectx11, Seq::empty())),
        ensures
            returned(native, self.plan(Operation::CloseDirectx11, Seq::empty()), ()),
    {
        let args: Vec<Value> = Vec::new();
        assert(kinds(args@) =~= Operation::CloseDirectx11.spec_parameters());
        self.dispatch(Operation::CloseDirectx11, args, native)
    }

    /// Calls the native `get_dx11_device`.
    /// The reply is the address that the library returned.
    pub fn get_dx11_device<F: FnOnce(Call) -> usize>(&self, native: F) -> (reply: usize)
        requires
            self.is_ready(),
            accepts(native, self.plan(Operation::GetDx11Device, Seq::empty())),
        ensures
            returned(native, self.plan(Operation::GetDx11Device, Seq::empty()), reply),
    {
        let args: Vec<Value> = Vec::new();
        assert(kinds(args@) =~= Operation::GetDx11Device.spec_parameters());
        self.dispatch(Operation::GetDx11Device, args, native)
    }

    /// Calls the native `get_dx11_context`.
    /// The reply is the address that the library returned.
    pub fn get_dx11_context<F: FnOnce(Call) -> usize>(&self, native: F) -> (reply: usize)
        requires
            self.is_ready(),
            accepts(native, self.plan(Operation::GetDx11Context, Seq::empty())),
        ensures
            returned(native, self.plan(Operation::GetDx11Context, Seq::empty()), reply),
    {
        let args: Vec<Value> = Vec::new();
        assert(kinds(args@) =~= Operation::GetDx11Context.spec_parameters());
        self.dispatch(Operation::GetDx11Context, args, native)
    }
}

} // verus!
