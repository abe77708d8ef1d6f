//! Graphics adapters and the preference among them.

use vstd::prelude::*;
use crate::call::{accepts, returned, Call};
use crate::facade::Spout;
use crate::operation::Operation;
use crate::value::{kinds, Value};

verus! {

impl Spout {
    /// Calls the native `get_num_adapters`.
    pub fn get_num_adapters<F: FnOnce(Call) -> i32>(&self, native: F) -> (reply: i32)
        requires
            self.is_ready(),
            accepts(native, self.plan(Operation::GetNumAdapters, Seq::empty())),
        ensures
            returned(native, self.plan(Operation::GetNumAdapters, Seq::empty()), reply),
    {
        let args: Vec<Value> = Vec::new();
        assert(kinds(args@) =~= Operation::GetNumAdapters.spec_parameters());
        self.dispatch(Operation::GetNumAdapters, args, native)
    }

    /// Calls the native `get_adapter_name`.
    pub fn get_adapter_name<F: FnOnce(Call) -> bool>(
        &self,
        index: i32,
        adapter_name: usize,
        max_chars: i32,
        native: F,
    ) -> (reply: bool)
        requires
            self.is_ready(),
            accepts(
                native,
                self.plan(
                    Operation::GetAdapterName,
                    seq![
                        Value::Signed(index),
                        Value::Address(adapter_name),
                        Value::Signed(max_chars),
                    ],
                ),
            ),
        ensures
            returned(
                native,
                self.plan(
                    Operation::GetAdapterName,
                    seq![
                        Value::Signed(index),
                        Value::Address(adapter_name),
                        Value::Signed(max_chars),
                    ],
                ),
                reply,
            ),
    {
        let args: Vec<Value> = vec![
            Value::Signed(index),
            Value::Address(adapter_name),
            Value::Signed(max_chars),
        ];
        assert(args@ =~= seq![
            Value::Signed(index),
            Value::Address(adapter_name),
            Value::Signed(max_chars),
        ]);
        assert(kinds(args@) =~= Operation::GetAdapterName.spec_parameters());
        self.dispatch(Operation::GetAdapterName, args, native)
    }

    /// Calls the native `adapter_name`.
    /// The reply is the address that the library returned.
    pub fn adapter_name<F: FnOnce(Call) -> usize>(&self, native: F) -> (reply: usize)
        requires
            self.is_ready(),
            accepts(native, self.plan(Operation::AdapterName, Seq::empty())),
        ensures
            returned(native, self.plan(Operation::AdapterName, Seq::empty()), reply),
    {
        let args: Vec<Value> = Vec::new();
        assert(kinds(args@) =~= Operation::AdapterName.spec_parameters());
        self.dispatch(Operation::AdapterName, args, native)
    }

    /// Calls the native `get_adapter`.
    pub fn get_adapter<F: FnOnce(Call) -> i32>(&self, native: F) -> (reply: i32)
        requires
            self.is_ready(),
            accepts(native, self.plan(Operation::GetAdapter, Seq::empty())),
        ensures
            returned(native, self.plan(Operation::GetAdapter, Seq::empty()), reply),
    {
        let args: Vec<Value> = Vec::new();
        assert(kinds(args@) =~= Operation::GetAdapter.spec_parameters());
        self.dispatch(Operation::GetAdapter, args, native)
    }

    /// Calls the native `get_performance_preference`.
    pub fn get_performance_preference<F: FnOnce(Call) -> i32>(
        &self,
        path: usize,
        native: F,
    ) -> (reply: i32)
        requires
            self.is_ready(),
            accepts(
                native,
                self.plan(Operation::GetPerformancePreference, seq![Value::Address(path)]),
            ),
        ensures
            returned(
                native,
                self.plan(Operation::GetPerformancePreference, seq![Value::Address(path)]),
                reply,
            ),
    {
        let args: Vec<Value> = vec![Value::Address(path)];
        assert(args@ =~= seq![Value::Address(path)]);
        assert(kinds(args@) =~= Operation::GetPerformancePreference.spec_parameters());
        self.dispatch(Operation::GetPerformancePreference, args, native)
    }

    /// Calls the native `set_performance_preference`.
    pub fn set_performance_preference<F: FnOnce(Call) -> bool>(
        &self,
        preference: i32,
        path: usize,
        native: F,
    ) -> (reply: bool)
        requires
            self.is_ready(),
            accepts(
                native,
                self.plan(
                    Operation::SetPerformancePreference,
                    seq![Value::Signed(preference), Value::Address(path)],
                ),
            ),
        ensures
            returned(
                native,
                self.plan(
                    Operation::SetPerformancePreference,
                    seq![Value::Signed(preference), Value::Address(path)],
                ),
                reply,
            ),
    {
        let args: Vec<Value> = vec![Value::Signed(preference), Value::Address(path)];
        assert(args@ =~= seq![Value::Signed(preference), Value::Address(path)]);
        assert(kinds(args@) =~= Operation::SetPerformancePreference.spec_parameters());
        self.dispatch(Operation::SetPerformancePreference, args, native)
    }

    /// Calls the native `get_preferred_adapter_name`.
    pub fn get_preferred_adapter_name<F: FnOnce(Call) -> bool>(
        &self,
        preference: i32,
        adapter_name: usize,
        max_chars: i32,
        native: F,
    ) -> (reply: bool)
        requires
            self.is_ready(),
            accepts(
                native,
                self.plan(
                    Operation::GetPreferredAdapterName,
                    seq![
                        Value::Signed(preference),
                        Value::Address(adapter_name),
                        Value::Signed(max_chars),
                    ],
                ),
            ),
        ensures
            returned(
                native,
                self.plan(
                    Operation::GetPreferredAdapterName,
                    seq![
                        Value::Signed(preference),
                        Value::Address(adapter_name),
                        Value::Signed(max_chars),
                    ],
                ),
                reply,
            ),
    {
        let args: Vec<Value> = vec![
            Value::Signed(preference),
            Value::Address(adapter_name),
            Value::Signed(max_chars),
        ];
        assert(args@ =~= seq![
            Value::Signed(preference),
            Value::Address(adapter_name),
            Value::Signed(max_chars),
        ]);
        assert(kinds(args@) =~= Operation::GetPreferredAdapterName.spec_parameters());
        self.dispatch(Operation::GetPreferredAdapterName, args, native)
    }

    /// Calls the native `set_preferred_adapter`.
    pub fn set_preferred_adapter<F: FnOnce(Call) -> bool>(
        &self,
        preference: i32,
        native: F,
    ) -> (reply: bool)
        requires
            self.is_ready(),
            accepts(
                native,
                self.plan(Operation::SetPreferredAdapter, seq![Value::Signed(preference)]),
            ),
        ensures
            returned(
                native,
                self.plan(Operation::SetPreferredAdapter, seq![Value::Signed(preference)]),
                reply,
            ),
    {
        let args: Vec<Value> = vec![Value::Signed(preference)];
        assert(args@ =~= seq![Value::Signed(preference)]);
        assert(kinds(args@) =~= Operation::SetPreferredAdapter.spec_parameters());
        self.dispatch(Operation::SetPreferredAdapter, args, native)
    }

    /// Calls the native `is_preference_available`.
    pub fn is_preference_available<F: FnOnce(Call) -> bool>(&self, native: F) -> (reply: bool)
        requires
            self.is_ready(),
            accepts(native, self.plan(Operation::IsPreferenceAvailable, Seq::empty())),
        ensures
            returned(native, self.plan(Operation::IsPreferenceAvailable, Seq::empty()), reply),
    {
        let args: Vec<Value> = Vec::new();
        assert(kinds(args@) =~= Operation::IsPreferenceAvailable.spec_parameters());
        self.dispatch(Operation::IsPreferenceAvailable, args, native)
    }

    /// Calls the native `is_application_path`.
    pub fn is_application_path<F: FnOnce(Call) -> bool>(
        &self,
        path: usize,
        native: F,
    ) -> (reply: bool)
        requires
            self.is_ready(),
            accepts(native, self.plan(Operation::IsApplicationPath, seq![Value::Address(path)])),
        ensures
            returned(
                native,
                self.plan(Operation::IsApplicationPath, seq![Value::Address(path)]),
                reply,
            ),
    {
        let args: Vec<Value> = vec![Value::Address(path)];
        assert(args@ =~= seq![Value::Address(path)]);
        assert(kinds(args@) =~= Operation::IsApplicationPath.spec_parameters());
        self.dispatch(Operation::IsApplicationPath, args, native)
    }
}

} // verus!
