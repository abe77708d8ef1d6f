//! A call on its way to the native library: the table position to jump
//! through and the argument words to hand over.

use vstd::prelude::*;
use crate::value::Value;

verus! {

/// One call into the native function table, as the code that performs the
/// jump receives it. `args[0]` is the library's handle; the caller's own
/// arguments follow in the order they were given.
#[derive(Debug)]
pub struct Call {
    pub slot: usize,
    pub args: Vec<Value>,
}

/// What a [`Call`] says: a table position and a sequence of argument words.
pub struct Plan {
    pub slot: nat,
    pub args: Seq<Value>,
}

impl View for Call {
    type V = Plan;

    open spec fn view(&self) -> Plan {
        Plan { slot: self.slot as nat, args: self.args@ }
    }
}

/// `native` may be handed any call that says `plan`.
pub open spec fn accepts<R, F: FnOnce(Call) -> R>(native: F, plan: Plan) -> bool {
    forall|call: Call| call@ == plan ==> #[trigger] call_requires(native, (call,))
}

/// `reply` is what `native` gave back when it was handed a call that says
/// `plan`.
pub open spec fn returned<R, F: FnOnce(Call) -> R>(native: F, plan: Plan, reply: R) -> bool {
    exists|call: Call| call@ == plan && #[trigger] call_ensures(native, (call,), reply)
}

} // verus!
