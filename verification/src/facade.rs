//! The object a host program holds: the native library's handle, and a way
//! to reach each of the library's operations through it.

mod adapter;
mod directx;
mod frame;
mod info;
mod limits;
mod logging;
mod management;
mod memory;
mod names;
mod receiver;
mod sender;
mod texture;

use vstd::prelude::*;
use crate::call::{accepts, returned, Call, Plan};
use crate::operation::{Operation, SLOTS};
use crate::value::{kinds, Reply, Value};

verus! {

/// A live connection to the native library.
///
/// A `Spout` is made from the handle that the library's entry point returned,
/// and that handle is never null. It starts out ready; every operation leaves
/// it ready; [`Spout::release`] ends it, once, and nothing brings it back.
///
/// The jump into native code is not made here. Each operation is given a
/// `native` function that performs it: the operation builds the [`Call`],
/// hands it to `native` and returns what `native` returned.
pub struct Spout {
    handle: usize,
    released: bool,
}

impl Spout {
    #[verifier::type_invariant]
    spec fn holds_handle(self) -> bool {
        self.handle != 0
    }

    /// The handle this object was made with.
    pub closed spec fn spec_handle(&self) -> usize {
        self.handle
    }

    /// Whether operations may still be dispatched through this object.
    pub closed spec fn spec_is_ready(&self) -> bool {
        !self.released
    }

    /// Wraps the handle that the library's entry point returned.
    pub fn new(handle: usize) -> (spout: Spout)
        requires
            handle != 0,
        ensures
            spout.handle() == handle,
            spout.is_ready(),
    {
        Spout { handle, released: false }
    }

    /// The handle this object was made with.
    #[verifier::when_used_as_spec(spec_handle)]
    pub fn handle(&self) -> (handle: usize)
        ensures
            handle == self.spec_handle(),
            handle != 0,
    {
        proof {
            use_type_invariant(self);
        }
        self.handle
    }

    /// Whether operations may still be dispatched through this object.
    #[verifier::when_used_as_spec(spec_is_ready)]
    pub fn is_ready(&self) -> (ready: bool)
        ensures
            ready == self.spec_is_ready(),
    {
        !self.released
    }

    /// The call that dispatching `op` with `args` makes: the table position
    /// of `op`, and the handle followed by `args`.
    pub open spec fn plan(&self, op: Operation, args: Seq<Value>) -> Plan {
        Plan { slot: op.slot() as nat, args: seq![Value::Address(self.handle())] + args }
    }

    /// Every dispatch goes to the table position of its operation, hands
    /// over the handle first, and after it the caller's arguments in the
    /// order they were given, one for each declared parameter.
    pub proof fn lemma_plan_layout(&self, op: Operation, args: Seq<Value>)
        requires
            op.admits(args),
        ensures
            self.plan(op, args).slot == op.slot(),
            self.plan(op, args).slot < SLOTS,
            self.plan(op, args).args.len() == op.spec_parameters().len() + 1,
            self.plan(op, args).args[0] == Value::Address(self.handle()),
            forall|i: int|
                0 <= i < args.len() ==> {
                    &&& #[trigger] self.plan(op, args).args[i + 1] == args[i]
                    &&& args[i].kind() == op.spec_parameters()[i]
                },
    {
        assert(kinds(args).len() == args.len());
        assert forall|i: int| 0 <= i < args.len() implies args[i].kind()
            == op.spec_parameters()[i] by {
            assert(kinds(args)[i] == args[i].kind());
        }
    }

    /// Sends one operation through the function table: `native` is handed
    /// the table position of `op` and the handle followed by `args`, and what
    /// it returns is returned unchanged.
    ///
    /// The arguments and the type of the answer have to be those that `op`
    /// is declared with; [`Operation::admits_args`] and
    /// [`Operation::result`] tell.
    pub fn dispatch<R: Reply, F: FnOnce(Call) -> R>(
        &self,
        op: Operation,
        args: Vec<Value>,
        native: F,
    ) -> (reply: R)
        requires
            self.is_ready(),
            op.admits(args@),
            R::shape() == op.result(),
            accepts(native, self.plan(op, args@)),
        ensures
            returned(native, self.plan(op, args@), reply),
            self.handle() != 0,
    {
        proof {
            use_type_invariant(self);
        }
        let mut words = args;
        words.insert(0, Value::Address(self.handle));
        let call = Call { slot: op.slot(), args: words };
        assert(call@.args =~= self.plan(op, args@).args);
        native(call)
    }

    /// Ends the connection: `native` is handed the table position of
    /// [`Operation::Release`] and the handle alone. The object stops being
    /// ready before the call is made, so that no second release can follow
    /// whatever becomes of the first.
    pub fn release<F: FnOnce(Call)>(&mut self, native: F)
        requires
            old(self).is_ready(),
            accepts(native, old(self).plan(Operation::Release, Seq::empty())),
        ensures
            returned(native, old(self).plan(Operation::Release, Seq::empty()), ()),
            !final(self).is_ready(),
            final(self).handle() == old(self).handle(),
    {
        proof {
            use_type_invariant(&*self);
        }
        self.released = true;
        let args: Vec<Value> = vec![Value::Address(self.handle)];
        let call = Call { slot: Operation::Release.slot(), args };
        assert(call@.args =~= old(self).plan(Operation::Release, Seq::empty()).args);
        native(call)
    }
}

} // verus!
