//! What an observer offers to the stack, and the slot that may hold one.
use alloy_primitives::{Address, Log, U256};
use revm::interpreter::{CallInputs, CallOutcome, CreateInputs, CreateOutcome, Interpreter};
use vstd::prelude::*;

verus! {

/// An observer of the lifecycle events of one run.
///
/// `Cx` is the engine's execution context. It belongs to the engine; an
/// observer may read and change it, the stack only passes it on.
///
/// Each event comes as a pair. The method is what runs. The `may_` relation
/// beside it describes the method: it holds of the observer and the event's
/// data before the event, the same after it, and the answer, for everything
/// the method can do. A relation need not determine the outcome: an observer
/// may print, count, or consult what the relation does not mention. The
/// relation that holds of everything is the default, so an observer that
/// states nothing about itself claims nothing. The stack and the chain state
/// theirs exactly, in terms of those of the observers they hold.
pub trait Observer<Cx>: Sized {
    /// What `initialize_interp` can do.
    open spec fn may_initialize_interp(
        self,
        interp: Interpreter,
        context: Cx,
        self_after: Self,
        interp_after: Interpreter,
        context_after: Cx,
    ) -> bool {
        true
    }

    /// Called before the interpreter starts.
    fn initialize_interp(&mut self, interp: &mut Interpreter, context: &mut Cx)
        ensures
            old(self).may_initialize_interp(
                *old(interp),
                *old(context),
                *final(self),
                *final(interp),
                *final(context),
            ),
    ;

    /// What `step` can do.
    open spec fn may_step(
        self,
        interp: Interpreter,
        context: Cx,
        self_after: Self,
        interp_after: Interpreter,
        context_after: Cx,
    ) -> bool {
        true
    }

    /// Called before each instruction.
    fn step(&mut self, interp: &mut Interpreter, context: &mut Cx)
        ensures
            old(self).may_step(
                *old(interp),
                *old(context),
                *final(self),
                *final(interp),
                *final(context),
            ),
    ;

    /// What `step_end` can do.
    open spec fn may_step_end(
        self,
        interp: Interpreter,
        context: Cx,
        self_after: Self,
        interp_after: Interpreter,
        context_after: Cx,
    ) -> bool {
        true
    }

    /// Called after each instruction.
    fn step_end(&mut self, interp: &mut Interpreter, context: &mut Cx)
        ensures
            old(self).may_step_end(
                *old(interp),
                *old(context),
                *final(self),
                *final(interp),
                *final(context),
            ),
    ;

    /// What `log` can do.
    open spec fn may_log(self, context: Cx, log: Log, self_after: Self, context_after: Cx) -> bool {
        true
    }

    /// Called when a log is emitted.
    fn log(&mut self, context: &mut Cx, log: &Log)
        ensures
            old(self).may_log(*old(context), *log, *final(self), *final(context)),
    ;

    /// What `call` can do. An `answer` of `Some` overrides the call with that
    /// outcome; `None` lets the call proceed.
    open spec fn may_call(
        self,
        context: Cx,
        inputs: CallInputs,
        self_after: Self,
        context_after: Cx,
        inputs_after: CallInputs,
        answer: Option<CallOutcome>,
    ) -> bool {
        true
    }

    /// Called when a call is about to start.
    fn call(&mut self, context: &mut Cx, inputs: &mut CallInputs) -> (answer: Option<CallOutcome>)
        ensures
            old(self).may_call(
                *old(context),
                *old(inputs),
                *final(self),
                *final(context),
                *final(inputs),
                answer,
            ),
    ;

    /// What `call_end` can do. An `answer` that differs from `outcome` replaces
    /// it; one equal to `outcome` leaves it as it is.
    open spec fn may_call_end(
        self,
        context: Cx,
        inputs: CallInputs,
        outcome: CallOutcome,
        self_after: Self,
        context_after: Cx,
        answer: CallOutcome,
    ) -> bool {
        true
    }

    /// Called when a call has ended with `outcome`.
    fn call_end(&mut self, context: &mut Cx, inputs: &CallInputs, outcome: CallOutcome) -> (answer:
        CallOutcome)
        ensures
            old(self).may_call_end(
                *old(context),
                *inputs,
                outcome,
                *final(self),
                *final(context),
                answer,
            ),
    ;

    /// What `create` can do. An `answer` of `Some` overrides the creation with
    /// that outcome; `None` lets it proceed.
    open spec fn may_create(
        self,
        context: Cx,
        inputs: CreateInputs,
        self_after: Self,
        context_after: Cx,
        inputs_after: CreateInputs,
        answer: Option<CreateOutcome>,
    ) -> bool {
        true
    }

    /// Called when a contract is about to be created.
    fn create(&mut self, context: &mut Cx, inputs: &mut CreateInputs) -> (answer: Option<
        CreateOutcome,
    >)
        ensures
            old(self).may_create(
                *old(context),
                *old(inputs),
                *final(self),
                *final(context),
                *final(inputs),
                answer,
            ),
    ;

    /// What `create_end` can do. An `answer` that differs from `outcome`
    /// replaces it; one equal to `outcome` leaves it as it is.
    open spec fn may_create_end(
        self,
        context: Cx,
        inputs: CreateInputs,
        outcome: CreateOutcome,
        self_after: Self,
        context_after: Cx,
        answer: CreateOutcome,
    ) -> bool {
        true
    }

    /// Called when a creation has ended with `outcome`.
    fn create_end(
        &mut self,
        context: &mut Cx,
        inputs: &CreateInputs,
        outcome: CreateOutcome,
    ) -> (answer: CreateOutcome)
        ensures
            old(self).may_create_end(
                *old(context),
                *inputs,
                outcome,
                *final(self),
                *final(context),
                answer,
            ),
    ;

    /// What `selfdestruct` can do.
    open spec fn may_selfdestruct(
        self,
        contract: Address,
        target: Address,
        value: U256,
        self_after: Self,
    ) -> bool {
        true
    }

    /// Called when `contract` has destroyed itself and sent `value` to
    /// `target`.
    fn selfdestruct(&mut self, contract: Address, target: Address, value: U256)
        ensures
            old(self).may_selfdestruct(contract, target, value, *final(self)),
    ;
}

/// A slot: it holds one observer or none. An empty slot lets every event pass
/// and touches nothing; a filled slot does what its observer does.
impl<Cx, O: Observer<Cx>> Observer<Cx> for Option<O> {
    open spec fn may_initialize_interp(
        self,
        interp: Interpreter,
        context: Cx,
        self_after: Self,
        interp_after: Interpreter,
        context_after: Cx,
    ) -> bool {
        match self {
            Some(observer) => self_after is Some && observer.may_initialize_interp(
                interp,
                context,
                self_after->0,
                interp_after,
                context_after,
            ),
            None => self_after is None && interp_after == interp && context_after == context,
        }
    }

    fn initialize_interp(&mut self, interp: &mut Interpreter, context: &mut Cx) {
        match self {
            Some(observer) => observer.initialize_interp(interp, context),
            None => {},
        }
    }

    open spec fn may_step(
        self,
        interp: Interpreter,
        context: Cx,
        self_after: Self,
        interp_after: Interpreter,
        context_after: Cx,
    ) -> bool {
        match self {
            Some(observer) => self_after is Some && observer.may_step(
                interp,
                context,
                self_after->0,
                interp_after,
                context_after,
            ),
            None => self_after is None && interp_after == interp && context_after == context,
        }
    }

    fn step(&mut self, interp: &mut Interpreter, context: &mut Cx) {
        match self {
            Some(observer) => observer.step(interp, context),
            None => {},
        }
    }

    open spec fn may_step_end(
        self,
        interp: Interpreter,
        context: Cx,
        self_after: Self,
        interp_after: Interpreter,
        context_after: Cx,
    ) -> bool {
        match self {
            Some(observer) => self_after is Some && observer.may_step_end(
                interp,
                context,
                self_after->0,
                interp_after,
                context_after,
            ),
            None => self_after is None && interp_after == interp && context_after == context,
        }
    }

    fn step_end(&mut self, interp: &mut Interpreter, context: &mut Cx) {
        match self {
            Some(observer) => observer.step_end(interp, context),
            None => {},
        }
    }

    open spec fn may_log(self, context: Cx, log: Log, self_after: Self, context_after: Cx) -> bool {
        match self {
            Some(observer) => self_after is Some && observer.may_log(
                context,
                log,
                self_after->0,
                context_after,
            ),
            None => self_after is None && context_after == context,
        }
    }

    fn log(&mut self, context: &mut Cx, log: &Log) {
        match self {
            Some(observer) => observer.log(context, log),
            None => {},
        }
    }

    open spec fn may_call(
        self,
        context: Cx,
        inputs: CallInputs,
        self_after: Self,
        context_after: Cx,
        inputs_after: CallInputs,
        answer: Option<CallOutcome>,
    ) -> bool {
        match self {
            Some(observer) => self_after is Some && observer.may_call(
                context,
                inputs,
                self_after->0,
                context_after,
                inputs_after,
                answer,
            ),
            None => self_after is None && context_after == context && inputs_after == inputs
                && answer is None,
        }
    }

    fn call(&mut self, context: &mut Cx, inputs: &mut CallInputs) -> (answer: Option<CallOutcome>) {
        match self {
            Some(observer) => observer.call(context, inputs),
            None => None,
        }
    }

    open spec fn may_call_end(
        self,
        context: Cx,
        inputs: CallInputs,
        outcome: CallOutcome,
        self_after: Self,
        context_after: Cx,
        answer: CallOutcome,
    ) -> bool {
        match self {
            Some(observer) => self_after is Some && observer.may_call_end(
                context,
                inputs,
                outcome,
                self_after->0,
                context_after,
                answer,
            ),
            None => self_after is None && context_after == context && answer == outcome,
        }
    }

    fn call_end(&mut self, context: &mut Cx, inputs: &CallInputs, outcome: CallOutcome) -> (answer:
        CallOutcome) {
        match self {
            Some(observer) => observer.call_end(context, inputs, outcome),
            None => outcome,
        }
    }

    open spec fn may_create(
        self,
        context: Cx,
        inputs: CreateInputs,
        self_after: Self,
        context_after: Cx,
        inputs_after: CreateInputs,
        answer: Option<CreateOutcome>,
    ) -> bool {
        match self {
            Some(observer) => self_after is Some && observer.may_create(
                context,
                inputs,
                self_after->0,
                context_after,
                inputs_after,
                answer,
            ),
            None => self_after is None && context_after == context && inputs_after == inputs
                && answer is None,
        }
    }

    fn create(&mut self, context: &mut Cx, inputs: &mut CreateInputs) -> (answer: Option<
        CreateOutcome,
    >) {
        match self {
            Some(observer) => observer.create(context, inputs),
            None => None,
        }
    }

    open spec fn may_create_end(
        self,
        context: Cx,
        inputs: CreateInputs,
        outcome: CreateOutcome,
        self_after: Self,
        context_after: Cx,
        answer: CreateOutcome,
    ) -> bool {
        match self {
            Some(observer) => self_after is Some && observer.may_create_end(
                context,
                inputs,
                outcome,
                self_after->0,
                context_after,
                answer,
            ),
            None => self_after is None && context_after == context && answer == outcome,
        }
    }

    fn create_end(
        &mut self,
        context: &mut Cx,
        inputs: &CreateInputs,
        outcome: CreateOutcome,
    ) -> (answer: CreateOutcome) {
        match self {
            Some(observer) => observer.create_end(context, inputs, outcome),
            None => outcome,
        }
    }

    open spec fn may_selfdestruct(
        self,
        contract: Address,
        target: Address,
        value: U256,
        self_after: Self,
    ) -> bool {
        match self {
            Some(observer) => self_after is Some && observer.may_selfdestruct(
                contract,
                target,
                value,
                self_after->0,
            ),
            None => self_after is None,
        }
    }

    fn selfdestruct(&mut self, contract: Address, target: Address, value: U256) {
        match self {
            Some(observer) => observer.selfdestruct(contract, target, value),
            None => {},
        }
    }
}

} // verus!
