//! Two observers in a fixed order.
use crate::evm::{
    call_outcomes_differ, clone_call_outcome, clone_create_outcome, create_outcomes_differ,
};
use crate::observer::Observer;
use alloy_primitives::{Address, Log, U256};
use revm::interpreter::{CallInputs, CallOutcome, CreateInputs, CreateOutcome, Interpreter};
use vstd::prelude::*;

verus! {

/// Two observers, of which `first` sees every event before `second` does.
///
/// A chain is itself an observer, so chains nest: any number of observers can
/// be put in a fixed order this way, a stack or a slot among them.
///
/// * An event without an answer goes to `first`, then to `second`.
/// * The start of a call or of a creation goes to `first`. If `first` answers
///   with an outcome, that is the chain's answer and `second` is not called.
///   Otherwise the chain answers what `second` answers.
/// * The end of a call or of a creation goes to `first` with the outcome that
///   came in. If the answer of `first` differs from that outcome, it is the
///   chain's answer and `second` is not called. Otherwise `second` gets the
///   same outcome, and the chain answers what `second` answers.
pub struct Chain<A, B> {
    /// The observer that is called first.
    pub first: A,
    /// The observer that is called after `first`.
    pub second: B,
}

impl<Cx, A: Observer<Cx>, B: Observer<Cx>> Observer<Cx> for Chain<A, B> {
    open spec fn may_initialize_interp(
        self,
        interp: Interpreter,
        context: Cx,
        self_after: Self,
        interp_after: Interpreter,
        context_after: Cx,
    ) -> bool {
        exists|interp_between: Interpreter, context_between: Cx|
            {
                &&& #[trigger] self.first.may_initialize_interp(
                    interp,
                    context,
                    self_after.first,
                    interp_between,
                    context_between,
                )
                &&& self.second.may_initialize_interp(
                    interp_between,
                    context_between,
                    self_after.second,
                    interp_after,
                    context_after,
                )
            }
    }

    fn initialize_interp(&mut self, interp: &mut Interpreter, context: &mut Cx) {
        self.first.initialize_interp(interp, context);
        let ghost interp_between = *interp;
        let ghost context_between = *context;
        self.second.initialize_interp(interp, context);
        assert(old(self).first.may_initialize_interp(
            *old(interp),
            *old(context),
            self.first,
            interp_between,
            context_between,
        ));
    }

    open spec fn may_step(
        self,
        interp: Interpreter,
        context: Cx,
        self_after: Self,
        interp_after: Interpreter,
        context_after: Cx,
    ) -> bool {
        exists|interp_between: Interpreter, context_between: Cx|
            {
                &&& #[trigger] self.first.may_step(
                    interp,
                    context,
                    self_after.first,
                    interp_between,
                    context_between,
                )
                &&& self.second.may_step(
                    interp_between,
                    context_between,
                    self_after.second,
                    interp_after,
                    context_after,
                )
            }
    }

    fn step(&mut self, interp: &mut Interpreter, context: &mut Cx) {
        self.first.step(interp, context);
        let ghost interp_between = *interp;
        let ghost context_between = *context;
        self.second.step(interp, context);
        assert(old(self).first.may_step(
            *old(interp),
            *old(context),
            self.first,
            interp_between,
            context_between,
        ));
    }

    open spec fn may_step_end(
        self,
        interp: Interpreter,
        context: Cx,
        self_after: Self,
        interp_after: Interpreter,
        context_after: Cx,
    ) -> bool {
        exists|interp_between: Interpreter, context_between: Cx|
            {
                &&& #[trigger] self.first.may_step_end(
                    interp,
                    context,
                    self_after.first,
                    interp_between,
                    context_between,
                )
                &&& self.second.may_step_end(
                    interp_between,
                    context_between,
                    self_after.second,
                    interp_after,
                    context_after,
                )
            }
    }

    fn step_end(&mut self, interp: &mut Interpreter, context: &mut Cx) {
        self.first.step_end(interp, context);
        let ghost interp_between = *interp;
        let ghost context_between = *context;
        self.second.step_end(interp, context);
        assert(old(self).first.may_step_end(
            *old(interp),
            *old(context),
            self.first,
            interp_between,
            context_between,
        ));
    }

    open spec fn may_log(self, context: Cx, log: Log, self_after: Self, context_after: Cx) -> bool {
        exists|context_between: Cx|
            {
                &&& #[trigger] self.first.may_log(context, log, self_after.first, context_between)
                &&& self.second.may_log(context_between, log, self_after.second, context_after)
            }
    }

    fn log(&mut self, context: &mut Cx, log: &Log) {
        self.first.log(context, log);
        let ghost context_between = *context;
        self.second.log(context, log);
        assert(old(self).first.may_log(*old(context), *log, self.first, context_between));
    }

    open spec fn may_call(
        self,
        context: Cx,
        inputs: CallInputs,
        self_after: Self,
        context_after: Cx,
        inputs_after: CallInputs,
        answer: Option<CallOutcome>,
    ) -> bool {
        exists|context_between: Cx, inputs_between: CallInputs, first_answer: Option<CallOutcome>|
            {
                &&& #[trigger] self.first.may_call(
                    context,
                    inputs,
                    self_after.first,
                    context_between,
                    inputs_between,
                    first_answer,
                )
                &&& if first_answer is Some {
                    &&& answer == first_answer
                    &&& self_after.second == self.second
                    &&& context_after == context_between
                    &&& inputs_after == inputs_between
                } else {
                    self.second.may_call(
                        context_between,
                        inputs_between,
                        self_after.second,
                        context_after,
                        inputs_after,
                        answer,
                    )
                }
            }
    }

    fn call(&mut self, context: &mut Cx, inputs: &mut CallInputs) -> (answer: Option<CallOutcome>) {
        let first_answer = self.first.call(context, inputs);
        let ghost context_between = *context;
        let ghost inputs_between = *inputs;
        if first_answer.is_some() {
            assert(old(self).first.may_call(
                *old(context),
                *old(inputs),
                self.first,
                context_between,
                inputs_between,
                first_answer,
            ));
            return first_answer;
        }
        let answer = self.second.call(context, inputs);
        assert(old(self).first.may_call(
            *old(context),
            *old(inputs),
            self.first,
            context_between,
            inputs_between,
            first_answer,
        ));
        answer
    }

    open spec fn may_call_end(
        self,
        context: Cx,
        inputs: CallInputs,
        outcome: CallOutcome,
        self_after: Self,
        context_after: Cx,
        answer: CallOutcome,
    ) -> bool {
        exists|context_between: Cx, first_answer: CallOutcome|
            {
                &&& #[trigger] self.first.may_call_end(
                    context,
                    inputs,
                    outcome,
                    self_after.first,
                    context_between,
                    first_answer,
                )
                &&& if first_answer != outcome {
                    &&& answer == first_answer
                    &&& self_after.second == self.second
                    &&& context_after == context_between
                } else {
                    self.second.may_call_end(
                        context_between,
                        inputs,
                        outcome,
                        self_after.second,
                        context_after,
                        answer,
                    )
                }
            }
    }

    fn call_end(&mut self, context: &mut Cx, inputs: &CallInputs, outcome: CallOutcome) -> (answer:
        CallOutcome) {
        let first_answer = self.first.call_end(context, inputs, clone_call_outcome(&outcome));
        let ghost context_between = *context;
        if call_outcomes_differ(&first_answer, &outcome) {
            assert(old(self).first.may_call_end(
                *old(context),
                *inputs,
                outcome,
                self.first,
                context_between,
                first_answer,
            ));
            return first_answer;
        }
        let answer = self.second.call_end(context, inputs, outcome);
        assert(old(self).first.may_call_end(
            *old(context),
            *inputs,
            outcome,
            self.first,
            context_between,
            first_answer,
        ));
        answer
    }

    open spec fn may_create(
        self,
        context: Cx,
        inputs: CreateInputs,
        self_after: Self,
        context_after: Cx,
        inputs_after: CreateInputs,
        answer: Option<CreateOutcome>,
    ) -> bool {
        exists|
            context_between: Cx,
            inputs_between: CreateInputs,
            first_answer: Option<CreateOutcome>,
        |
            {
                &&& #[trigger] self.first.may_create(
                    context,
                    inputs,
                    self_after.first,
                    context_between,
                    inputs_between,
                    first_answer,
                )
                &&& if first_answer is Some {
                    &&& answer == first_answer
                    &&& self_after.second == self.second
                    &&& context_after == context_between
                    &&& inputs_after == inputs_between
                } else {
                    self.second.may_create(
                        context_between,
                        inputs_between,
                        self_after.second,
                        context_after,
                        inputs_after,
                        answer,
                    )
                }
            }
    }

    fn create(&mut self, context: &mut Cx, inputs: &mut CreateInputs) -> (answer: Option<
        CreateOutcome,
    >) {
        let first_answer = self.first.create(context, inputs);
        let ghost context_between = *context;
        let ghost inputs_between = *inputs;
        if first_answer.is_some() {
            assert(old(self).first.may_create(
                *old(context),
                *old(inputs),
                self.first,
                context_between,
                inputs_between,
                first_answer,
            ));
            return first_answer;
        }
        let answer = self.second.create(context, inputs);
        assert(old(self).first.may_create(
            *old(context),
            *old(inputs),
            self.first,
            context_between,
            inputs_between,
            first_answer,
        ));
        answer
    }

    open spec fn may_create_end(
        self,
        context: Cx,
        inputs: CreateInputs,
        outcome: CreateOutcome,
        self_after: Self,
        context_after: Cx,
        answer: CreateOutcome,
    ) -> bool {
        exists|context_between: Cx, first_answer: CreateOutcome|
            {
                &&& #[trigger] self.first.may_create_end(
                    context,
                    inputs,
                    outcome,
                    self_after.first,
                    context_between,
                    first_answer,
                )
                &&& if first_answer != outcome {
                    &&& answer == first_answer
                    &&& self_after.second == self.second
                    &&& context_after == context_between
                } else {
                    self.second.may_create_end(
                        context_between,
                        inputs,
                        outcome,
                        self_after.second,
                        context_after,
                        answer,
                    )
                }
            }
    }

    fn create_end(
        &mut self,
        context: &mut Cx,
        inputs: &CreateInputs,
        outcome: CreateOutcome,
    ) -> (answer: CreateOutcome) {
        let first_answer = self.first.create_end(context, inputs, clone_create_outcome(&outcome));
        let ghost context_between = *context;
        if create_outcomes_differ(&first_answer, &outcome) {
            assert(old(self).first.may_create_end(
                *old(context),
                *inputs,
                outcome,
                self.first,
                context_between,
                first_answer,
            ));
            return first_answer;
        }
        let answer = self.second.create_end(context, inputs, outcome);
        assert(old(self).first.may_create_end(
            *old(context),
            *inputs,
            outcome,
            self.first,
            context_between,
            first_answer,
        ));
        answer
    }

    open spec fn may_selfdestruct(
        self,
        contract: Address,
        target: Address,
        value: U256,
        self_after: Self,
    ) -> bool {
        &&& self.first.may_selfdestruct(contract, target, value, self_after.first)
        &&& self.second.may_selfdestruct(contract, target, value, self_after.second)
    }

    fn selfdestruct(&mut self, contract: Address, target: Address, value: U256) {
        self.first.selfdestruct(contract, target, value);
        self.second.selfdestruct(contract, target, value);
    }
}

} // verus!
