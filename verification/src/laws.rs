//! What holds of every stack and of every chain, whatever observers they hold.
//!
//! Every law is stated over the `may_` relations of [`Observer`], in which the
//! slot, the stack and the chain say what their methods do.
use crate::chain::Chain;
use crate::observer::Observer;
use crate::stack::InspectorStack;
use alloy_primitives::{Address, Log, U256};
use revm::inspectors::CustomPrintTracer;
use revm::interpreter::{CallInputs, CallOutcome, CreateInputs, CreateOutcome, Interpreter};
use vstd::prelude::*;

verus! {

/// A stack without an observer does nothing: every event leaves the stack and
/// the event's data as they were, the start of a call or of a creation is not
/// overridden, and the end of one returns the outcome that came in.
pub proof fn empty_stack_changes_nothing<Cx>(stack: InspectorStack) where
    CustomPrintTracer: Observer<Cx>,

    requires
        stack.custom_print_tracer is None,
    ensures
        forall|
            interp: Interpreter,
            context: Cx,
            after: InspectorStack,
            interp_after: Interpreter,
            context_after: Cx,
        |
            #[trigger] stack.may_initialize_interp(
                interp,
                context,
                after,
                interp_after,
                context_after,
            ) <==> {
                &&& after == stack
                &&& interp_after == interp
                &&& context_after == context
            },
        forall|
            interp: Interpreter,
            context: Cx,
            after: InspectorStack,
            interp_after: Interpreter,
            context_after: Cx,
        |
            #[trigger] stack.may_step(interp, context, after, interp_after, context_after) <==> {
                &&& after == stack
                &&& interp_after == interp
                &&& context_after == context
            },
        forall|
            interp: Interpreter,
            context: Cx,
            after: InspectorStack,
            interp_after: Interpreter,
            context_after: Cx,
        |
            #[trigger] stack.may_step_end(
                interp,
                context,
                after,
                interp_after,
                context_after,
            ) <==> {
                &&& after == stack
                &&& interp_after == interp
                &&& context_after == context
            },
        forall|context: Cx, log: Log, after: InspectorStack, context_after: Cx|
            #[trigger] stack.may_log(context, log, after, context_after) <==> {
                &&& after == stack
                &&& context_after == context
            },
        forall|
            context: Cx,
            inputs: CallInputs,
            after: InspectorStack,
            context_after: Cx,
            inputs_after: CallInputs,
            answer: Option<CallOutcome>,
        |
            #[trigger] stack.may_call(
                context,
                inputs,
                after,
                context_after,
                inputs_after,
                answer,
            ) <==> {
                &&& after == stack
                &&& context_after == context
                &&& inputs_after == inputs
                &&& answer is None
            },
        forall|
            context: Cx,
            inputs: CreateInputs,
            after: InspectorStack,
            context_after: Cx,
            inputs_after: CreateInputs,
            answer: Option<CreateOutcome>,
        |
            #[trigger] stack.may_create(
                context,
                inputs,
                after,
                context_after,
                inputs_after,
                answer,
            ) <==> {
                &&& after == stack
                &&& context_after == context
                &&& inputs_after == inputs
                &&& answer is None
            },
        forall|
            context: Cx,
            inputs: CallInputs,
            outcome: CallOutcome,
            after: InspectorStack,
            context_after: Cx,
            answer: CallOutcome,
        |
            #[trigger] stack.may_call_end(
                context,
                inputs,
                outcome,
                after,
                context_after,
                answer,
            ) <==> {
                &&& after == stack
                &&& context_after == context
                &&& answer == outcome
            },
        forall|
            context: Cx,
            inputs: CreateInputs,
            outcome: CreateOutcome,
            after: InspectorStack,
            context_after: Cx,
            answer: CreateOutcome,
        |
            #[trigger] stack.may_create_end(
                context,
                inputs,
                outcome,
                after,
                context_after,
                answer,
            ) <==> {
                &&& after == stack
                &&& context_after == context
                &&& answer == outcome
            },
        forall|contract: Address, target: Address, value: U256, after: InspectorStack|
            #[trigger] Observer::<Cx>::may_selfdestruct(
                stack,
                contract,
                target,
                value,
                after,
            ) <==> {
                after == stack
            },
{
}

/// A stack with one observer does what that observer does: every event has
/// exactly the effects and the answer that the observer gives it, and the hook
/// stays.
pub proof fn sole_observer_decides<Cx>(stack: InspectorStack) where
    CustomPrintTracer: Observer<Cx>,

    requires
        stack.custom_print_tracer is Some,
    ensures
        forall|
            interp: Interpreter,
            context: Cx,
            after: InspectorStack,
            interp_after: Interpreter,
            context_after: Cx,
        |
            #[trigger] stack.may_initialize_interp(
                interp,
                context,
                after,
                interp_after,
                context_after,
            ) <==> {
                &&& after.hook == stack.hook
                &&& after.custom_print_tracer is Some
                &&& stack.custom_print_tracer->0.may_initialize_interp(
                    interp,
                    context,
                    after.custom_print_tracer->0,
                    interp_after,
                    context_after,
                )
            },
        forall|
            interp: Interpreter,
            context: Cx,
            after: InspectorStack,
            interp_after: Interpreter,
            context_after: Cx,
        |
            #[trigger] stack.may_step(interp, context, after, interp_after, context_after) <==> {
                &&& after.hook == stack.hook
                &&& after.custom_print_tracer is Some
                &&& stack.custom_print_tracer->0.may_step(
                    interp,
                    context,
                    after.custom_print_tracer->0,
                    interp_after,
                    context_after,
                )
            },
        forall|
            interp: Interpreter,
            context: Cx,
            after: InspectorStack,
            interp_after: Interpreter,
            context_after: Cx,
        |
            #[trigger] stack.may_step_end(
                interp,
                context,
                after,
                interp_after,
                context_after,
            ) <==> {
                &&& after.hook == stack.hook
                &&& after.custom_print_tracer is Some
                &&& stack.custom_print_tracer->0.may_step_end(
                    interp,
                    context,
                    after.custom_print_tracer->0,
                    interp_after,
                    context_after,
                )
            },
        forall|context: Cx, log: Log, after: InspectorStack, context_after: Cx|
            #[trigger] stack.may_log(context, log, after, context_after) <==> {
                &&& after.hook == stack.hook
                &&& after.custom_print_tracer is Some
                &&& stack.custom_print_tracer->0.may_log(
                    context,
                    log,
                    after.custom_print_tracer->0,
                    context_after,
                )
            },
        forall|
            context: Cx,
            inputs: CallInputs,
            after: InspectorStack,
            context_after: Cx,
            inputs_after: CallInputs,
            answer: Option<CallOutcome>,
        |
            #[trigger] stack.may_call(
                context,
                inputs,
                after,
                context_after,
                inputs_after,
                answer,
            ) <==> {
                &&& after.hook == stack.hook
                &&& after.custom_print_tracer is Some
                &&& stack.custom_print_tracer->0.may_call(
                    context,
                    inputs,
                    after.custom_print_tracer->0,
                    context_after,
                    inputs_after,
                    answer,
                )
            },
        forall|
            context: Cx,
            inputs: CreateInputs,
            after: InspectorStack,
            context_after: Cx,
            inputs_after: CreateInputs,
            answer: Option<CreateOutcome>,
        |
            #[trigger] stack.may_create(
                context,
                inputs,
                after,
                context_after,
                inputs_after,
                answer,
            ) <==> {
                &&& after.hook == stack.hook
                &&& after.custom_print_tracer is Some
                &&& stack.custom_print_tracer->0.may_create(
                    context,
                    inputs,
                    after.custom_print_tracer->0,
                    context_after,
                    inputs_after,
                    answer,
                )
            },
        forall|
            context: Cx,
            inputs: CallInputs,
            outcome: CallOutcome,
            after: InspectorStack,
            context_after: Cx,
            answer: CallOutcome,
        |
            #[trigger] stack.may_call_end(
                context,
                inputs,
                outcome,
                after,
                context_after,
                answer,
            ) <==> {
                &&& after.hook == stack.hook
                &&& after.custom_print_tracer is Some
                &&& stack.custom_print_tracer->0.may_call_end(
                    context,
                    inputs,
                    outcome,
                    after.custom_print_tracer->0,
                    context_after,
                    answer,
                )
            },
        forall|
            context: Cx,
            inputs: CreateInputs,
            outcome: CreateOutcome,
            after: InspectorStack,
            context_after: Cx,
            answer: CreateOutcome,
        |
            #[trigger] stack.may_create_end(
                context,
                inputs,
                outcome,
                after,
                context_after,
                answer,
            ) <==> {
                &&& after.hook == stack.hook
                &&& after.custom_print_tracer is Some
                &&& stack.custom_print_tracer->0.may_create_end(
                    context,
                    inputs,
                    outcome,
                    after.custom_print_tracer->0,
                    context_after,
                    answer,
                )
            },
        forall|contract: Address, target: Address, value: U256, after: InspectorStack|
            #[trigger] Observer::<Cx>::may_selfdestruct(
                stack,
                contract,
                target,
                value,
                after,
            ) <==> {
                &&& after.hook == stack.hook
                &&& after.custom_print_tracer is Some
                &&& Observer::<Cx>::may_selfdestruct(
                    stack.custom_print_tracer->0,
                    contract,
                    target,
                    value,
                    after.custom_print_tracer->0,
                )
            },
{
}

/// An empty slot at the head of a chain counts for nothing: the chain does what
/// its second observer does.
pub proof fn empty_slot_ahead_is_skipped<Cx, A: Observer<Cx>, B: Observer<Cx>>(
    chain: Chain<Option<A>, B>,
)
    requires
        chain.first is None,
    ensures
        forall|
            interp: Interpreter,
            context: Cx,
            after: Chain<Option<A>, B>,
            interp_after: Interpreter,
            context_after: Cx,
        |
            #[trigger] chain.may_initialize_interp(
                interp,
                context,
                after,
                interp_after,
                context_after,
            ) <==> {
                &&& after.first is None
                &&& chain.second.may_initialize_interp(
                    interp,
                    context,
                    after.second,
                    interp_after,
                    context_after,
                )
            },
        forall|
            interp: Interpreter,
            context: Cx,
            after: Chain<Option<A>, B>,
            interp_after: Interpreter,
            context_after: Cx,
        |
            #[trigger] chain.may_step(interp, context, after, interp_after, context_after) <==> {
                &&& after.first is None
                &&& chain.second.may_step(
                    interp,
                    context,
                    after.second,
                    interp_after,
                    context_after,
                )
            },
        forall|
            interp: Interpreter,
            context: Cx,
            after: Chain<Option<A>, B>,
            interp_after: Interpreter,
            context_after: Cx,
        |
            #[trigger] chain.may_step_end(
                interp,
                context,
                after,
                interp_after,
                context_after,
            ) <==> {
                &&& after.first is None
                &&& chain.second.may_step_end(
                    interp,
                    context,
                    after.second,
                    interp_after,
                    context_after,
                )
            },
        forall|context: Cx, log: Log, after: Chain<Option<A>, B>, context_after: Cx|
            #[trigger] chain.may_log(context, log, after, context_after) <==> {
                &&& after.first is None
                &&& chain.second.may_log(context, log, after.second, context_after)
            },
        forall|
            context: Cx,
            inputs: CallInputs,
            after: Chain<Option<A>, B>,
            context_after: Cx,
            inputs_after: CallInputs,
            answer: Option<CallOutcome>,
        |
            #[trigger] chain.may_call(
                context,
                inputs,
                after,
                context_after,
                inputs_after,
                answer,
            ) <==> {
                &&& after.first is None
                &&& chain.second.may_call(
                    context,
                    inputs,
                    after.second,
                    context_after,
                    inputs_after,
                    answer,
                )
            },
        forall|
            context: Cx,
            inputs: CreateInputs,
            after: Chain<Option<A>, B>,
            context_after: Cx,
            inputs_after: CreateInputs,
            answer: Option<CreateOutcome>,
        |
            #[trigger] chain.may_create(
                context,
                inputs,
                after,
                context_after,
                inputs_after,
                answer,
            ) <==> {
                &&& after.first is None
                &&& chain.second.may_create(
                    context,
                    inputs,
                    after.second,
                    context_after,
                    inputs_after,
                    answer,
                )
            },
        forall|
            context: Cx,
            inputs: CallInputs,
            outcome: CallOutcome,
            after: Chain<Option<A>, B>,
            context_after: Cx,
            answer: CallOutcome,
        |
            #[trigger] chain.may_call_end(
                context,
                inputs,
                outcome,
                after,
                context_after,
                answer,
            ) <==> {
                &&& after.first is None
                &&& chain.second.may_call_end(
                    context,
                    inputs,
                    outcome,
                    after.second,
                    context_after,
                    answer,
                )
            },
        forall|
            context: Cx,
            inputs: CreateInputs,
            outcome: CreateOutcome,
            after: Chain<Option<A>, B>,
            context_after: Cx,
            answer: CreateOutcome,
        |
            #[trigger] chain.may_create_end(
                context,
                inputs,
                outcome,
                after,
                context_after,
                answer,
            ) <==> {
                &&& after.first is None
                &&& chain.second.may_create_end(
                    context,
                    inputs,
                    outcome,
                    after.second,
                    context_after,
                    answer,
                )
            },
        forall|contract: Address, target: Address, value: U256, after: Chain<Option<A>, B>|
            #[trigger] Observer::<Cx>::may_selfdestruct(
                chain,
                contract,
                target,
                value,
                after,
            ) <==> {
                &&& after.first is None
                &&& Observer::<Cx>::may_selfdestruct(
                    chain.second,
                    contract,
                    target,
                    value,
                    after.second,
                )
            },
{
    // For every event the empty slot hands on what it got: that is the step of
    // `first` which the chain's relation asks for.
    assert forall|
        interp: Interpreter,
        context: Cx,
        after: Chain<Option<A>, B>,
        interp_after: Interpreter,
        context_after: Cx,
    |
        after.first is None && chain.second.may_initialize_interp(
            interp,
            context,
            after.second,
            interp_after,
            context_after,
        ) implies
        #[trigger] chain.may_initialize_interp(
            interp,
            context,
            after,
            interp_after,
            context_after,
        ) by {
        assert(chain.first.may_initialize_interp(interp, context, after.first, interp, context));
    }
    assert forall|
        interp: Interpreter,
        context: Cx,
        after: Chain<Option<A>, B>,
        interp_after: Interpreter,
        context_after: Cx,
    |
        after.first is None && chain.second.may_step(
            interp,
            context,
            after.second,
            interp_after,
            context_after,
        ) implies
        #[trigger] chain.may_step(interp, context, after, interp_after, context_after) by {
        assert(chain.first.may_step(interp, context, after.first, interp, context));
    }
    assert forall|
        interp: Interpreter,
        context: Cx,
        after: Chain<Option<A>, B>,
        interp_after: Interpreter,
        context_after: Cx,
    |
        after.first is None && chain.second.may_step_end(
            interp,
            context,
            after.second,
            interp_after,
            context_after,
        ) implies
        #[trigger] chain.may_step_end(interp, context, after, interp_after, context_after) by {
        assert(chain.first.may_step_end(interp, context, after.first, interp, context));
    }
    assert forall|context: Cx, log: Log, after: Chain<Option<A>, B>, context_after: Cx|
        after.first is None && chain.second.may_log(
            context,
            log,
            after.second,
            context_after,
        ) implies
        #[trigger] chain.may_log(context, log, after, context_after) by {
        assert(chain.first.may_log(context, log, after.first, context));
    }
    assert forall|
        context: Cx,
        inputs: CallInputs,
        after: Chain<Option<A>, B>,
        context_after: Cx,
        inputs_after: CallInputs,
        answer: Option<CallOutcome>,
    |
        after.first is None && chain.second.may_call(
            context,
            inputs,
            after.second,
            context_after,
            inputs_after,
            answer,
        ) implies
        #[trigger] chain.may_call(context, inputs, after, context_after, inputs_after, answer) by {
        assert(chain.first.may_call(context, inputs, after.first, context, inputs, None));
    }
    assert forall|
        context: Cx,
        inputs: CreateInputs,
        after: Chain<Option<A>, B>,
        context_after: Cx,
        inputs_after: CreateInputs,
        answer: Option<CreateOutcome>,
    |
        after.first is None && chain.second.may_create(
            context,
            inputs,
            after.second,
            context_after,
            inputs_after,
            answer,
        ) implies
        #[trigger] chain.may_create(
            context,
            inputs,
            after,
            context_after,
            inputs_after,
            answer,
        ) by {
        assert(chain.first.may_create(context, inputs, after.first, context, inputs, None));
    }
    assert forall|
        context: Cx,
        inputs: CallInputs,
        outcome: CallOutcome,
        after: Chain<Option<A>, B>,
        context_after: Cx,
        answer: CallOutcome,
    |
        after.first is None && chain.second.may_call_end(
            context,
            inputs,
            outcome,
            after.second,
            context_after,
            answer,
        ) implies
        #[trigger] chain.may_call_end(context, inputs, outcome, after, context_after, answer) by {
        assert(chain.first.may_call_end(context, inputs, outcome, after.first, context, outcome));
    }
    assert forall|
        context: Cx,
        inputs: CreateInputs,
        outcome: CreateOutcome,
        after: Chain<Option<A>, B>,
        context_after: Cx,
        answer: CreateOutcome,
    |
        after.first is None && chain.second.may_create_end(
            context,
            inputs,
            outcome,
            after.second,
            context_after,
            answer,
        ) implies
        #[trigger] chain.may_create_end(context, inputs, outcome, after, context_after, answer) by {
        assert(chain.first.may_create_end(context, inputs, outcome, after.first, context, outcome));
    }
}

/// An empty slot at the tail of a chain counts for nothing: the chain does what
/// its first observer does.
pub proof fn empty_slot_behind_is_skipped<Cx, A: Observer<Cx>, B: Observer<Cx>>(
    chain: Chain<A, Option<B>>,
)
    requires
        chain.second is None,
    ensures
        forall|
            interp: Interpreter,
            context: Cx,
            after: Chain<A, Option<B>>,
            interp_after: Interpreter,
            context_after: Cx,
        |
            #[trigger] chain.may_initialize_interp(
                interp,
                context,
                after,
                interp_after,
                context_after,
            ) <==> {
                &&& after.second is None
                &&& chain.first.may_initialize_interp(
                    interp,
                    context,
                    after.first,
                    interp_after,
                    context_after,
                )
            },
        forall|
            interp: Interpreter,
            context: Cx,
            after: Chain<A, Option<B>>,
            interp_after: Interpreter,
            context_after: Cx,
        |
            #[trigger] chain.may_step(interp, context, after, interp_after, context_after) <==> {
                &&& after.second is None
                &&& chain.first.may_step(interp, context, after.first, interp_after, context_after)
            },
        forall|
            interp: Interpreter,
            context: Cx,
            after: Chain<A, Option<B>>,
            interp_after: Interpreter,
            context_after: Cx,
        |
            #[trigger] chain.may_step_end(
                interp,
                context,
                after,
                interp_after,
                context_after,
            ) <==> {
                &&& after.second is None
                &&& chain.first.may_step_end(
                    interp,
                    context,
                    after.first,
                    interp_after,
                    context_after,
                )
            },
        forall|context: Cx, log: Log, after: Chain<A, Option<B>>, context_after: Cx|
            #[trigger] chain.may_log(context, log, after, context_after) <==> {
                &&& after.second is None
                &&& chain.first.may_log(context, log, after.first, context_after)
            },
        forall|
            context: Cx,
            inputs: CallInputs,
            after: Chain<A, Option<B>>,
            context_after: Cx,
            inputs_after: CallInputs,
            answer: Option<CallOutcome>,
        |
            #[trigger] chain.may_call(
                context,
                inputs,
                after,
                context_after,
                inputs_after,
                answer,
            ) <==> {
                &&& after.second is None
                &&& chain.first.may_call(
                    context,
                    inputs,
                    after.first,
                    context_after,
                    inputs_after,
                    answer,
                )
            },
        forall|
            context: Cx,
            inputs: CreateInputs,
            after: Chain<A, Option<B>>,
            context_after: Cx,
            inputs_after: CreateInputs,
            answer: Option<CreateOutcome>,
        |
            #[trigger] chain.may_create(
                context,
                inputs,
                after,
                context_after,
                inputs_after,
                answer,
            ) <==> {
                &&& after.second is None
                &&& chain.first.may_create(
                    context,
                    inputs,
                    after.first,
                    context_after,
                    inputs_after,
                    answer,
                )
            },
        forall|
            context: Cx,
            inputs: CallInputs,
            outcome: CallOutcome,
            after: Chain<A, Option<B>>,
            context_after: Cx,
            answer: CallOutcome,
        |
            #[trigger] chain.may_call_end(
                context,
                inputs,
                outcome,
                after,
                context_after,
                answer,
            ) <==> {
                &&& after.second is None
                &&& chain.first.may_call_end(
                    context,
                    inputs,
                    outcome,
                    after.first,
                    context_after,
                    answer,
                )
            },
        forall|
            context: Cx,
            inputs: CreateInputs,
            outcome: CreateOutcome,
            after: Chain<A, Option<B>>,
            context_after: Cx,
            answer: CreateOutcome,
        |
            #[trigger] chain.may_create_end(
                context,
                inputs,
                outcome,
                after,
                context_after,
                answer,
            ) <==> {
                &&& after.second is None
                &&& chain.first.may_create_end(
                    context,
                    inputs,
                    outcome,
                    after.first,
                    context_after,
                    answer,
                )
            },
        forall|contract: Address, target: Address, value: U256, after: Chain<A, Option<B>>|
            #[trigger] Observer::<Cx>::may_selfdestruct(
                chain,
                contract,
                target,
                value,
                after,
            ) <==> {
                &&& after.second is None
                &&& Observer::<Cx>::may_selfdestruct(
                    chain.first,
                    contract,
                    target,
                    value,
                    after.first,
                )
            },
{
}

/// An observer that, as it stands, overrides no call.
pub open spec fn never_overrides_call<Cx, O: Observer<Cx>>(observer: O) -> bool {
    forall|
        context: Cx,
        inputs: CallInputs,
        after: O,
        context_after: Cx,
        inputs_after: CallInputs,
        answer: Option<CallOutcome>,
    |
        #[trigger] observer.may_call(context, inputs, after, context_after, inputs_after, answer)
            ==> answer is None
}

/// An observer that, as it stands, overrides every call.
pub open spec fn always_overrides_call<Cx, O: Observer<Cx>>(observer: O) -> bool {
    forall|
        context: Cx,
        inputs: CallInputs,
        after: O,
        context_after: Cx,
        inputs_after: CallInputs,
        answer: Option<CallOutcome>,
    |
        #[trigger] observer.may_call(context, inputs, after, context_after, inputs_after, answer)
            ==> answer is Some
}

/// An observer that, as it stands, returns the outcome of every call as it
/// got it.
pub open spec fn keeps_call_outcome<Cx, O: Observer<Cx>>(observer: O) -> bool {
    forall|
        context: Cx,
        inputs: CallInputs,
        outcome: CallOutcome,
        after: O,
        context_after: Cx,
        answer: CallOutcome,
    |
        #[trigger] observer.may_call_end(context, inputs, outcome, after, context_after, answer)
            ==> answer == outcome
}

/// An observer that, as it stands, returns for every call an outcome other
/// than the one it got.
pub open spec fn changes_call_outcome<Cx, O: Observer<Cx>>(observer: O) -> bool {
    forall|
        context: Cx,
        inputs: CallInputs,
        outcome: CallOutcome,
        after: O,
        context_after: Cx,
        answer: CallOutcome,
    |
        #[trigger] observer.may_call_end(context, inputs, outcome, after, context_after, answer)
            ==> answer != outcome
}

/// When the first observer of a chain does not override a call, the chain
/// answers what the second observer answers, called after the first: the later
/// observer is heard. If the second always overrides, so does the chain.
pub proof fn call_falls_to_second<Cx, A: Observer<Cx>, B: Observer<Cx>>(
    chain: Chain<A, B>,
    context: Cx,
    inputs: CallInputs,
    after: Chain<A, B>,
    context_after: Cx,
    inputs_after: CallInputs,
    answer: Option<CallOutcome>,
)
    requires
        chain.may_call(context, inputs, after, context_after, inputs_after, answer),
        never_overrides_call::<Cx, A>(chain.first),
    ensures
        exists|context_between: Cx, inputs_between: CallInputs|
            {
                &&& #[trigger] chain.first.may_call(
                    context,
                    inputs,
                    after.first,
                    context_between,
                    inputs_between,
                    None,
                )
                &&& chain.second.may_call(
                    context_between,
                    inputs_between,
                    after.second,
                    context_after,
                    inputs_after,
                    answer,
                )
            },
        always_overrides_call::<Cx, B>(chain.second) ==> answer is Some,
{
}

/// When the first observer of a chain overrides a call, its answer is the
/// chain's, and the second observer is not called: it stays as it was, and the
/// event's data are as the first observer left them.
pub proof fn call_override_stops_chain<Cx, A: Observer<Cx>, B: Observer<Cx>>(
    chain: Chain<A, B>,
    context: Cx,
    inputs: CallInputs,
    after: Chain<A, B>,
    context_after: Cx,
    inputs_after: CallInputs,
    answer: Option<CallOutcome>,
)
    requires
        chain.may_call(context, inputs, after, context_after, inputs_after, answer),
        always_overrides_call::<Cx, A>(chain.first),
    ensures
        answer is Some,
        after.second == chain.second,
        chain.first.may_call(context, inputs, after.first, context_after, inputs_after, answer),
{
}

/// When the first observer of a chain changes the outcome of a call, its
/// answer is the chain's, and the second observer is not called: it stays as it
/// was, and the context is as the first observer left it.
pub proof fn call_end_change_stops_chain<Cx, A: Observer<Cx>, B: Observer<Cx>>(
    chain: Chain<A, B>,
    context: Cx,
    inputs: CallInputs,
    outcome: CallOutcome,
    after: Chain<A, B>,
    context_after: Cx,
    answer: CallOutcome,
)
    requires
        chain.may_call_end(context, inputs, outcome, after, context_after, answer),
        changes_call_outcome::<Cx, A>(chain.first),
    ensures
        answer != outcome,
        after.second == chain.second,
        chain.first.may_call_end(context, inputs, outcome, after.first, context_after, answer),
{
}

/// Of three observers in a chain, when the first keeps the outcome of a call
/// and the second changes it, the chain answers what the second answers, and
/// the third observer is not called: it stays as it was.
pub proof fn call_end_first_change_wins<Cx, A: Observer<Cx>, B: Observer<Cx>, C: Observer<Cx>>(
    chain: Chain<A, Chain<B, C>>,
    context: Cx,
    inputs: CallInputs,
    outcome: CallOutcome,
    after: Chain<A, Chain<B, C>>,
    context_after: Cx,
    answer: CallOutcome,
)
    requires
        chain.may_call_end(context, inputs, outcome, after, context_after, answer),
        keeps_call_outcome::<Cx, A>(chain.first),
        changes_call_outcome::<Cx, B>(chain.second.first),
    ensures
        answer != outcome,
        after.second.second == chain.second.second,
        exists|context_between: Cx|
            {
                &&& #[trigger] chain.first.may_call_end(
                    context,
                    inputs,
                    outcome,
                    after.first,
                    context_between,
                    outcome,
                )
                &&& chain.second.first.may_call_end(
                    context_between,
                    inputs,
                    outcome,
                    after.second.first,
                    context_after,
                    answer,
                )
            },
{
}

/// A slot keeps the outcome of every call when it is empty or its observer
/// keeps it.
pub proof fn call_end_unchanged_through_slot<Cx, O: Observer<Cx>>(slot: Option<O>)
    requires
        slot is Some ==> keeps_call_outcome::<Cx, O>(slot->0),
    ensures
        keeps_call_outcome::<Cx, Option<O>>(slot),
{
}

/// A chain of two observers that keep the outcome of every call keeps it too:
/// where no observer changes the outcome, what comes back equals what came in.
pub proof fn call_end_unchanged_through_chain<Cx, A: Observer<Cx>, B: Observer<Cx>>(
    chain: Chain<A, B>,
)
    requires
        keeps_call_outcome::<Cx, A>(chain.first),
        keeps_call_outcome::<Cx, B>(chain.second),
    ensures
        keeps_call_outcome::<Cx, Chain<A, B>>(chain),
{
}

/// A stack whose observer, if it has one, keeps the outcome of every call
/// keeps it too.
pub proof fn call_end_unchanged_through_stack<Cx>(stack: InspectorStack) where
    CustomPrintTracer: Observer<Cx>,

    requires
        stack.custom_print_tracer is Some ==> keeps_call_outcome::<Cx, CustomPrintTracer>(
            stack.custom_print_tracer->0,
        ),
    ensures
        keeps_call_outcome::<Cx, InspectorStack>(stack),
{
}

/// An observer that, as it stands, overrides no creation.
pub open spec fn never_overrides_create<Cx, O: Observer<Cx>>(observer: O) -> bool {
    forall|
        context: Cx,
        inputs: CreateInputs,
        after: O,
        context_after: Cx,
        inputs_after: CreateInputs,
        answer: Option<CreateOutcome>,
    |
        #[trigger] observer.may_create(context, inputs, after, context_after, inputs_after, answer)
            ==> answer is None
}

/// An observer that, as it stands, overrides every creation.
pub open spec fn always_overrides_create<Cx, O: Observer<Cx>>(observer: O) -> bool {
    forall|
        context: Cx,
        inputs: CreateInputs,
        after: O,
        context_after: Cx,
        inputs_after: CreateInputs,
        answer: Option<CreateOutcome>,
    |
        #[trigger] observer.may_create(context, inputs, after, context_after, inputs_after, answer)
            ==> answer is Some
}

/// An observer that, as it stands, returns the outcome of every creation as it
/// got it.
pub open spec fn keeps_create_outcome<Cx, O: Observer<Cx>>(observer: O) -> bool {
    forall|
        context: Cx,
        inputs: CreateInputs,
        outcome: CreateOutcome,
        after: O,
        context_after: Cx,
        answer: CreateOutcome,
    |
        #[trigger] observer.may_create_end(context, inputs, outcome, after, context_after, answer)
            ==> answer == outcome
}

/// An observer that, as it stands, returns for every creation an outcome other
/// than the one it got.
pub open spec fn changes_create_outcome<Cx, O: Observer<Cx>>(observer: O) -> bool {
    forall|
        context: Cx,
        inputs: CreateInputs,
        outcome: CreateOutcome,
        after: O,
        context_after: Cx,
        answer: CreateOutcome,
    |
        #[trigger] observer.may_create_end(context, inputs, outcome, after, context_after, answer)
            ==> answer != outcome
}

/// When the first observer of a chain does not override a creation, the chain
/// answers what the second observer answers, called after the first: the later
/// observer is heard. If the second always overrides, so does the chain.
pub proof fn create_falls_to_second<Cx, A: Observer<Cx>, B: Observer<Cx>>(
    chain: Chain<A, B>,
    context: Cx,
    inputs: CreateInputs,
    after: Chain<A, B>,
    context_after: Cx,
    inputs_after: CreateInputs,
    answer: Option<CreateOutcome>,
)
    requires
        chain.may_create(context, inputs, after, context_after, inputs_after, answer),
        never_overrides_create::<Cx, A>(chain.first),
    ensures
        exists|context_between: Cx, inputs_between: CreateInputs|
            {
                &&& #[trigger] chain.first.may_create(
                    context,
                    inputs,
                    after.first,
                    context_between,
                    inputs_between,
                    None,
                )
                &&& chain.second.may_create(
                    context_between,
                    inputs_between,
                    after.second,
                    context_after,
                    inputs_after,
                    answer,
                )
            },
        always_overrides_create::<Cx, B>(chain.second) ==> answer is Some,
{
}

/// When the first observer of a chain overrides a creation, its answer is the
/// chain's, and the second observer is not called: it stays as it was, and the
/// event's data are as the first observer left them.
pub proof fn create_override_stops_chain<Cx, A: Observer<Cx>, B: Observer<Cx>>(
    chain: Chain<A, B>,
    context: Cx,
    inputs: CreateInputs,
    after: Chain<A, B>,
    context_after: Cx,
    inputs_after: CreateInputs,
    answer: Option<CreateOutcome>,
)
    requires
        chain.may_create(context, inputs, after, context_after, inputs_after, answer),
        always_overrides_create::<Cx, A>(chain.first),
    ensures
        answer is Some,
        after.second == chain.second,
        chain.first.may_create(context, inputs, after.first, context_after, inputs_after, answer),
{
}

/// When the first observer of a chain changes the outcome of a creation, its
/// answer is the chain's, and the second observer is not called: it stays as it
/// was, and the context is as the first observer left it.
pub proof fn create_end_change_stops_chain<Cx, A: Observer<Cx>, B: Observer<Cx>>(
    chain: Chain<A, B>,
    context: Cx,
    inputs: CreateInputs,
    outcome: CreateOutcome,
    after: Chain<A, B>,
    context_after: Cx,
    answer: CreateOutcome,
)
    requires
        chain.may_create_end(context, inputs, outcome, after, context_after, answer),
        changes_create_outcome::<Cx, A>(chain.first),
    ensures
        answer != outcome,
        after.second == chain.second,
        chain.first.may_create_end(context, inputs, outcome, after.first, context_after, answer),
{
}

/// Of three observers in a chain, when the first keeps the outcome of a creation
/// and the second changes it, the chain answers what the second answers, and
/// the third observer is not called: it stays as it was.
pub proof fn create_end_first_change_wins<Cx, A: Observer<Cx>, B: Observer<Cx>, C: Observer<Cx>>(
    chain: Chain<A, Chain<B, C>>,
    context: Cx,
    inputs: CreateInputs,
    outcome: CreateOutcome,
    after: Chain<A, Chain<B, C>>,
    context_after: Cx,
    answer: CreateOutcome,
)
    requires
        chain.may_create_end(context, inputs, outcome, after, context_after, answer),
        keeps_create_outcome::<Cx, A>(chain.first),
        changes_create_outcome::<Cx, B>(chain.second.first),
    ensures
        answer != outcome,
        after.second.second == chain.second.second,
        exists|context_between: Cx|
            {
                &&& #[trigger] chain.first.may_create_end(
                    context,
                    inputs,
                    outcome,
                    after.first,
                    context_between,
                    outcome,
                )
                &&& chain.second.first.may_create_end(
                    context_between,
                    inputs,
                    outcome,
                    after.second.first,
                    context_after,
                    answer,
                )
            },
{
}

/// A slot keeps the outcome of every creation when it is empty or its observer
/// keeps it.
pub proof fn create_end_unchanged_through_slot<Cx, O: Observer<Cx>>(slot: Option<O>)
    requires
        slot is Some ==> keeps_create_outcome::<Cx, O>(slot->0),
    ensures
        keeps_create_outcome::<Cx, Option<O>>(slot),
{
}

/// A chain of two observers that keep the outcome of every creation keeps it too:
/// where no observer changes the outcome, what comes back equals what came in.
pub proof fn create_end_unchanged_through_chain<Cx, A: Observer<Cx>, B: Observer<Cx>>(
    chain: Chain<A, B>,
)
    requires
        keeps_create_outcome::<Cx, A>(chain.first),
        keeps_create_outcome::<Cx, B>(chain.second),
    ensures
        keeps_create_outcome::<Cx, Chain<A, B>>(chain),
{
}

/// A stack whose observer, if it has one, keeps the outcome of every creation
/// keeps it too.
pub proof fn create_end_unchanged_through_stack<Cx>(stack: InspectorStack) where
    CustomPrintTracer: Observer<Cx>,

    requires
        stack.custom_print_tracer is Some ==> keeps_create_outcome::<Cx, CustomPrintTracer>(
            stack.custom_print_tracer->0,
        ),
    ensures
        keeps_create_outcome::<Cx, InspectorStack>(stack),
{
}

} // verus!
