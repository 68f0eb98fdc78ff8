//! The configured stack of observers.
use crate::evm::{
    block_height, block_number, call_outcomes_differ, clone_call_outcome, clone_create_outcome,
    create_outcomes_differ, default_print_tracer,
};
use crate::hook::Hook;
use crate::observer::Observer;
use alloy_primitives::{Address, Log, B256, U256};
use revm::inspectors::CustomPrintTracer;
use revm::interpreter::{CallInputs, CallOutcome, CreateInputs, CreateOutcome, Interpreter};
use revm::primitives::Env;
use vstd::prelude::*;

verus! {

/// What a stack is built from.
#[derive(Clone, Copy, Debug)]
pub struct InspectorStackConfig {
    /// Whether the slot of the print tracer is filled.
    pub use_printer_tracer: bool,
    /// Which transactions are observed.
    pub hook: Hook,
}

impl Default for InspectorStackConfig {
    /// No observer, and a hook that selects nothing.
    fn default() -> (config: Self)
        ensures
            !config.use_printer_tracer,
            config.hook == Hook::Inactive,
    {
        InspectorStackConfig { use_printer_tracer: false, hook: Hook::Inactive }
    }
}

/// A fixed set of slots, each holding an observer or nothing, and the hook
/// that says when they are to run.
///
/// The stack is itself an observer: it hands every event to the observers in
/// its slots, in the order in which the slots are declared. It does so for
/// every context type `Cx` that the print tracer observes in, that is, wherever
/// `CustomPrintTracer: Observer<Cx>` holds. The hook plays no part in this: the
/// caller asks [`InspectorStack::should_inspect`] once for each transaction and
/// installs the stack only where the answer is yes.
#[derive(Clone)]
pub struct InspectorStack {
    /// The slot of the observer that prints an opcode trace.
    pub custom_print_tracer: Option<CustomPrintTracer>,
    /// Which transactions are observed.
    pub hook: Hook,
}

impl Default for InspectorStack {
    /// Every slot empty, and a hook that selects nothing.
    fn default() -> (stack: Self)
        ensures
            stack.custom_print_tracer is None,
            stack.hook == Hook::Inactive,
    {
        InspectorStack { custom_print_tracer: None, hook: Hook::Inactive }
    }
}

impl InspectorStack {
    /// Builds the stack that `config` describes: its hook, and a fresh print
    /// tracer in its slot exactly when `config` asks for one.
    pub fn new(config: InspectorStackConfig) -> (stack: Self)
        ensures
            stack.hook == config.hook,
            stack.custom_print_tracer is Some <==> config.use_printer_tracer,
    {
        let mut stack = InspectorStack { custom_print_tracer: None, hook: config.hook };
        if config.use_printer_tracer {
            stack.custom_print_tracer = Some(default_print_tracer());
        }
        stack
    }

    /// Whether the observers are to run for the transaction `tx_hash`, executed
    /// under `env`: what the hook says of the block height of `env` and of
    /// `tx_hash`.
    pub fn should_inspect(&self, env: &Env, tx_hash: B256) -> (inspect: bool)
        ensures
            inspect == self.hook.admits(block_number(*env), tx_hash),
    {
        self.hook.selects(block_height(env), &tx_hash)
    }
}

/// The stack as an observer. Of each event it can do what the slot of the print
/// tracer can do, and it keeps its hook.
///
/// An answer of a filled slot is passed on as it is. For the end of a call or
/// of a creation a slot's answer counts as a change when it differs in value
/// from the outcome that came in: the first such answer is returned at once,
/// and an answer equal to the outcome returns the outcome itself.
impl<Cx> Observer<Cx> for InspectorStack where CustomPrintTracer: Observer<Cx> {
    open spec fn may_initialize_interp(
        self,
        interp: Interpreter,
        context: Cx,
        self_after: Self,
        interp_after: Interpreter,
        context_after: Cx,
    ) -> bool {
        &&& self_after.hook == self.hook
        &&& self.custom_print_tracer.may_initialize_interp(
            interp,
            context,
            self_after.custom_print_tracer,
            interp_after,
            context_after,
        )
    }

    /// Tells the print tracer, if there is one, that the interpreter starts.
    fn initialize_interp(&mut self, interp: &mut Interpreter, context: &mut Cx) {
        match &mut self.custom_print_tracer {
            Some(inspector) => {
                inspector.initialize_interp(interp, context);
            },
            None => {},
        }
    }

    open spec fn may_step(
        self,
        interp: Interpreter,
        context: Cx,
        self_after: Self,
        interp_after: Interpreter,
        context_after: Cx,
    ) -> bool {
        &&& self_after.hook == self.hook
        &&& self.custom_print_tracer.may_step(
            interp,
            context,
            self_after.custom_print_tracer,
            interp_after,
            context_after,
        )
    }

    /// Shows the print tracer, if there is one, the instruction about to run.
    fn step(&mut self, interp: &mut Interpreter, context: &mut Cx) {
        match &mut self.custom_print_tracer {
            Some(inspector) => {
                inspector.step(interp, context);
            },
            None => {},
        }
    }

    open spec fn may_step_end(
        self,
        interp: Interpreter,
        context: Cx,
        self_after: Self,
        interp_after: Interpreter,
        context_after: Cx,
    ) -> bool {
        &&& self_after.hook == self.hook
        &&& self.custom_print_tracer.may_step_end(
            interp,
            context,
            self_after.custom_print_tracer,
            interp_after,
            context_after,
        )
    }

    /// Shows the print tracer, if there is one, the instruction that has run.
    fn step_end(&mut self, interp: &mut Interpreter, context: &mut Cx) {
        match &mut self.custom_print_tracer {
            Some(inspector) => {
                inspector.step_end(interp, context);
            },
            None => {},
        }
    }

    open spec fn may_log(self, context: Cx, log: Log, self_after: Self, context_after: Cx) -> bool {
        &&& self_after.hook == self.hook
        &&& self.custom_print_tracer.may_log(
            context,
            log,
            self_after.custom_print_tracer,
            context_after,
        )
    }

    /// Shows the print tracer, if there is one, the log.
    fn log(&mut self, context: &mut Cx, log: &Log) {
        match &mut self.custom_print_tracer {
            Some(inspector) => {
                inspector.log(context, log);
            },
            None => {},
        }
    }

    open spec fn may_call(
        self,
        context: Cx,
        inputs: CallInputs,
        self_after: Self,
        context_after: Cx,
        inputs_after: CallInputs,
        answer: Option<CallOutcome>,
    ) -> bool {
        &&& self_after.hook == self.hook
        &&& self.custom_print_tracer.may_call(
            context,
            inputs,
            self_after.custom_print_tracer,
            context_after,
            inputs_after,
            answer,
        )
    }

    /// Asks the slots in turn for an outcome to override the call with: the
    /// first one given is returned at once, and `None` if no slot gives one.
    fn call(&mut self, context: &mut Cx, inputs: &mut CallInputs) -> (answer: Option<CallOutcome>) {
        match &mut self.custom_print_tracer {
            Some(inspector) => {
                let answer = inspector.call(context, inputs);
                if answer.is_some() {
                    return answer;
                }
            },
            None => {},
        }
        None
    }

    open spec fn may_call_end(
        self,
        context: Cx,
        inputs: CallInputs,
        outcome: CallOutcome,
        self_after: Self,
        context_after: Cx,
        answer: CallOutcome,
    ) -> bool {
        &&& self_after.hook == self.hook
        &&& self.custom_print_tracer.may_call_end(
            context,
            inputs,
            outcome,
            self_after.custom_print_tracer,
            context_after,
            answer,
        )
    }

    /// Shows the slots in turn a copy of `outcome`: the first answer that
    /// differs from `outcome` is returned at once, and `outcome` itself if no
    /// slot gives one.
    fn call_end(&mut self, context: &mut Cx, inputs: &CallInputs, outcome: CallOutcome) -> (answer:
        CallOutcome) {
        match &mut self.custom_print_tracer {
            Some(inspector) => {
                let new_ret = inspector.call_end(context, inputs, clone_call_outcome(&outcome));
                if call_outcomes_differ(&new_ret, &outcome) {
                    return new_ret;
                }
            },
            None => {},
        }
        outcome
    }

    open spec fn may_create(
        self,
        context: Cx,
        inputs: CreateInputs,
        self_after: Self,
        context_after: Cx,
        inputs_after: CreateInputs,
        answer: Option<CreateOutcome>,
    ) -> bool {
        &&& self_after.hook == self.hook
        &&& self.custom_print_tracer.may_create(
            context,
            inputs,
            self_after.custom_print_tracer,
            context_after,
            inputs_after,
            answer,
        )
    }

    /// Asks the slots in turn for an outcome to override the creation with: the
    /// first one given is returned at once, and `None` if no slot gives one.
    fn create(&mut self, context: &mut Cx, inputs: &mut CreateInputs) -> (answer: Option<
        CreateOutcome,
    >) {
        match &mut self.custom_print_tracer {
            Some(inspector) => {
                let answer = inspector.create(context, inputs);
                if answer.is_some() {
                    return answer;
                }
            },
            None => {},
        }
        None
    }

    open spec fn may_create_end(
        self,
        context: Cx,
        inputs: CreateInputs,
        outcome: CreateOutcome,
        self_after: Self,
        context_after: Cx,
        answer: CreateOutcome,
    ) -> bool {
        &&& self_after.hook == self.hook
        &&& self.custom_print_tracer.may_create_end(
            context,
            inputs,
            outcome,
            self_after.custom_print_tracer,
            context_after,
            answer,
        )
    }

    /// Shows the slots in turn a copy of `outcome`: the first answer that
    /// differs from `outcome` is returned at once, and `outcome` itself if no
    /// slot gives one.
    fn create_end(
        &mut self,
        context: &mut Cx,
        inputs: &CreateInputs,
        outcome: CreateOutcome,
    ) -> (answer: CreateOutcome) {
        match &mut self.custom_print_tracer {
            Some(inspector) => {
                let new_ret = inspector.create_end(context, inputs, clone_create_outcome(&outcome));
                if create_outcomes_differ(&new_ret, &outcome) {
                    return new_ret;
                }
            },
            None => {},
        }
        outcome
    }

    open spec fn may_selfdestruct(
        self,
        contract: Address,
        target: Address,
        value: U256,
        self_after: Self,
    ) -> bool {
        &&& self_after.hook == self.hook
        &&& self.custom_print_tracer.may_selfdestruct(
            contract,
            target,
            value,
            self_after.custom_print_tracer,
        )
    }

    /// Tells the print tracer, if there is one, of the self-destruct.
    fn selfdestruct(&mut self, contract: Address, target: Address, value: U256) {
        match &mut self.custom_print_tracer {
            Some(inspector) => {
                inspector.selfdestruct(contract, target, value);
            },
            None => {},
        }
    }
}

} // verus!
