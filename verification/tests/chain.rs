use alloy_primitives::{Address, Bytes, Log, B256, U256};
use inspector_stack::{Chain, Hook, InspectorStack, InspectorStackConfig, Observer};
use revm::db::EmptyDB;
use revm::inspectors::CustomPrintTracer;
use revm::interpreter::{
    CallContext, CallInputs, CallOutcome, Contract, CreateInputs, CreateOutcome, Gas,
    InstructionResult, Interpreter, InterpreterResult, Transfer,
};
use revm::primitives::{CreateScheme, Env};
use revm::{EvmContext, Inspector};

/// Stands for the engine's context: the observers sign in here as they are
/// called.
struct Journal {
    visits: Vec<u32>,
    context: EvmContext<EmptyDB>,
}

impl Journal {
    fn new() -> Self {
        Journal { visits: Vec::new(), context: EvmContext::new(EmptyDB::default()) }
    }
}

/// An observer that counts its invocations and answers as it was told to.
#[derive(Clone, Debug, PartialEq)]
struct Probe {
    id: u32,
    invoked: usize,
    call_answer: Option<CallOutcome>,
    create_answer: Option<CreateOutcome>,
    call_end_answer: Option<CallOutcome>,
    create_end_answer: Option<CreateOutcome>,
    got_call_outcome: Option<CallOutcome>,
    got_create_outcome: Option<CreateOutcome>,
    last_gas_limit: u64,
}

impl Probe {
    fn quiet(id: u32) -> Self {
        Probe {
            id,
            invoked: 0,
            call_answer: None,
            create_answer: None,
            call_end_answer: None,
            create_end_answer: None,
            got_call_outcome: None,
            got_create_outcome: None,
            last_gas_limit: 0,
        }
    }

    fn overriding_call(id: u32, answer: CallOutcome) -> Self {
        Probe { call_answer: Some(answer), ..Probe::quiet(id) }
    }

    fn overriding_create(id: u32, answer: CreateOutcome) -> Self {
        Probe { create_answer: Some(answer), ..Probe::quiet(id) }
    }

    fn replacing_call(id: u32, answer: CallOutcome) -> Self {
        Probe { call_end_answer: Some(answer), ..Probe::quiet(id) }
    }

    fn replacing_create(id: u32, answer: CreateOutcome) -> Self {
        Probe { create_end_answer: Some(answer), ..Probe::quiet(id) }
    }

    fn visit(&mut self, journal: &mut Journal) {
        self.invoked += 1;
        journal.visits.push(self.id);
    }
}

impl Observer<Journal> for Probe {
    fn initialize_interp(&mut self, _interp: &mut Interpreter, journal: &mut Journal) {
        self.visit(journal);
    }

    fn step(&mut self, _interp: &mut Interpreter, journal: &mut Journal) {
        self.visit(journal);
    }

    fn step_end(&mut self, _interp: &mut Interpreter, journal: &mut Journal) {
        self.visit(journal);
    }

    fn log(&mut self, journal: &mut Journal, _log: &Log) {
        self.visit(journal);
    }

    fn call(&mut self, journal: &mut Journal, inputs: &mut CallInputs) -> Option<CallOutcome> {
        self.visit(journal);
        self.last_gas_limit = inputs.gas_limit;
        inputs.gas_limit += 1;
        self.call_answer.clone()
    }

    fn call_end(
        &mut self,
        journal: &mut Journal,
        _inputs: &CallInputs,
        outcome: CallOutcome,
    ) -> CallOutcome {
        self.visit(journal);
        self.got_call_outcome = Some(outcome.clone());
        self.call_end_answer.clone().unwrap_or(outcome)
    }

    fn create(&mut self, journal: &mut Journal, inputs: &mut CreateInputs) -> Option<CreateOutcome> {
        self.visit(journal);
        self.last_gas_limit = inputs.gas_limit;
        inputs.gas_limit += 1;
        self.create_answer.clone()
    }

    fn create_end(
        &mut self,
        journal: &mut Journal,
        _inputs: &CreateInputs,
        outcome: CreateOutcome,
    ) -> CreateOutcome {
        self.visit(journal);
        self.got_create_outcome = Some(outcome.clone());
        self.create_end_answer.clone().unwrap_or(outcome)
    }

    fn selfdestruct(&mut self, _contract: Address, _target: Address, _value: U256) {
        self.invoked += 1;
    }
}

impl Observer<Journal> for CustomPrintTracer {
    fn initialize_interp(&mut self, interp: &mut Interpreter, journal: &mut Journal) {
        Inspector::initialize_interp(self, interp, &mut journal.context)
    }

    fn step(&mut self, interp: &mut Interpreter, journal: &mut Journal) {
        Inspector::step(self, interp, &mut journal.context)
    }

    fn step_end(&mut self, interp: &mut Interpreter, journal: &mut Journal) {
        Inspector::step_end(self, interp, &mut journal.context)
    }

    fn log(&mut self, journal: &mut Journal, log: &Log) {
        Inspector::log(self, &mut journal.context, log)
    }

    fn call(&mut self, journal: &mut Journal, inputs: &mut CallInputs) -> Option<CallOutcome> {
        Inspector::call(self, &mut journal.context, inputs)
    }

    fn call_end(
        &mut self,
        journal: &mut Journal,
        inputs: &CallInputs,
        outcome: CallOutcome,
    ) -> CallOutcome {
        Inspector::call_end(self, &mut journal.context, inputs, outcome)
    }

    fn create(&mut self, journal: &mut Journal, inputs: &mut CreateInputs) -> Option<CreateOutcome> {
        Inspector::create(self, &mut journal.context, inputs)
    }

    fn create_end(
        &mut self,
        journal: &mut Journal,
        inputs: &CreateInputs,
        outcome: CreateOutcome,
    ) -> CreateOutcome {
        Inspector::create_end(self, &mut journal.context, inputs, outcome)
    }

    fn selfdestruct(&mut self, contract: Address, target: Address, value: U256) {
        Inspector::<EmptyDB>::selfdestruct(self, contract, target, value)
    }
}

fn call_inputs() -> CallInputs {
    CallInputs {
        contract: Address::repeat_byte(0x01),
        transfer: Transfer {
            source: Address::repeat_byte(0x02),
            target: Address::repeat_byte(0x01),
            value: U256::from(5u64),
        },
        input: Bytes::from(vec![1u8, 2, 3]),
        gas_limit: 1_000,
        context: CallContext::default(),
        is_static: false,
        return_memory_offset: 0..0,
    }
}

fn create_inputs() -> CreateInputs {
    CreateInputs {
        caller: Address::repeat_byte(0x03),
        scheme: CreateScheme::Create,
        value: U256::from(9u64),
        init_code: Bytes::from(vec![0x60u8, 0x00]),
        gas_limit: 2_000,
    }
}

fn call_outcome(code: InstructionResult, tag: u8) -> CallOutcome {
    CallOutcome::new(
        InterpreterResult { result: code, output: Bytes::from(vec![tag]), gas: Gas::new(70) },
        0..1,
    )
}

fn create_outcome(code: InstructionResult, tag: u8) -> CreateOutcome {
    CreateOutcome::new(
        InterpreterResult { result: code, output: Bytes::from(vec![tag]), gas: Gas::new(70) },
        Some(Address::repeat_byte(tag)),
    )
}

fn pair(first: Probe, second: Probe) -> Chain<Option<Probe>, Option<Probe>> {
    Chain { first: Some(first), second: Some(second) }
}

fn triple(
    first: Probe,
    second: Probe,
    third: Probe,
) -> Chain<Option<Probe>, Chain<Option<Probe>, Option<Probe>>> {
    Chain { first: Some(first), second: Chain { first: Some(second), second: Some(third) } }
}

#[test]
fn events_without_answer_reach_every_observer_once_in_order() {
    let mut chain = triple(Probe::quiet(1), Probe::quiet(2), Probe::quiet(3));
    let mut interp = Interpreter::new(Contract::default(), 500, false);

    let mut journal = Journal::new();
    chain.initialize_interp(&mut interp, &mut journal);
    assert_eq!(journal.visits, vec![1, 2, 3]);

    let mut journal = Journal::new();
    chain.step(&mut interp, &mut journal);
    assert_eq!(journal.visits, vec![1, 2, 3]);

    let mut journal = Journal::new();
    chain.step_end(&mut interp, &mut journal);
    assert_eq!(journal.visits, vec![1, 2, 3]);

    let mut journal = Journal::new();
    chain.log(&mut journal, &Log::default());
    assert_eq!(journal.visits, vec![1, 2, 3]);

    Observer::<Journal>::selfdestruct(
        &mut chain,
        Address::repeat_byte(1),
        Address::repeat_byte(2),
        U256::from(3u64),
    );
    assert_eq!(chain.first.unwrap().invoked, 5);
    assert_eq!(chain.second.first.unwrap().invoked, 5);
    assert_eq!(chain.second.second.unwrap().invoked, 5);
}

#[test]
fn empty_chain_does_nothing() {
    let mut chain: Chain<Option<Probe>, Option<Probe>> = Chain { first: None, second: None };
    let mut journal = Journal::new();
    let mut interp = Interpreter::new(Contract::default(), 500, false);
    chain.initialize_interp(&mut interp, &mut journal);
    chain.step(&mut interp, &mut journal);
    chain.step_end(&mut interp, &mut journal);
    chain.log(&mut journal, &Log::default());

    let mut inputs = call_inputs();
    assert_eq!(chain.call(&mut journal, &mut inputs), None);
    assert_eq!(inputs, call_inputs());
    let mut inputs = create_inputs();
    assert_eq!(chain.create(&mut journal, &mut inputs), None);
    assert_eq!(inputs, create_inputs());

    let outcome = call_outcome(InstructionResult::Revert, 1);
    assert_eq!(chain.call_end(&mut journal, &call_inputs(), outcome.clone()), outcome);
    let outcome = create_outcome(InstructionResult::Revert, 1);
    assert_eq!(chain.create_end(&mut journal, &create_inputs(), outcome.clone()), outcome);

    assert!(journal.visits.is_empty());
    assert!(chain.first.is_none() && chain.second.is_none());
}

#[test]
fn sole_observer_in_a_chain_acts_as_if_alone() {
    let x = call_outcome(InstructionResult::Return, 0x11);
    let y = call_outcome(InstructionResult::Stop, 0x22);
    let make = || Probe { call_end_answer: Some(y.clone()), ..Probe::overriding_call(4, x.clone()) };

    let mut alone = make();
    let mut journal = Journal::new();
    let mut inputs = call_inputs();
    let direct_call = alone.call(&mut journal, &mut inputs);
    let direct_inputs = inputs.clone();
    let direct_end =
        alone.call_end(&mut journal, &inputs, call_outcome(InstructionResult::Revert, 9));
    let direct_visits = journal.visits.clone();

    let mut ahead: Chain<Option<Probe>, Option<Probe>> = Chain { first: Some(make()), second: None };
    let mut journal = Journal::new();
    let mut inputs = call_inputs();
    assert_eq!(ahead.call(&mut journal, &mut inputs), direct_call);
    assert_eq!(inputs, direct_inputs);
    assert_eq!(
        ahead.call_end(&mut journal, &inputs, call_outcome(InstructionResult::Revert, 9)),
        direct_end
    );
    assert_eq!(journal.visits, direct_visits);
    assert_eq!(ahead.first, Some(alone.clone()));
    assert!(ahead.second.is_none());

    let mut behind: Chain<Option<Probe>, Option<Probe>> = Chain { first: None, second: Some(make()) };
    let mut journal = Journal::new();
    let mut inputs = call_inputs();
    assert_eq!(behind.call(&mut journal, &mut inputs), direct_call);
    assert_eq!(inputs, direct_inputs);
    assert_eq!(
        behind.call_end(&mut journal, &inputs, call_outcome(InstructionResult::Revert, 9)),
        direct_end
    );
    assert_eq!(journal.visits, direct_visits);
    assert_eq!(behind.second, Some(alone));
    assert!(behind.first.is_none());
}

#[test]
fn call_override_of_the_second_is_returned() {
    let x = call_outcome(InstructionResult::Return, 0x58);
    let mut chain = pair(Probe::quiet(1), Probe::overriding_call(2, x.clone()));
    let mut journal = Journal::new();
    let mut inputs = call_inputs();
    assert_eq!(chain.call(&mut journal, &mut inputs), Some(x));
    assert_eq!(journal.visits, vec![1, 2]);
    assert_eq!(chain.first.unwrap().invoked, 1);
    assert_eq!(chain.second.unwrap().invoked, 1);
}

#[test]
fn call_order_decides_who_is_invoked() {
    let x = call_outcome(InstructionResult::Return, 0x58);

    let mut quiet_first = pair(Probe::quiet(1), Probe::overriding_call(2, x.clone()));
    let mut journal = Journal::new();
    let answer = quiet_first.call(&mut journal, &mut call_inputs());
    assert_eq!(answer, Some(x.clone()));
    let quiet_invoked_when_first = quiet_first.first.unwrap().invoked;

    let mut quiet_second = pair(Probe::overriding_call(2, x.clone()), Probe::quiet(1));
    let mut journal = Journal::new();
    let answer = quiet_second.call(&mut journal, &mut call_inputs());
    assert_eq!(answer, Some(x));
    let quiet_invoked_when_second = quiet_second.second.unwrap().invoked;

    assert_eq!(quiet_invoked_when_first, 1);
    assert_eq!(quiet_invoked_when_second, 0);
    assert_ne!(quiet_invoked_when_first, quiet_invoked_when_second);
}

#[test]
fn call_override_of_the_first_skips_the_second() {
    let x = call_outcome(InstructionResult::Return, 0x01);
    let y = call_outcome(InstructionResult::Return, 0x02);
    let mut chain = pair(Probe::overriding_call(1, x.clone()), Probe::overriding_call(2, y));
    let mut journal = Journal::new();
    let mut inputs = call_inputs();
    assert_eq!(chain.call(&mut journal, &mut inputs), Some(x));
    assert_eq!(journal.visits, vec![1]);
    assert_eq!(chain.first.unwrap().invoked, 1);
    assert_eq!(chain.second.unwrap().invoked, 0);
    assert_eq!(inputs.gas_limit, 1_001);
}

#[test]
fn call_without_override_reaches_everyone() {
    let mut chain = triple(Probe::quiet(1), Probe::quiet(2), Probe::quiet(3));
    let mut journal = Journal::new();
    let mut inputs = call_inputs();
    assert_eq!(chain.call(&mut journal, &mut inputs), None);
    assert_eq!(journal.visits, vec![1, 2, 3]);
    assert_eq!(inputs.gas_limit, 1_003);
    assert_eq!(chain.first.unwrap().last_gas_limit, 1_000);
    assert_eq!(chain.second.first.unwrap().last_gas_limit, 1_001);
    assert_eq!(chain.second.second.unwrap().last_gas_limit, 1_002);
}

#[test]
fn create_override_of_the_second_is_returned() {
    let x = create_outcome(InstructionResult::Return, 0x58);
    let mut chain = pair(Probe::quiet(1), Probe::overriding_create(2, x.clone()));
    let mut journal = Journal::new();
    assert_eq!(chain.create(&mut journal, &mut create_inputs()), Some(x));
    assert_eq!(journal.visits, vec![1, 2]);
}

#[test]
fn create_order_decides_who_is_invoked() {
    let x = create_outcome(InstructionResult::Return, 0x58);

    let mut quiet_first = pair(Probe::quiet(1), Probe::overriding_create(2, x.clone()));
    let mut journal = Journal::new();
    assert_eq!(quiet_first.create(&mut journal, &mut create_inputs()), Some(x.clone()));
    assert_eq!(quiet_first.first.unwrap().invoked, 1);

    let mut quiet_second = pair(Probe::overriding_create(2, x.clone()), Probe::quiet(1));
    let mut journal = Journal::new();
    assert_eq!(quiet_second.create(&mut journal, &mut create_inputs()), Some(x));
    assert_eq!(quiet_second.second.unwrap().invoked, 0);
}

#[test]
fn create_override_of_the_first_skips_the_second() {
    let x = create_outcome(InstructionResult::Return, 0x01);
    let y = create_outcome(InstructionResult::Return, 0x02);
    let mut chain = pair(Probe::overriding_create(1, x.clone()), Probe::overriding_create(2, y));
    let mut journal = Journal::new();
    let mut inputs = create_inputs();
    assert_eq!(chain.create(&mut journal, &mut inputs), Some(x));
    assert_eq!(journal.visits, vec![1]);
    assert_eq!(chain.second.unwrap().invoked, 0);
    assert_eq!(inputs.gas_limit, 2_001);
}

#[test]
fn call_end_first_change_wins_and_skips_the_third() {
    let incoming = call_outcome(InstructionResult::Revert, 0x00);
    let changed = call_outcome(InstructionResult::Revert, 0xEE);
    let other = call_outcome(InstructionResult::Return, 0x33);
    let mut chain = triple(
        Probe::quiet(1),
        Probe::replacing_call(2, changed.clone()),
        Probe::replacing_call(3, other),
    );
    let mut journal = Journal::new();
    let answer = chain.call_end(&mut journal, &call_inputs(), incoming.clone());
    assert_eq!(answer, changed);
    assert_eq!(journal.visits, vec![1, 2]);
    let first = chain.first.unwrap();
    let second = chain.second.first.unwrap();
    let third = chain.second.second.unwrap();
    assert_eq!(first.got_call_outcome, Some(incoming.clone()));
    assert_eq!(second.got_call_outcome, Some(incoming));
    assert_eq!(third.invoked, 0);
    assert_eq!(third.got_call_outcome, None);
}

#[test]
fn call_end_change_by_the_first_skips_the_rest() {
    let incoming = call_outcome(InstructionResult::Revert, 0x00);
    let changed = call_outcome(InstructionResult::Revert, 0xEE);
    let mut chain = triple(Probe::replacing_call(1, changed.clone()), Probe::quiet(2), Probe::quiet(3));
    let mut journal = Journal::new();
    assert_eq!(chain.call_end(&mut journal, &call_inputs(), incoming), changed);
    assert_eq!(journal.visits, vec![1]);
}

#[test]
fn call_end_without_change_returns_what_came_in() {
    let incoming = call_outcome(InstructionResult::Revert, 0x07);
    let mut chain = triple(Probe::quiet(1), Probe::quiet(2), Probe::quiet(3));
    let mut journal = Journal::new();
    let answer = chain.call_end(&mut journal, &call_inputs(), incoming.clone());
    assert_eq!(answer, incoming);
    assert_eq!(journal.visits, vec![1, 2, 3]);
}

#[test]
fn call_end_answer_equal_in_value_is_no_change() {
    let incoming = call_outcome(InstructionResult::Revert, 0x07);
    let same = call_outcome(InstructionResult::Revert, 0x07);
    let changed = call_outcome(InstructionResult::Revert, 0x08);
    let mut chain = pair(Probe::replacing_call(1, same), Probe::replacing_call(2, changed.clone()));
    let mut journal = Journal::new();
    assert_eq!(chain.call_end(&mut journal, &call_inputs(), incoming), changed);
    assert_eq!(journal.visits, vec![1, 2]);
}

#[test]
fn create_end_first_change_wins_and_skips_the_third() {
    let incoming = create_outcome(InstructionResult::Revert, 0x00);
    let changed = create_outcome(InstructionResult::Revert, 0xEE);
    let other = create_outcome(InstructionResult::Return, 0x33);
    let mut chain = triple(
        Probe::quiet(1),
        Probe::replacing_create(2, changed.clone()),
        Probe::replacing_create(3, other),
    );
    let mut journal = Journal::new();
    let answer = chain.create_end(&mut journal, &create_inputs(), incoming.clone());
    assert_eq!(answer, changed);
    assert_eq!(journal.visits, vec![1, 2]);
    assert_eq!(chain.second.first.unwrap().got_create_outcome, Some(incoming));
    assert_eq!(chain.second.second.unwrap().invoked, 0);
}

#[test]
fn create_end_without_change_returns_what_came_in() {
    let incoming = create_outcome(InstructionResult::Return, 0x07);
    let mut chain = triple(Probe::quiet(1), Probe::quiet(2), Probe::quiet(3));
    let mut journal = Journal::new();
    let answer = chain.create_end(&mut journal, &create_inputs(), incoming.clone());
    assert_eq!(answer, incoming);
    assert_eq!(journal.visits, vec![1, 2, 3]);
}

#[test]
fn create_end_answer_equal_in_value_is_no_change() {
    let incoming = create_outcome(InstructionResult::Revert, 0x07);
    let same = create_outcome(InstructionResult::Revert, 0x07);
    let changed = create_outcome(InstructionResult::Revert, 0x08);
    let mut chain =
        pair(Probe::replacing_create(1, same), Probe::replacing_create(2, changed.clone()));
    let mut journal = Journal::new();
    assert_eq!(chain.create_end(&mut journal, &create_inputs(), incoming), changed);
    assert_eq!(journal.visits, vec![1, 2]);
}

#[test]
fn stack_ahead_of_a_probe() {
    let stack = InspectorStack::new(InspectorStackConfig { use_printer_tracer: true, hook: Hook::All });
    let x = call_outcome(InstructionResult::Return, 0x42);
    let mut chain = Chain { first: stack, second: Some(Probe::overriding_call(2, x.clone())) };

    let mut journal = Journal::new();
    assert_eq!(chain.call(&mut journal, &mut call_inputs()), Some(x));
    assert_eq!(journal.visits, vec![2]);

    // The tracer leaves a success as it is, so the probe is asked as well.
    let fine = call_outcome(InstructionResult::Return, 0x01);
    let mut journal = Journal::new();
    assert_eq!(chain.call_end(&mut journal, &call_inputs(), fine.clone()), fine);
    assert_eq!(journal.visits, vec![2]);

    // The tracer spends the gas of a failure: that is a change, and it wins.
    let failed = call_outcome(InstructionResult::OutOfGas, 0x01);
    let mut journal = Journal::new();
    let answer = chain.call_end(&mut journal, &call_inputs(), failed.clone());
    assert_ne!(answer, failed);
    assert_eq!(answer.result.gas.remaining(), 0);
    assert!(journal.visits.is_empty());
    assert_eq!(chain.second.unwrap().invoked, 2);
}

#[test]
fn transaction_scenario() {
    let id = B256::with_last_byte(0xAB);
    let stack = InspectorStack::new(InspectorStackConfig {
        use_printer_tracer: false,
        hook: Hook::Transaction(id),
    });
    assert!(stack.should_inspect(&Env::default(), B256::with_last_byte(0xAB)));

    let x = call_outcome(InstructionResult::Return, 0x58);
    let mut observers = Chain {
        first: stack,
        second: pair(Probe::quiet(1), Probe::overriding_call(2, x.clone())),
    };
    let mut journal = Journal::new();
    assert_eq!(observers.call(&mut journal, &mut call_inputs()), Some(x));
    assert_eq!(journal.visits, vec![1, 2]);
}
