//! The engine's types, and the calls this library makes into the crates that
//! define them.
//!
//! The types are opaque here: a value of one of them is carried through, handed
//! to an observer or compared, and never taken apart. In a contract two such
//! values are equal when they are equal in value; for the types that this
//! library compares, that is what their derived `==` decides, field by field.
//!
//! Every function in this file is a thin shell around one call into `revm`,
//! `alloy-primitives` or `ruint`. Its body is not verified: its contract says
//! what the source of that crate shows of the call.
use alloy_primitives::{Address, FixedBytes, Log, LogData, Uint, B256};
use revm::inspectors::CustomPrintTracer;
use revm::interpreter::{CallInputs, CallOutcome, CreateInputs, CreateOutcome, Interpreter};
use revm::primitives::Env;
use vstd::prelude::*;

verus! {

/// `revm::inspectors::CustomPrintTracer`: the observer that prints an opcode
/// trace to standard output.
#[verifier::external_type_specification]
#[verifier::external_body]
pub struct ExCustomPrintTracer(CustomPrintTracer);

/// `revm::interpreter::Interpreter`: the state of the running interpreter.
#[verifier::external_type_specification]
#[verifier::external_body]
pub struct ExInterpreter(Interpreter);

/// `revm::interpreter::CallInputs`: what a call is about to be made with.
#[verifier::external_type_specification]
#[verifier::external_body]
pub struct ExCallInputs(CallInputs);

/// `revm::interpreter::CallOutcome`: what a call ended with.
#[verifier::external_type_specification]
#[verifier::external_body]
pub struct ExCallOutcome(CallOutcome);

/// `revm::interpreter::CreateInputs`: what a contract is about to be created
/// with.
#[verifier::external_type_specification]
#[verifier::external_body]
pub struct ExCreateInputs(CreateInputs);

/// `revm::interpreter::CreateOutcome`: what a creation ended with.
#[verifier::external_type_specification]
#[verifier::external_body]
pub struct ExCreateOutcome(CreateOutcome);

/// `revm::primitives::Env`: the configuration, block and transaction that a
/// run executes under.
#[verifier::external_type_specification]
#[verifier::external_body]
pub struct ExEnv(Env);

/// `alloy_primitives::Log`: an emitted log, an address with its data.
#[verifier::external_type_specification]
#[verifier::external_body]
#[verifier::reject_recursive_types(T)]
pub struct ExLog<T>(Log<T>);

/// `alloy_primitives::LogData`: the topics and bytes of a log.
#[verifier::external_type_specification]
#[verifier::external_body]
pub struct ExLogData(LogData);

/// `alloy_primitives::Address`: twenty bytes that name an account.
#[verifier::external_type_specification]
#[verifier::external_body]
pub struct ExAddress(Address);

/// `alloy_primitives::FixedBytes`: a byte array of fixed length; with 32 bytes,
/// a transaction hash.
#[verifier::external_type_specification]
#[verifier::external_body]
pub struct ExFixedBytes<const N: usize>(FixedBytes<N>);

/// `ruint::Uint`: an unsigned integer of fixed width; with 256 bits, the word
/// of the EVM.
#[verifier::external_type_specification]
#[verifier::external_body]
pub struct ExUint<const BITS: usize, const LIMBS: usize>(Uint<BITS, LIMBS>);

/// The height of the block that `env` describes, as a natural number: the
/// value of its field `block.number`.
pub uninterp spec fn block_number(env: Env) -> nat;

/// Reads the block height of `env` as a `u64`.
///
/// Calls `u64::try_from(&Uint)` of `ruint` on `env.block.number`, the
/// conversion behind `Uint::to`. It succeeds with the number itself when that
/// fits in 64 bits and fails otherwise; a failure becomes `None`.
#[verifier::external_body]
pub(crate) fn block_height(env: &Env) -> (height: Option<u64>)
    ensures
        match height {
            Some(h) => h == block_number(*env),
            None => block_number(*env) > u64::MAX,
        },
{
    u64::try_from(&env.block.number).ok()
}

/// Whether two hashes hold the same 32 bytes.
///
/// Calls `==` of `alloy_primitives::FixedBytes`, which is derived and compares
/// the two byte arrays.
#[verifier::external_body]
pub(crate) fn same_hash(a: &B256, b: &B256) -> (same: bool)
    ensures
        same == (*a == *b),
{
    a == b
}

/// A print tracer as the crate makes it.
///
/// Calls `CustomPrintTracer::default()`.
#[verifier::external_body]
pub(crate) fn default_print_tracer() -> CustomPrintTracer {
    CustomPrintTracer::default()
}

/// A second copy of a call's outcome.
///
/// Calls `clone` of `CallOutcome`, which is derived: every field of the copy
/// equals that of `outcome`.
#[verifier::external_body]
pub(crate) fn clone_call_outcome(outcome: &CallOutcome) -> (copy: CallOutcome)
    ensures
        copy == *outcome,
{
    outcome.clone()
}

/// Whether two outcomes of a call differ in value.
///
/// Calls `!=` of `CallOutcome`, which is derived: two outcomes differ when one
/// of their fields does.
#[verifier::external_body]
pub(crate) fn call_outcomes_differ(a: &CallOutcome, b: &CallOutcome) -> (differ: bool)
    ensures
        differ == (*a != *b),
{
    a != b
}

/// A second copy of a creation's outcome.
///
/// Calls `clone` of `CreateOutcome`, which is derived: every field of the copy
/// equals that of `outcome`.
#[verifier::external_body]
pub(crate) fn clone_create_outcome(outcome: &CreateOutcome) -> (copy: CreateOutcome)
    ensures
        copy == *outcome,
{
    outcome.clone()
}

/// Whether two outcomes of a creation differ in value.
///
/// Calls `!=` of `CreateOutcome`, which is derived: two outcomes differ when
/// one of their fields does.
#[verifier::external_body]
pub(crate) fn create_outcomes_differ(a: &CreateOutcome, b: &CreateOutcome) -> (differ: bool)
    ensures
        differ == (*a != *b),
{
    a != b
}

} // verus!
