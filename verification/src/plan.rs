//! The stages of a run under each engine, and the labels of their failures.
//!
//! Setting an engine up is a fixed sequence of stages, each of which can
//! fail. What cannot fail (making a store or an empty linker) belongs to the
//! stage that first needs it and is no stage of its own.

use crate::engine::Engine;
use vstd::prelude::*;
use vstd::string::*;

verus! {

/// A stage of a run that can fail.
#[derive(Clone, Copy, Debug, PartialEq, Eq, Structural, Hash)]
pub enum Stage {
    /// Create the engine's execution environment.
    CreateEnvironment,
    /// Create the runtime that holds the guest's stack.
    CreateRuntime,
    /// Register the millisecond clock as the host function that the guest
    /// imports.
    DefineClock,
    /// Compile and validate the guest's binary.
    Compile,
    /// Parse the guest's binary.
    ParseModule,
    /// Load the parsed module into the runtime.
    LoadModule,
    /// Instantiate the module, resolving its imports.
    Instantiate,
    /// Make sure that the instance needs no start function run.
    EnsureNoStart,
    /// Look up the guest's exported entry point.
    FindRun,
    /// Call the entry point.
    CallRun,
    /// Check that what the entry point returned is a 32-bit float.
    CheckResult,
}

/// The stages of a run under `engine`, in the order in which they are taken.
pub open spec fn plan(engine: Engine) -> Seq<Stage> {
    match engine {
        Engine::Wasmtime => seq![
            Stage::DefineClock,
            Stage::Compile,
            Stage::Instantiate,
            Stage::FindRun,
            Stage::CallRun,
        ],
        Engine::Wasm3 => seq![
            Stage::CreateEnvironment,
            Stage::CreateRuntime,
            Stage::ParseModule,
            Stage::LoadModule,
            Stage::DefineClock,
            Stage::FindRun,
            Stage::CallRun,
        ],
        Engine::Wasmi => seq![
            Stage::DefineClock,
            Stage::Compile,
            Stage::Instantiate,
            Stage::EnsureNoStart,
            Stage::FindRun,
            Stage::CallRun,
        ],
        Engine::Wasmi2 => seq![
            Stage::DefineClock,
            Stage::Compile,
            Stage::Instantiate,
            Stage::EnsureNoStart,
            Stage::FindRun,
            Stage::CallRun,
            Stage::CheckResult,
        ],
    }
}

/// The stages of a run under `engine`, in the order in which they are taken.
pub fn stages(engine: Engine) -> (list: Vec<Stage>)
    ensures
        list@ == plan(engine),
{
    let list = match engine {
        Engine::Wasmtime => vec![
            Stage::DefineClock,
            Stage::Compile,
            Stage::Instantiate,
            Stage::FindRun,
            Stage::CallRun,
        ],
        Engine::Wasm3 => vec![
            Stage::CreateEnvironment,
            Stage::CreateRuntime,
            Stage::ParseModule,
            Stage::LoadModule,
            Stage::DefineClock,
            Stage::FindRun,
            Stage::CallRun,
        ],
        Engine::Wasmi => vec![
            Stage::DefineClock,
            Stage::Compile,
            Stage::Instantiate,
            Stage::EnsureNoStart,
            Stage::FindRun,
            Stage::CallRun,
        ],
        Engine::Wasmi2 => vec![
            Stage::DefineClock,
            Stage::Compile,
            Stage::Instantiate,
            Stage::EnsureNoStart,
            Stage::FindRun,
            Stage::CallRun,
            Stage::CheckResult,
        ],
    };
    assert(list@ =~= plan(engine));
    list
}

/// No plan takes a stage twice, so a stage of a plan names its place in it.
pub proof fn lemma_plan_has_no_repeats(engine: Engine, i: int, j: int)
    requires
        0 <= i < plan(engine).len(),
        0 <= j < plan(engine).len(),
        plan(engine)[i] == plan(engine)[j],
    ensures
        i == j,
{
}

/// Under every engine the clock is defined before the entry point is looked
/// up, and the entry point is looked up before it is called.
pub proof fn lemma_clock_is_defined_first(engine: Engine)
    ensures
        exists|clock: int, find: int, call: int|
            0 <= clock < find < call < plan(engine).len() && plan(engine)[clock]
                == Stage::DefineClock && plan(engine)[find] == Stage::FindRun && plan(
                engine,
            )[call] == Stage::CallRun,
{
    let stages = plan(engine);
    let (clock, find, call): (int, int, int) = match engine {
        Engine::Wasmtime => (0, 3, 4),
        Engine::Wasm3 => (4, 5, 6),
        Engine::Wasmi => (0, 4, 5),
        Engine::Wasmi2 => (0, 4, 5),
    };
    assert(0 <= clock < find < call < stages.len() && stages[clock] == Stage::DefineClock
        && stages[find] == Stage::FindRun && stages[call] == Stage::CallRun);
}

/// The label under which a run under `engine` stops when `stage` fails, or
/// `None` where the engine's plan has no such stage.
pub open spec fn label(engine: Engine, stage: Stage) -> Option<Seq<char>> {
    match (engine, stage) {
        (Engine::Wasmtime, Stage::DefineClock) => Some(
            "Wasmtime: failed to define `clock_ms` host function"@,
        ),
        (Engine::Wasmtime, Stage::Compile) => Some(
            "Wasmtime: failed to compile and validate coremark Wasm binary"@,
        ),
        (Engine::Wasmtime, Stage::Instantiate) => Some(
            "Wasmtime: failed to instantiate coremark Wasm module"@,
        ),
        (Engine::Wasmtime, Stage::FindRun) => Some(
            "Wasmtime: could not find \"run\" function export"@,
        ),
        (Engine::Wasmtime, Stage::CallRun) => Some("Wasmtime: failed to execute \"run\" function"@),
        (Engine::Wasm3, Stage::CreateEnvironment) => Some(
            "Wasm3: failed to create execution environment"@,
        ),
        (Engine::Wasm3, Stage::CreateRuntime) => Some("Wasm3: failed to create runtime"@),
        (Engine::Wasm3, Stage::ParseModule) => Some("Wasm3: failed to parse Wasm module"@),
        (Engine::Wasm3, Stage::LoadModule) => Some("Wasm: failed to parse coremark Wasm module"@),
        (Engine::Wasm3, Stage::DefineClock) => Some("Wasm3: failed to link \"clock_ms\" function"@),
        (Engine::Wasm3, Stage::FindRun) => Some(
            "Wasm3: failed to find exported \"run\" function in Wasm module instance"@,
        ),
        (Engine::Wasm3, Stage::CallRun) => Some("Wasm3: failed to call \"run\" function"@),
        (Engine::Wasmi, Stage::DefineClock) => Some(
            "Wasmi: failed to define `clock_ms` host function"@,
        ),
        (Engine::Wasmi, Stage::Compile) => Some(
            "Wasmi: failed to compile and validate coremark Wasm binary"@,
        ),
        (Engine::Wasmi, Stage::Instantiate) => Some(
            "Wasmi: failed to instantiate coremark Wasm module"@,
        ),
        (Engine::Wasmi, Stage::EnsureNoStart) => Some(
            "Wasmi: failed to start Wasm module instance"@,
        ),
        (Engine::Wasmi, Stage::FindRun) => Some("Wasmi: could not find \"run\" function export"@),
        (Engine::Wasmi, Stage::CallRun) => Some("Wasmi: failed to execute \"run\" function"@),
        (Engine::Wasmi2, Stage::DefineClock) => Some("failed to define `clock_ms` for wasmi v1"@),
        (Engine::Wasmi2, Stage::Compile) => Some(
            "compiling and validating Wasm module failed in wasmi v1 coremark"@,
        ),
        (Engine::Wasmi2, Stage::Instantiate) => Some(
            "linking module core-mark failed in wasmi v1"@,
        ),
        (Engine::Wasmi2, Stage::EnsureNoStart) => Some(
            "failed to start module instance in wasmi v1"@,
        ),
        (Engine::Wasmi2, Stage::FindRun) => Some(
            "could not find function `run` in the coremark `.wasm`"@,
        ),
        (Engine::Wasmi2, Stage::CallRun) => Some("failed running coremark in wasmi v1"@),
        (Engine::Wasmi2, Stage::CheckResult) => Some("wasmi v1 result expected `F32` but found: "@),
        _ => None,
    }
}

/// A stage has a label under an engine exactly if it is a stage of that
/// engine's plan.
pub proof fn lemma_planned_stages_are_labelled(engine: Engine, stage: Stage)
    ensures
        label(engine, stage) is Some <==> plan(engine).contains(stage),
{
}

/// The label under which a run under `engine` stops when `stage` fails, or
/// `None` where the engine's plan has no such stage.
pub fn failure_label(engine: Engine, stage: Stage) -> (found: Option<&'static str>)
    ensures
        match found {
            Some(text) => label(engine, stage) == Some(text@),
            None => label(engine, stage) is None,
        },
{
    match (engine, stage) {
        (Engine::Wasmtime, Stage::DefineClock) => Some(
            "Wasmtime: failed to define `clock_ms` host function",
        ),
        (Engine::Wasmtime, Stage::Compile) => Some(
            "Wasmtime: failed to compile and validate coremark Wasm binary",
        ),
        (Engine::Wasmtime, Stage::Instantiate) => Some(
            "Wasmtime: failed to instantiate coremark Wasm module",
        ),
        (Engine::Wasmtime, Stage::FindRun) => Some(
            "Wasmtime: could not find \"run\" function export",
        ),
        (Engine::Wasmtime, Stage::CallRun) => Some("Wasmtime: failed to execute \"run\" function"),
        (Engine::Wasm3, Stage::CreateEnvironment) => Some(
            "Wasm3: failed to create execution environment",
        ),
        (Engine::Wasm3, Stage::CreateRuntime) => Some("Wasm3: failed to create runtime"),
        (Engine::Wasm3, Stage::ParseModule) => Some("Wasm3: failed to parse Wasm module"),
        (Engine::Wasm3, Stage::LoadModule) => Some("Wasm: failed to parse coremark Wasm module"),
        (Engine::Wasm3, Stage::DefineClock) => Some("Wasm3: failed to link \"clock_ms\" function"),
        (Engine::Wasm3, Stage::FindRun) => Some(
            "Wasm3: failed to find exported \"run\" function in Wasm module instance",
        ),
        (Engine::Wasm3, Stage::CallRun) => Some("Wasm3: failed to call \"run\" function"),
        (Engine::Wasmi, Stage::DefineClock) => Some(
            "Wasmi: failed to define `clock_ms` host function",
        ),
        (Engine::Wasmi, Stage::Compile) => Some(
            "Wasmi: failed to compile and validate coremark Wasm binary",
        ),
        (Engine::Wasmi, Stage::Instantiate) => Some(
            "Wasmi: failed to instantiate coremark Wasm module",
        ),
        (Engine::Wasmi, Stage::EnsureNoStart) => Some(
            "Wasmi: failed to start Wasm module instance",
        ),
        (Engine::Wasmi, Stage::FindRun) => Some("Wasmi: could not find \"run\" function export"),
        (Engine::Wasmi, Stage::CallRun) => Some("Wasmi: failed to execute \"run\" function"),
        (Engine::Wasmi2, Stage::DefineClock) => Some("failed to define `clock_ms` for wasmi v1"),
        (Engine::Wasmi2, Stage::Compile) => Some(
            "compiling and validating Wasm module failed in wasmi v1 coremark",
        ),
        (Engine::Wasmi2, Stage::Instantiate) => Some("linking module core-mark failed in wasmi v1"),
        (Engine::Wasmi2, Stage::EnsureNoStart) => Some(
            "failed to start module instance in wasmi v1",
        ),
        (Engine::Wasmi2, Stage::FindRun) => Some(
            "could not find function `run` in the coremark `.wasm`",
        ),
        (Engine::Wasmi2, Stage::CallRun) => Some("failed running coremark in wasmi v1"),
        (Engine::Wasmi2, Stage::CheckResult) => Some("wasmi v1 result expected `F32` but found: "),
        _ => None,
    }
}

/// How the message of a failed stage is made from its label and from what the
/// engine said of the failure.
///
/// A missing entry point under the earlier interpreter is an absent value, with
/// nothing to add to the label. A result of the wrong type is shown right
/// behind its label. Every other failure is an error of the engine, shown
/// behind the label, a colon and a space.
pub open spec fn message(engine: Engine, stage: Stage, detail: Seq<char>) -> Option<Seq<char>> {
    match label(engine, stage) {
        None => None,
        Some(text) => Some(
            match (engine, stage) {
                (Engine::Wasmi2, Stage::FindRun) => text,
                (Engine::Wasmi2, Stage::CheckResult) => text + detail,
                _ => text + ": "@ + detail,
            },
        ),
    }
}

/// The message with which a run under `engine` stops when `stage` fails, where
/// `detail` is what the engine said of the failure; `None` where the engine's
/// plan has no such stage.
pub fn failure_message(engine: Engine, stage: Stage, detail: &str) -> (found: Option<String>)
    ensures
        match found {
            Some(text) => message(engine, stage, detail@) == Some(text@),
            None => message(engine, stage, detail@) is None,
        },
{
    match failure_label(engine, stage) {
        None => None,
        Some(text) => {
            let mut line = String::from_str(text);
            match (engine, stage) {
                (Engine::Wasmi2, Stage::FindRun) => {},
                (Engine::Wasmi2, Stage::CheckResult) => {
                    line.append(detail);
                },
                _ => {
                    line.append(": ");
                    line.append(detail);
                },
            }
            Some(line)
        },
    }
}

} // verus!
