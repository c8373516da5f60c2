//! The engines that the harness can run the guest under, and their names.

use vstd::prelude::*;
use vstd::string::*;

verus! {

/// One of the interchangeable WebAssembly engines.
#[derive(Clone, Copy, Debug, PartialEq, Eq, Structural, Hash)]
pub enum Engine {
    /// The ahead-of-time compiling engine.
    Wasmtime,
    /// The interpreter written in C.
    Wasm3,
    /// The current generation of the register-machine interpreter.
    Wasmi,
    /// The earlier generation of that interpreter.
    Wasmi2,
}

/// The name that selects `engine` on the command line.
pub open spec fn name_of(engine: Engine) -> Seq<char> {
    match engine {
        Engine::Wasmtime => "wasmtime"@,
        Engine::Wasm3 => "wasm3"@,
        Engine::Wasmi => "wasmi"@,
        Engine::Wasmi2 => "wasmi2"@,
    }
}

/// The engine that `name` selects: the name has to match exactly.
pub open spec fn engine_named(name: Seq<char>) -> Option<Engine> {
    if name == "wasmtime"@ {
        Some(Engine::Wasmtime)
    } else if name == "wasm3"@ {
        Some(Engine::Wasm3)
    } else if name == "wasmi"@ {
        Some(Engine::Wasmi)
    } else if name == "wasmi2"@ {
        Some(Engine::Wasmi2)
    } else {
        None
    }
}

/// Every engine is selected by its own name, and a name selects at most the
/// engine whose name it is.
pub proof fn lemma_names_select(engine: Engine, name: Seq<char>)
    ensures
        engine_named(name_of(engine)) == Some(engine),
        engine_named(name) == Some(engine) <==> name == name_of(engine),
{
    reveal_strlit("wasmtime");
    reveal_strlit("wasm3");
    reveal_strlit("wasmi");
    reveal_strlit("wasmi2");
    assert("wasmtime"@.len() == 8);
    assert("wasm3"@.len() == 5);
    assert("wasmi"@.len() == 5);
    assert("wasmi2"@.len() == 6);
    assert("wasm3"@[4] == '3');
    assert("wasmi"@[4] == 'i');
}

impl Engine {
    /// The name that selects this engine on the command line.
    pub fn name(&self) -> (r: &'static str)
        ensures
            r@ == name_of(*self),
    {
        match self {
            Engine::Wasmtime => "wasmtime",
            Engine::Wasm3 => "wasm3",
            Engine::Wasmi => "wasmi",
            Engine::Wasmi2 => "wasmi2",
        }
    }

    /// The engine that `name` selects, or `None` where it selects none.
    pub fn from_name(name: &str) -> (r: Option<Engine>)
        ensures
            r == engine_named(name@),
    {
        let given = name.to_owned();
        if given == String::from_str("wasmtime") {
            Some(Engine::Wasmtime)
        } else if given == String::from_str("wasm3") {
            Some(Engine::Wasm3)
        } else if given == String::from_str("wasmi") {
            Some(Engine::Wasmi)
        } else if given == String::from_str("wasmi2") {
            Some(Engine::Wasmi2)
        } else {
            None
        }
    }
}

} // verus!
