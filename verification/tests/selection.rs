use coremark_runner::engine::Engine;

const ALL: [Engine; 4] = [Engine::Wasmtime, Engine::Wasm3, Engine::Wasmi, Engine::Wasmi2];

#[test]
fn each_engine_has_its_name() {
    assert_eq!(Engine::Wasmtime.name(), "wasmtime");
    assert_eq!(Engine::Wasm3.name(), "wasm3");
    assert_eq!(Engine::Wasmi.name(), "wasmi");
    assert_eq!(Engine::Wasmi2.name(), "wasmi2");
}

#[test]
fn each_name_selects_its_engine() {
    assert_eq!(Engine::from_name("wasmtime"), Some(Engine::Wasmtime));
    assert_eq!(Engine::from_name("wasm3"), Some(Engine::Wasm3));
    assert_eq!(Engine::from_name("wasmi"), Some(Engine::Wasmi));
    assert_eq!(Engine::from_name("wasmi2"), Some(Engine::Wasmi2));
}

#[test]
fn names_round_trip() {
    for engine in ALL {
        assert_eq!(Engine::from_name(engine.name()), Some(engine));
    }
}

#[test]
fn names_are_distinct() {
    for a in ALL {
        for b in ALL {
            assert_eq!(a.name() == b.name(), a == b);
        }
    }
}

#[test]
fn a_name_has_to_match_exactly() {
    for name in [
        "", " ", "wasm", "wasmi ", " wasmi", "Wasmi", "WASMTIME", "wasmi3", "wasmi22", "wasm-3",
        "wasmtime\n", "wasmi_2", "wasmi-2", "wasm3wasmi", "wasmer", "run", "--help",
    ] {
        assert_eq!(Engine::from_name(name), None, "{:?}", name);
    }
}

#[test]
fn a_name_in_other_letters_selects_nothing() {
    assert_eq!(Engine::from_name("w\u{0430}smi"), None);
    assert_eq!(Engine::from_name("wasmi\u{0}"), None);
    assert_eq!(Engine::from_name("\u{feff}wasmi"), None);
}
