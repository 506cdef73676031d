use llama_cpp_4::model::params::{
    LazyModeCodes, LlamaLazyMode, LlamaLoadMode, LlamaSplitMode, LoadModeCodes, SplitModeCodes,
};

const MODES: [LlamaLoadMode; 6] = [
    LlamaLoadMode::Auto,
    LlamaLoadMode::Plain,
    LlamaLoadMode::Mmap,
    LlamaLoadMode::Mlock,
    LlamaLoadMode::MmapMlock,
    LlamaLoadMode::DirectIo,
];

const LOAD: LoadModeCodes = LoadModeCodes {
    auto_mode: -1,
    none: 10,
    mmap: 11,
    mlock: 12,
    mmap_mlock: 13,
    direct_io: 14,
};

#[test]
fn load_mode_names() {
    let names: Vec<&str> = MODES.iter().map(|m| m.name()).collect();
    assert_eq!(names, vec!["auto", "none", "mmap", "mlock", "mmap+mlock", "dio"]);
}

#[test]
fn load_mode_from_name() {
    assert_eq!(LlamaLoadMode::from_name("mmap+mlock"), Some(LlamaLoadMode::MmapMlock));
    assert_eq!(LlamaLoadMode::from_name("nonsense"), None);
    assert_eq!(LlamaLoadMode::from_name(""), None);
    assert_eq!(LlamaLoadMode::from_name("Auto"), None);
    assert_eq!(LlamaLoadMode::from_name("mmap "), None);
}

#[test]
fn load_mode_names_round_trip() {
    for mode in MODES {
        assert_eq!(LlamaLoadMode::from_name(mode.name()), Some(mode));
    }
}

#[test]
fn load_mode_codes_round_trip() {
    assert_eq!(LlamaLoadMode::Auto.to_code(&LOAD), -1);
    assert_eq!(LlamaLoadMode::DirectIo.to_code(&LOAD), 14);
    for mode in MODES {
        assert_eq!(LlamaLoadMode::from_code(mode.to_code(&LOAD), &LOAD), mode);
    }
}

#[test]
fn unknown_load_mode_code_reads_as_plain() {
    assert_eq!(LlamaLoadMode::from_code(99, &LOAD), LlamaLoadMode::Plain);
}

#[test]
fn lazy_mode_codes_round_trip() {
    let codes = LazyModeCodes { off: 5, auto_mode: 6, on: 7 };
    for mode in [LlamaLazyMode::Off, LlamaLazyMode::Auto, LlamaLazyMode::On] {
        assert_eq!(LlamaLazyMode::from_code(mode.to_code(&codes), &codes), mode);
    }
    assert_eq!(LlamaLazyMode::On.to_code(&codes), 7);
    assert_eq!(LlamaLazyMode::from_code(8, &codes), LlamaLazyMode::Auto);
}

#[test]
fn split_mode_codes_round_trip() {
    let codes = SplitModeCodes { single: 5, layer: 6, row: 7, tensor: 8 };
    for mode in [
        LlamaSplitMode::Single,
        LlamaSplitMode::Layer,
        LlamaSplitMode::Row,
        LlamaSplitMode::Tensor,
    ] {
        assert_eq!(LlamaSplitMode::from_code(mode.to_code(&codes), &codes), mode);
    }
    assert_eq!(LlamaSplitMode::Row.to_code(&codes), 7);
    assert_eq!(LlamaSplitMode::from_code(9, &codes), LlamaSplitMode::Layer);
}
