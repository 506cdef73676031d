use llama_cpp_4::float_bits::{F32Bits, F64Bits};
use llama_cpp_4::model::params::kv_overrides::ParamOverrideValue;
use llama_cpp_4::model::params::{
    LazyModeCodes, LlamaLazyMode, LlamaLoadMode, LlamaModelParams, LlamaSplitMode, LoadModeCodes,
    ModeCodes, NativeModelParams, SplitModeCodes,
};

fn codes() -> ModeCodes {
    ModeCodes {
        load: LoadModeCodes {
            auto_mode: -1,
            none: 0,
            mmap: 1,
            mlock: 2,
            mmap_mlock: 3,
            direct_io: 4,
        },
        lazy: LazyModeCodes { off: 0, auto_mode: 1, on: 2 },
        split: SplitModeCodes { single: 0, layer: 1, row: 2, tensor: 3 },
    }
}

fn bits(values: &[f32]) -> Vec<F32Bits> {
    values.iter().map(|v| F32Bits(v.to_bits())).collect()
}

#[test]
fn default_parameters() {
    let params = LlamaModelParams::default();
    assert_eq!(params.n_gpu_layers(), -1, "n_gpu_layers should be -1 (all layers)");
    assert_eq!(params.main_gpu(), 0, "main_gpu should be 0");
    assert_eq!(params.vocab_only(), false, "vocab_only should be false");
    assert_eq!(params.use_mmap(), true, "use_mmap should be true");
    assert_eq!(params.use_mlock(), false, "use_mlock should be false");
    assert_eq!(params.load_mode(), LlamaLoadMode::Auto);
    assert_eq!(params.lazy_mode(), LlamaLazyMode::Auto);
    assert_eq!(params.split_mode(), LlamaSplitMode::Layer);
    assert_eq!(params.load_mtp(), false);
    assert!(params.tensor_split().is_empty());
    assert!(!params.has_tensor_split());
    assert!(params.tensor_buft_overrides().is_empty());
    assert!(params.tensor_buft_override_array().is_none());
    assert!(params.kv_override_slots().is_none());
}

#[test]
fn default_has_no_kv_overrides() {
    let params = LlamaModelParams::default();
    assert_eq!(params.kv_overrides().into_iter().count(), 0);
}

#[test]
fn append_one_kv_override() {
    let mut params = LlamaModelParams::default();
    params.append_kv_override(b"key", ParamOverrideValue::Int(50));

    let kv_overrides = params.kv_overrides();
    assert_eq!(kv_overrides.len(), 1);

    let (k, v) = &kv_overrides[0];
    assert_eq!(v, &ParamOverrideValue::Int(50));
    assert_eq!(k.as_slice(), b"key");
}

#[test]
fn append_keeps_earlier_kv_overrides() {
    let mut params = LlamaModelParams::default();
    params.append_kv_override(b"a.first", ParamOverrideValue::Bool(true));
    params.append_kv_override(b"b.second", ParamOverrideValue::Float(F64Bits(1.5f64.to_bits())));
    params.append_kv_override(b"c.third", ParamOverrideValue::Str([65; 128]));
    let listed = params.kv_overrides();
    assert_eq!(
        listed,
        vec![
            (b"a.first".to_vec(), ParamOverrideValue::Bool(true)),
            (b"b.second".to_vec(), ParamOverrideValue::Float(F64Bits(1.5f64.to_bits()))),
            (b"c.third".to_vec(), ParamOverrideValue::Str([65; 128])),
        ]
    );
}

#[test]
fn kv_override_slots_end_with_an_empty_one() {
    let mut params = LlamaModelParams::default();
    params.append_kv_override(b"key", ParamOverrideValue::Int(50));
    let slots = params.kv_override_slots().unwrap();
    assert_eq!(slots.len(), 2);
    assert_eq!(&slots[0].key[..4], b"key\0");
    assert_eq!(slots[1].key, [0u8; 128]);
    assert_eq!(slots[1].value, ParamOverrideValue::Int(0));
}

#[test]
fn longest_kv_override_key() {
    let key = [b'k'; 127];
    let mut params = LlamaModelParams::default();
    params.append_kv_override(&key, ParamOverrideValue::Int(1));
    assert_eq!(params.kv_overrides(), vec![(key.to_vec(), ParamOverrideValue::Int(1))]);
}

#[test]
fn empty_kv_override_key_is_not_seen() {
    let mut params = LlamaModelParams::default();
    params.append_kv_override(b"", ParamOverrideValue::Int(1));
    assert!(params.kv_overrides().is_empty());
    assert_eq!(params.kv_override_slots().unwrap().len(), 2);
    params.append_kv_override(b"key", ParamOverrideValue::Int(2));
    assert_eq!(params.kv_overrides(), vec![(b"key".to_vec(), ParamOverrideValue::Int(2))]);
}

#[test]
fn gpu_layers() {
    let params = LlamaModelParams::default();
    let params = params.with_n_gpu_layers(1);
    assert_eq!(params.n_gpu_layers(), 1);
    assert_eq!(params.with_n_gpu_layers(u32::MAX).n_gpu_layers(), i32::MAX);
}

#[test]
fn gpu_layers_at_the_bound() {
    let params = LlamaModelParams::default().with_n_gpu_layers(i32::MAX as u32);
    assert_eq!(params.n_gpu_layers(), i32::MAX);
    let params = params.with_n_gpu_layers(i32::MAX as u32 + 1);
    assert_eq!(params.n_gpu_layers(), i32::MAX);
    assert_eq!(params.with_n_gpu_layers(0).n_gpu_layers(), 0);
}

#[test]
fn plain_settings() {
    let params = LlamaModelParams::default()
        .with_main_gpu(-3)
        .with_vocab_only(true)
        .with_lazy_mode(LlamaLazyMode::On)
        .with_load_mtp(true)
        .with_split_mode(LlamaSplitMode::Tensor)
        .with_load_mode(LlamaLoadMode::DirectIo);
    assert_eq!(params.main_gpu(), -3);
    assert!(params.vocab_only());
    assert_eq!(params.lazy_mode(), LlamaLazyMode::On);
    assert!(params.load_mtp());
    assert_eq!(params.split_mode(), LlamaSplitMode::Tensor);
    assert_eq!(params.load_mode(), LlamaLoadMode::DirectIo);
    assert_eq!(params.n_gpu_layers(), -1);
}

#[test]
fn mapping_and_locking_by_mode() {
    let table = [
        (LlamaLoadMode::Auto, true, false),
        (LlamaLoadMode::Plain, false, false),
        (LlamaLoadMode::Mmap, true, false),
        (LlamaLoadMode::Mlock, false, true),
        (LlamaLoadMode::MmapMlock, true, true),
        (LlamaLoadMode::DirectIo, false, false),
    ];
    for (mode, mmap, mlock) in table {
        let params = LlamaModelParams::default().with_load_mode(mode);
        assert_eq!(params.use_mmap(), mmap);
        assert_eq!(params.use_mlock(), mlock);
    }
}

#[test]
fn switching_locking_keeps_mapping() {
    let table = [
        (LlamaLoadMode::Auto, true, LlamaLoadMode::MmapMlock),
        (LlamaLoadMode::Auto, false, LlamaLoadMode::Mmap),
        (LlamaLoadMode::Plain, true, LlamaLoadMode::Mlock),
        (LlamaLoadMode::DirectIo, false, LlamaLoadMode::Plain),
        (LlamaLoadMode::MmapMlock, false, LlamaLoadMode::Mmap),
        (LlamaLoadMode::Mlock, false, LlamaLoadMode::Plain),
    ];
    for (mode, lock, expected) in table {
        let params = LlamaModelParams::default().with_load_mode(mode);
        let mapped = params.use_mmap();
        let params = params.with_use_mlock(lock);
        assert_eq!(params.load_mode(), expected);
        assert_eq!(params.use_mlock(), lock);
        assert_eq!(params.use_mmap(), mapped);
    }
}

#[test]
fn tensor_split_is_padded() {
    let params = LlamaModelParams::default().with_tensor_split(&bits(&[48.0, 52.0]), 4);
    assert_eq!(&params.tensor_split()[..2], bits(&[48.0, 52.0]).as_slice());
    assert_eq!(params.tensor_split(), bits(&[48.0, 52.0, 0.0, 0.0]).as_slice());
    assert!(params.has_tensor_split());
}

#[test]
fn tensor_split_drops_extra_values() {
    let params = LlamaModelParams::default().with_tensor_split(&bits(&[1.0, 2.0, 3.0]), 2);
    assert_eq!(params.tensor_split(), bits(&[1.0, 2.0]).as_slice());
    let params = params.with_tensor_split(&bits(&[7.0]), 1);
    assert_eq!(params.tensor_split(), bits(&[7.0]).as_slice());
}

#[test]
fn native_fields_round_trip() {
    let native = NativeModelParams {
        n_gpu_layers: 12,
        main_gpu: 1,
        vocab_only: true,
        load_mode: 3,
        lazy_mode: 2,
        load_mtp: true,
        split_mode: 3,
    };
    let params = LlamaModelParams::from_native(native, &codes());
    assert_eq!(params.load_mode(), LlamaLoadMode::MmapMlock);
    assert_eq!(params.lazy_mode(), LlamaLazyMode::On);
    assert_eq!(params.split_mode(), LlamaSplitMode::Tensor);
    assert_eq!(params.to_native(&codes()), native);
}

#[test]
fn native_fields_of_no_mode() {
    let native = NativeModelParams {
        n_gpu_layers: 0,
        main_gpu: 0,
        vocab_only: false,
        load_mode: 77,
        lazy_mode: 77,
        load_mtp: false,
        split_mode: 77,
    };
    let params = LlamaModelParams::from_native(native, &codes());
    assert_eq!(params.load_mode(), LlamaLoadMode::Plain);
    assert_eq!(params.lazy_mode(), LlamaLazyMode::Auto);
    assert_eq!(params.split_mode(), LlamaSplitMode::Layer);
    let back = params.to_native(&codes());
    assert_eq!(back, NativeModelParams { load_mode: 0, lazy_mode: 1, split_mode: 1, ..native });
}
