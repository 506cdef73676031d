use llama_cpp_4::model::params::buffer_types::{buft_name, device_buffer_types};
use llama_cpp_4::model::params::{DeviceBufferType, LlamaModelParams, TensorBuftOverrideError};

fn devices() -> Vec<Option<DeviceBufferType>> {
    vec![
        Some(DeviceBufferType { name: b"CUDA0".to_vec(), handle: 16 }),
        None,
        Some(DeviceBufferType { name: b"CPU".to_vec(), handle: 32 }),
        Some(DeviceBufferType { name: b"CPU".to_vec(), handle: 48 }),
    ]
}

fn pair(pattern: &str, name: &str) -> (String, String) {
    (pattern.to_owned(), name.to_owned())
}

#[test]
fn buffer_type_names() {
    assert_eq!(buft_name(None), "");
    assert_eq!(buft_name(Some(b"CUDA1")), "CUDA1");
    assert_eq!(buft_name(Some("Gerät".as_bytes())), "Gerät");
    assert_eq!(buft_name(Some(&[b'A', 0xff, b'B'])), "A\u{fffd}B");
}

#[test]
fn devices_without_buffer_type_are_passed_over() {
    let types = device_buffer_types(&devices());
    let seen: Vec<(&str, usize)> = types.iter().map(|t| (t.name.as_str(), t.handle)).collect();
    assert_eq!(seen, vec![("CUDA0", 16), ("CPU", 32), ("CPU", 48)]);
    assert!(device_buffer_types(&vec![None]).is_empty());
}

#[test]
fn overrides_read_back_as_requested() {
    let params = LlamaModelParams::default()
        .with_tensor_buft_overrides(&[("blk\\..*", "CPU"), ("größe", "CUDA0")], 8, &devices())
        .unwrap();
    assert_eq!(
        params.tensor_buft_overrides(),
        vec![pair("blk\\..*", "CPU"), pair("größe", "CUDA0")]
    );
}

#[test]
fn override_array_is_terminated_and_takes_the_first_match() {
    let params = LlamaModelParams::default()
        .with_tensor_buft_overrides(&[("a", "CPU"), ("b", "CUDA0")], 2, &devices())
        .unwrap();
    let (patterns, entries) = params.tensor_buft_override_array().unwrap();
    assert_eq!(patterns, &vec![b"a".to_vec(), b"b".to_vec()]);
    assert_eq!(entries.len(), 3);
    assert_eq!(entries[0].pattern, Some(0));
    assert_eq!(entries[0].buft.as_ref().unwrap().handle, 32);
    assert_eq!(entries[1].buft.as_ref().unwrap().handle, 16);
    assert_eq!(entries[2].pattern, None);
    assert!(entries[2].buft.is_none());
}

#[test]
fn empty_slice_clears_the_overrides() {
    let params = LlamaModelParams::default()
        .with_tensor_buft_overrides(&[("a", "CPU")], 4, &devices())
        .unwrap()
        .with_tensor_buft_overrides(&[], 0, &devices())
        .unwrap();
    assert!(params.tensor_buft_overrides().is_empty());
    assert!(params.tensor_buft_override_array().is_none());
}

#[test]
fn too_many_overrides() {
    let result = LlamaModelParams::default()
        .with_tensor_buft_overrides(&[("a\0", "nowhere"), ("b", "CPU")], 1, &devices());
    assert!(matches!(result, Err(TensorBuftOverrideError::TooMany { count: 2, max: 1 })));
}

#[test]
fn unknown_buffer_type() {
    let result = LlamaModelParams::default()
        .with_tensor_buft_overrides(&[("a", "CPU"), ("b\0", "CUDA9")], 4, &devices());
    match result {
        Err(TensorBuftOverrideError::UnknownBufferType { name, available }) => {
            assert_eq!(name, "CUDA9");
            assert_eq!(available, vec!["CUDA0", "CPU", "CPU"]);
        }
        _ => panic!("expected an unknown buffer type"),
    }
}

#[test]
fn pattern_with_nul_byte() {
    let result = LlamaModelParams::default()
        .with_tensor_buft_overrides(&[("a\0b", "CPU"), ("c", "CUDA9")], 4, &devices());
    match result {
        Err(TensorBuftOverrideError::InvalidPattern { pattern }) => assert_eq!(pattern, "a\0b"),
        _ => panic!("expected an invalid pattern"),
    }
}

#[test]
fn limit_is_inclusive() {
    let result =
        LlamaModelParams::default().with_tensor_buft_overrides(&[("a", "CPU")], 1, &devices());
    assert!(result.is_ok());
}
