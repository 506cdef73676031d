use llama_cpp_4::float_bits::{F32Bits, F64Bits};
use llama_cpp_4::model::params::kv_overrides::ParamOverrideValue;
use llama_cpp_4::mtp::MtpSessionConfig;

#[test]
fn single_precision_compares_as_numbers() {
    let values = [
        0.0f32,
        -0.0,
        1.0,
        -1.0,
        0.1,
        f32::MIN_POSITIVE,
        f32::from_bits(1),
        f32::from_bits(0x8000_0001),
        f32::MAX,
        f32::MIN,
        f32::INFINITY,
        f32::NEG_INFINITY,
        f32::NAN,
        -f32::NAN,
        f32::from_bits(0x7f80_0001),
        f32::from_bits(0xffff_ffff),
    ];
    for a in values {
        for b in values {
            assert_eq!(F32Bits(a.to_bits()) == F32Bits(b.to_bits()), a == b);
            assert_eq!(F32Bits(a.to_bits()) != F32Bits(b.to_bits()), a != b);
        }
    }
}

#[test]
fn double_precision_compares_as_numbers() {
    let values = [
        0.0f64,
        -0.0,
        1.5,
        -1.5,
        f64::from_bits(1),
        f64::MAX,
        f64::MIN,
        f64::INFINITY,
        f64::NEG_INFINITY,
        f64::NAN,
        f64::from_bits(0x7ff0_0000_0000_0001),
        f64::from_bits(u64::MAX),
    ];
    for a in values {
        for b in values {
            assert_eq!(F64Bits(a.to_bits()) == F64Bits(b.to_bits()), a == b);
        }
    }
}

#[test]
fn configurations_compare_their_floor_as_a_number() {
    let config = MtpSessionConfig::new(1, 3);
    assert_eq!(config, config.with_p_min(F32Bits((-0.0f32).to_bits())));
    let undefined = config.with_p_min(F32Bits(f32::NAN.to_bits()));
    assert!(undefined != undefined);
    assert!(config != config.with_p_min(F32Bits(0.1f32.to_bits())));
    assert!(config != config.with_n_min(1));
    assert!(config != MtpSessionConfig::new(2, 3));
    assert!(config != MtpSessionConfig::new(1, 4));
}

#[test]
fn override_values_compare_floats_as_numbers() {
    let value = |v: f64| ParamOverrideValue::Float(F64Bits(v.to_bits()));
    assert_eq!(value(0.0), value(-0.0));
    assert!(value(f64::NAN) != value(f64::NAN));
    assert!(value(1.0) != ParamOverrideValue::Int(1));
}
