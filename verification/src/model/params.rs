//! Parameters under which a model is loaded.

pub mod buffer_types;
pub mod kv_overrides;
pub mod modes;

pub use buffer_types::{DeviceBufferType, TensorBuftOverride, TensorBuftOverrideError};
pub use modes::{
    LazyModeCodes, LlamaLazyMode, LlamaLoadMode, LlamaSplitMode, LoadModeCodes, SplitModeCodes,
};

use crate::float_bits::F32Bits;
use buffer_types::resolve_overrides;
use kv_overrides::{append, list, new_slots, KvOverride, ParamOverrideValue};
use vstd::prelude::*;

verus! {

/// The codes of every mode that the C header enumerates.
#[derive(Debug, Clone, Copy, PartialEq, Eq, Structural)]
pub struct ModeCodes {
    /// Codes of the loading strategies.
    pub load: LoadModeCodes,
    /// Codes of the lazy modes.
    pub lazy: LazyModeCodes,
    /// Codes of the split modes.
    pub split: SplitModeCodes,
}

impl ModeCodes {
    /// Different modes have different codes.
    pub open spec fn distinct(self) -> bool {
        self.load.distinct() && self.lazy.distinct() && self.split.distinct()
    }
}

/// The plain fields of the C structure `llama_model_params`.
#[derive(Debug, Clone, Copy, PartialEq, Eq, Structural)]
pub struct NativeModelParams {
    /// Layers to offload to the GPU.
    pub n_gpu_layers: i32,
    /// The GPU for scratch and small tensors.
    pub main_gpu: i32,
    /// Load the vocabulary only.
    pub vocab_only: bool,
    /// Code of the loading strategy.
    pub load_mode: i32,
    /// Code of the lazy mode.
    pub lazy_mode: u32,
    /// Load the multi-token-prediction layers.
    pub load_mtp: bool,
    /// Code of the split mode.
    pub split_mode: u32,
}

/// Parameters under which a model is loaded.
///
/// Beside the plain settings it owns the arrays that the backend reads: the
/// key-value override slots, the per-device proportions and the tensor
/// overrides.
#[derive(Debug)]
pub struct LlamaModelParams {
    n_gpu_layers: i32,
    main_gpu: i32,
    vocab_only: bool,
    load_mode: LlamaLoadMode,
    lazy_mode: LlamaLazyMode,
    load_mtp: bool,
    split_mode: LlamaSplitMode,
    kv_overrides: Vec<KvOverride>,
    kv_overrides_set: bool,
    tensor_split: Vec<F32Bits>,
    tensor_split_set: bool,
    buft_override_patterns: Vec<Vec<u8>>,
    buft_overrides: Vec<TensorBuftOverride>,
    buft_overrides_set: bool,
}

/// Model of [`LlamaModelParams`].
pub struct ModelParams {
    /// Layers to offload to the GPU.
    pub n_gpu_layers: i32,
    /// The GPU for scratch and small tensors.
    pub main_gpu: i32,
    /// Load the vocabulary only.
    pub vocab_only: bool,
    /// Loading strategy.
    pub load_mode: LlamaLoadMode,
    /// Lazy mode.
    pub lazy_mode: LlamaLazyMode,
    /// Load the multi-token-prediction layers.
    pub load_mtp: bool,
    /// Split mode.
    pub split_mode: LlamaSplitMode,
    /// The key-value override slots.
    pub kv_slots: Seq<kv_overrides::KvSlot>,
    /// The backend is given the key-value override slots.
    pub kv_overrides_set: bool,
    /// Per-device proportions.
    pub tensor_split: Seq<F32Bits>,
    /// The backend is given the per-device proportions.
    pub tensor_split_set: bool,
    /// Patterns of the tensor overrides.
    pub buft_patterns: Seq<Seq<u8>>,
    /// The tensor override array.
    pub buft_entries: Seq<buffer_types::TensorBuftOverrideView>,
    /// The backend is given the tensor override array.
    pub buft_overrides_set: bool,
}

impl ModelParams {
    /// Memory mapping is used where possible, which `Auto` counts as.
    pub open spec fn use_mmap(self) -> bool {
        self.load_mode == LlamaLoadMode::Auto || self.load_mode == LlamaLoadMode::Mmap
            || self.load_mode == LlamaLoadMode::MmapMlock
    }

    /// The model is kept in RAM.
    pub open spec fn use_mlock(self) -> bool {
        self.load_mode == LlamaLoadMode::Mlock || self.load_mode == LlamaLoadMode::MmapMlock
    }

    /// The parameters with locking switched on or off, mapping left as it is.
    pub open spec fn with_use_mlock(self, use_mlock: bool) -> ModelParams {
        let load_mode = if self.use_mmap() {
            if use_mlock {
                LlamaLoadMode::MmapMlock
            } else {
                LlamaLoadMode::Mmap
            }
        } else if use_mlock {
            LlamaLoadMode::Mlock
        } else {
            LlamaLoadMode::Plain
        };
        ModelParams { load_mode, ..self }
    }

    /// The parameters with `split` as proportions of `max_devices` devices:
    /// extra values are ignored and missing trailing devices get `0.0`.
    pub open spec fn with_tensor_split(self, split: Seq<F32Bits>, max_devices: usize) -> ModelParams {
        ModelParams {
            tensor_split: Seq::new(
                max_devices as nat,
                |i: int|
                    if i < split.len() {
                        split[i]
                    } else {
                        F32Bits(0)
                    },
            ),
            tensor_split_set: true,
            ..self
        }
    }

    /// The parameters with a key-value override appended.
    pub open spec fn with_kv_override(
        self,
        key: Seq<u8>,
        value: ParamOverrideValue,
    ) -> ModelParams {
        ModelParams {
            kv_slots: kv_overrides::appended(self.kv_slots, key, value),
            kv_overrides_set: true,
            ..self
        }
    }

    /// The key-value overrides in force.
    pub open spec fn kv_overrides(self) -> Seq<kv_overrides::KvEntry> {
        kv_overrides::overrides(self.kv_slots)
    }

    /// The parameters with `requested` as their tensor overrides, in place of
    /// any earlier ones.
    pub open spec fn with_buft_overrides(
        self,
        available: Seq<buffer_types::BufferTypeView>,
        requested: Seq<buffer_types::OverrideRequest>,
    ) -> ModelParams {
        ModelParams {
            buft_patterns: buffer_types::pattern_bytes(requested),
            buft_entries: buffer_types::override_array(available, requested),
            buft_overrides_set: requested.len() > 0,
            ..self
        }
    }

    /// The tensor overrides in force.
    pub open spec fn buft_overrides(self) -> Seq<buffer_types::OverrideRequest> {
        Seq::new(
            self.buft_patterns.len(),
            |i: int|
                buffer_types::OverrideRequest {
                    pattern: crate::text::decoded(self.buft_patterns[i]),
                    buffer_type: match self.buft_entries[i].buft {
                        Some(buft) => buft.name,
                        None => Seq::empty(),
                    },
                },
        )
    }

    /// The arrays are ones that the backend can read: the override slots are
    /// terminated, each pattern has its element, and one element more ends the
    /// tensor override array.
    pub open spec fn wf(self) -> bool {
        &&& kv_overrides::terminated(self.kv_slots)
        &&& !self.kv_overrides_set ==> self.kv_overrides().len() == 0
        &&& !self.tensor_split_set ==> self.tensor_split.len() == 0
        &&& self.buft_overrides_set <==> self.buft_patterns.len() > 0
        &&& self.buft_entries.len() == self.buft_patterns.len() + 1 || (
        self.buft_entries.len() == 0 && self.buft_patterns.len() == 0)
        &&& forall|i: int|
            0 <= i < self.buft_patterns.len() ==> (#[trigger] self.buft_entries[i]).pattern
                == Some(i) && self.buft_entries[i].buft is Some
        &&& self.buft_entries.len() > 0 ==> self.buft_entries.last()
            == (buffer_types::TensorBuftOverrideView { pattern: None, buft: None })
    }

    /// The parameters that the plain fields of the C structure describe, with
    /// no override and no proportions.
    pub open spec fn from_native(native: NativeModelParams, codes: ModeCodes) -> ModelParams {
        ModelParams {
            n_gpu_layers: native.n_gpu_layers,
            main_gpu: native.main_gpu,
            vocab_only: native.vocab_only,
            load_mode: codes.load.mode(native.load_mode),
            lazy_mode: codes.lazy.mode(native.lazy_mode),
            load_mtp: native.load_mtp,
            split_mode: codes.split.mode(native.split_mode),
            kv_slots: kv_overrides::no_overrides(),
            kv_overrides_set: false,
            tensor_split: Seq::empty(),
            tensor_split_set: false,
            buft_patterns: Seq::empty(),
            buft_entries: Seq::empty(),
            buft_overrides_set: false,
        }
    }

    /// The plain fields of the C structure.
    pub open spec fn native(self, codes: ModeCodes) -> NativeModelParams {
        NativeModelParams {
            n_gpu_layers: self.n_gpu_layers,
            main_gpu: self.main_gpu,
            vocab_only: self.vocab_only,
            load_mode: codes.load.code(self.load_mode),
            lazy_mode: codes.lazy.code(self.lazy_mode),
            load_mtp: self.load_mtp,
            split_mode: codes.split.code(self.split_mode),
        }
    }
}

impl View for LlamaModelParams {
    type V = ModelParams;

    closed spec fn view(&self) -> ModelParams {
        ModelParams {
            n_gpu_layers: self.n_gpu_layers,
            main_gpu: self.main_gpu,
            vocab_only: self.vocab_only,
            load_mode: self.load_mode,
            lazy_mode: self.lazy_mode,
            load_mtp: self.load_mtp,
            split_mode: self.split_mode,
            kv_slots: kv_overrides::slot_views(self.kv_overrides@),
            kv_overrides_set: self.kv_overrides_set,
            tensor_split: self.tensor_split@,
            tensor_split_set: self.tensor_split_set,
            buft_patterns: buffer_types::byte_views(self.buft_override_patterns@),
            buft_entries: buffer_types::entry_views(self.buft_overrides@),
            buft_overrides_set: self.buft_overrides_set,
        }
    }
}

impl Default for LlamaModelParams {
    /// llama.cpp's default parameters: all layers on the GPU, GPU 0 for
    /// scratch, weights loaded by the `Auto` strategy, no override.
    fn default() -> (params: Self)
        ensures
            params@.wf(),
            params@.n_gpu_layers == -1,
            params@.main_gpu == 0,
            !params@.vocab_only,
            params@.load_mode == LlamaLoadMode::Auto,
            params@.use_mmap(),
            !params@.use_mlock(),
            params@.lazy_mode == LlamaLazyMode::Auto,
            !params@.load_mtp,
            params@.split_mode == LlamaSplitMode::Layer,
            params@.kv_slots == kv_overrides::no_overrides(),
            !params@.kv_overrides_set,
            params@.kv_overrides().len() == 0,
            params@.tensor_split.len() == 0,
            !params@.tensor_split_set,
            params@.buft_patterns.len() == 0,
            params@.buft_entries.len() == 0,
            !params@.buft_overrides_set,
    {
        proof {
            kv_overrides::law_no_overrides();
        }
        LlamaModelParams {
            n_gpu_layers: -1,
            main_gpu: 0,
            vocab_only: false,
            load_mode: LlamaLoadMode::Auto,
            lazy_mode: LlamaLazyMode::Auto,
            load_mtp: false,
            split_mode: LlamaSplitMode::Layer,
            kv_overrides: new_slots(),
            kv_overrides_set: false,
            tensor_split: Vec::new(),
            tensor_split_set: false,
            buft_override_patterns: Vec::new(),
            buft_overrides: Vec::new(),
            buft_overrides_set: false,
        }
    }
}

impl LlamaModelParams {
    /// The parameters that the plain fields of the C structure describe.
    ///
    /// A code that stands for no mode is read as the fallback of its kind, and
    /// the code itself is not kept: [`Self::to_native`] gives the fallback's.
    /// Whoever must preserve such a code keeps the C structure and writes only
    /// the fields that change.
    #[must_use]
    pub fn from_native(native: NativeModelParams, codes: &ModeCodes) -> (params: Self)
        ensures
            params@ == ModelParams::from_native(native, *codes),
            params@.wf(),
            params@.n_gpu_layers == native.n_gpu_layers,
            params@.main_gpu == native.main_gpu,
            params@.vocab_only == native.vocab_only,
            params@.load_mtp == native.load_mtp,
            params@.load_mode == codes.load.mode(native.load_mode),
            params@.lazy_mode == codes.lazy.mode(native.lazy_mode),
            params@.split_mode == codes.split.mode(native.split_mode),
            params@.kv_overrides().len() == 0,
            params@.tensor_split.len() == 0,
            params@.buft_overrides().len() == 0,
    {
        proof {
            kv_overrides::law_no_overrides();
        }
        let params = LlamaModelParams {
            n_gpu_layers: native.n_gpu_layers,
            main_gpu: native.main_gpu,
            vocab_only: native.vocab_only,
            load_mode: LlamaLoadMode::from_code(native.load_mode, &codes.load),
            lazy_mode: LlamaLazyMode::from_code(native.lazy_mode, &codes.lazy),
            load_mtp: native.load_mtp,
            split_mode: LlamaSplitMode::from_code(native.split_mode, &codes.split),
            kv_overrides: new_slots(),
            kv_overrides_set: false,
            tensor_split: Vec::new(),
            tensor_split_set: false,
            buft_override_patterns: Vec::new(),
            buft_overrides: Vec::new(),
            buft_overrides_set: false,
        };
        assert(params@.tensor_split =~= Seq::empty());
        assert(params@.buft_patterns =~= Seq::empty());
        assert(params@.buft_entries =~= Seq::empty());
        params
    }

    /// The plain fields of the C structure.
    ///
    /// Every mode comes out as its own code. A code of no mode that
    /// [`Self::from_native`] took in does not come out again.
    #[must_use]
    pub fn to_native(&self, codes: &ModeCodes) -> (native: NativeModelParams)
        ensures
            native == self@.native(*codes),
            native.n_gpu_layers == self@.n_gpu_layers,
            native.main_gpu == self@.main_gpu,
            native.vocab_only == self@.vocab_only,
            native.load_mtp == self@.load_mtp,
            native.load_mode == codes.load.code(self@.load_mode),
            native.lazy_mode == codes.lazy.code(self@.lazy_mode),
            native.split_mode == codes.split.code(self@.split_mode),
    {
        NativeModelParams {
            n_gpu_layers: self.n_gpu_layers,
            main_gpu: self.main_gpu,
            vocab_only: self.vocab_only,
            load_mode: self.load_mode.to_code(&codes.load),
            lazy_mode: self.lazy_mode.to_code(&codes.lazy),
            load_mtp: self.load_mtp,
            split_mode: self.split_mode.to_code(&codes.split),
        }
    }

    /// The key-value overrides in force, as `(key bytes, value)`, in the order
    /// in which they were appended.
    #[must_use]
    pub fn kv_overrides(&self) -> (listed: Vec<(Vec<u8>, ParamOverrideValue)>)
        requires
            self@.wf(),
        ensures
            kv_overrides::listed_views(listed@) == self@.kv_overrides(),
    {
        list(&self.kv_overrides)
    }

    /// Appends a key-value override to the model parameters.
    ///
    /// `key` holds the bytes of the key without a terminator: at most 127
    /// ASCII bytes, none of them zero.
    pub fn append_kv_override(&mut self, key: &[u8], value: ParamOverrideValue)
        requires
            old(self)@.wf(),
            kv_overrides::valid_key(key@),
        ensures
            final(self)@ == old(self)@.with_kv_override(key@, value),
            final(self)@.wf(),
            key@.len() > 0 ==> final(self)@.kv_overrides() == old(self)@.kv_overrides().push(
                (kv_overrides::KvEntry { key: key@, value }),
            ),
            key@.len() == 0 ==> final(self)@.kv_overrides() == old(self)@.kv_overrides(),
            final(self)@.kv_overrides_set,
            final(self)@.kv_slots.len() == old(self)@.kv_slots.len() + 1,
            forall|n: int|
                0 <= n < old(self)@.kv_slots.len() && (#[trigger] old(self)@.kv_slots[n]).key[0]
                    != 0 ==> final(self)@.kv_slots[n] == old(self)@.kv_slots[n],
            ({
                let n = old(self)@.kv_overrides().len() as int;
                &&& 0 <= n < old(self)@.kv_slots.len()
                &&& old(self)@.kv_slots[n].key[0] == 0
                &&& final(self)@.kv_slots[n].value == value
                &&& final(self)@.kv_slots[n].key.take(key@.len() as int) == key@
            }),
    {
        proof {
            law_kv_override_is_written(self@, key@, value);
            kv_overrides::law_append(self@.kv_slots, key@, value);
        }
        append(&mut self.kv_overrides, key, value);
        self.kv_overrides_set = true;
    }

    /// The slots of the key-value override array, or `None` while the backend
    /// is given none.
    #[must_use]
    pub fn kv_override_slots(&self) -> (slots: Option<&Vec<KvOverride>>)
        ensures
            match slots {
                Some(slots) => self@.kv_overrides_set && kv_overrides::slot_views(slots@)
                    == self@.kv_slots,
                None => !self@.kv_overrides_set,
            },
    {
        if self.kv_overrides_set {
            Some(&self.kv_overrides)
        } else {
            None
        }
    }

    /// Get the number of layers to offload to the GPU.
    #[must_use]
    pub fn n_gpu_layers(&self) -> (n: i32)
        ensures
            n == self@.n_gpu_layers,
    {
        self.n_gpu_layers
    }

    /// The GPU that is used for scratch and small tensors.
    #[must_use]
    pub fn main_gpu(&self) -> (gpu: i32)
        ensures
            gpu == self@.main_gpu,
    {
        self.main_gpu
    }

    /// Only load the vocabulary, no weights.
    #[must_use]
    pub fn vocab_only(&self) -> (only: bool)
        ensures
            only == self@.vocab_only,
    {
        self.vocab_only
    }

    /// Returns the exact model-file loading strategy.
    #[must_use]
    pub fn load_mode(&self) -> (mode: LlamaLoadMode)
        ensures
            mode == self@.load_mode,
    {
        self.load_mode
    }

    /// Returns whether arch-marked tensors are read on demand.
    ///
    /// This is the requested mode, not the effective one: llama.cpp resolves
    /// [`LlamaLazyMode::Auto`] down to [`LlamaLazyMode::Off`] during load when
    /// a device lacks mmap support.
    #[must_use]
    pub fn lazy_mode(&self) -> (mode: LlamaLazyMode)
        ensures
            mode == self@.lazy_mode,
    {
        self.lazy_mode
    }

    /// Whether the model's multi-token-prediction layers will be loaded.
    #[must_use]
    pub fn load_mtp(&self) -> (load: bool)
        ensures
            load == self@.load_mtp,
    {
        self.load_mtp
    }

    /// How the model is split across GPUs.
    #[must_use]
    pub fn split_mode(&self) -> (mode: LlamaSplitMode)
        ensures
            mode == self@.split_mode,
    {
        self.split_mode
    }

    /// Per-device proportions set by [`Self::with_tensor_split`]; empty until
    /// one is set.
    #[must_use]
    pub fn tensor_split(&self) -> (split: &[F32Bits])
        ensures
            split@ == self@.tensor_split,
    {
        self.tensor_split.as_slice()
    }

    /// Whether the backend is given the per-device proportions.
    #[must_use]
    pub fn has_tensor_split(&self) -> (set: bool)
        ensures
            set == self@.tensor_split_set,
    {
        self.tensor_split_set
    }

    /// Use mmap if possible.
    ///
    /// [`LlamaLoadMode::Auto`] counts as "possible": llama.cpp memory-maps
    /// under `Auto` unless one of the backend devices lacks mmap support.
    #[must_use]
    pub fn use_mmap(&self) -> (mapped: bool)
        ensures
            mapped == self@.use_mmap(),
    {
        matches!(
            self.load_mode(),
            LlamaLoadMode::Auto | LlamaLoadMode::Mmap | LlamaLoadMode::MmapMlock
        )
    }

    /// Force system to keep model in RAM.
    #[must_use]
    pub fn use_mlock(&self) -> (locked: bool)
        ensures
            locked == self@.use_mlock(),
    {
        matches!(self.load_mode(), LlamaLoadMode::Mlock | LlamaLoadMode::MmapMlock)
    }

    /// Sets the number of gpu layers to offload to the GPU; a number that does
    /// not fit becomes the largest that does.
    #[must_use]
    pub fn with_n_gpu_layers(self, n_gpu_layers: u32) -> (params: Self)
        ensures
            params@ == (ModelParams {
                n_gpu_layers: if n_gpu_layers <= i32::MAX {
                    n_gpu_layers as i32
                } else {
                    i32::MAX
                },
                ..self@
            }),
    {
        let n_gpu_layers: i32 = if n_gpu_layers <= i32::MAX as u32 {
            n_gpu_layers as i32
        } else {
            i32::MAX
        };
        LlamaModelParams { n_gpu_layers, ..self }
    }

    /// Sets the main GPU.
    #[must_use]
    pub fn with_main_gpu(self, main_gpu: i32) -> (params: Self)
        ensures
            params@ == (ModelParams { main_gpu, ..self@ }),
    {
        LlamaModelParams { main_gpu, ..self }
    }

    /// Sets `vocab_only`.
    #[must_use]
    pub fn with_vocab_only(self, vocab_only: bool) -> (params: Self)
        ensures
            params@ == (ModelParams { vocab_only, ..self@ }),
    {
        LlamaModelParams { vocab_only, ..self }
    }

    /// Sets the exact model-file loading strategy.
    #[must_use]
    pub fn with_load_mode(self, load_mode: LlamaLoadMode) -> (params: Self)
        ensures
            params@ == (ModelParams { load_mode, ..self@ }),
    {
        LlamaModelParams { load_mode, ..self }
    }

    /// Sets whether arch-marked tensors are read on demand.
    #[must_use]
    pub fn with_lazy_mode(self, lazy_mode: LlamaLazyMode) -> (params: Self)
        ensures
            params@ == (ModelParams { lazy_mode, ..self@ }),
    {
        LlamaModelParams { lazy_mode, ..self }
    }

    /// Sets whether to load the model's multi-token-prediction layers.
    #[must_use]
    pub fn with_load_mtp(self, load_mtp: bool) -> (params: Self)
        ensures
            params@ == (ModelParams { load_mtp, ..self@ }),
    {
        LlamaModelParams { load_mtp, ..self }
    }

    /// Sets how the model is split across GPUs.
    #[must_use]
    pub fn with_split_mode(self, split_mode: LlamaSplitMode) -> (params: Self)
        ensures
            params@ == (ModelParams { split_mode, ..self@ }),
    {
        LlamaModelParams { split_mode, ..self }
    }

    /// Sets the proportion of the model offloaded to each GPU.
    ///
    /// The slice is copied into a buffer of `max_devices` entries; extra values
    /// are ignored and missing trailing devices get `0.0`.
    #[must_use]
    pub fn with_tensor_split(self, split: &[F32Bits], max_devices: usize) -> (params: Self)
        ensures
            params@ == self@.with_tensor_split(split@, max_devices),
            self@.wf() ==> params@.wf(),
    {
        let ghost before = self@;
        let mut tensor_split: Vec<F32Bits> = vec![F32Bits(0); max_devices];
        let mut i: usize = 0;
        while i < max_devices && i < split.len()
            invariant
                i <= max_devices,
                i <= split.len(),
                tensor_split.len() == max_devices,
                forall|j: int| 0 <= j < i ==> tensor_split@[j] == split@[j],
                forall|j: int| i <= j < max_devices ==> tensor_split@[j] == F32Bits(0),
            decreases max_devices - i,
        {
            tensor_split.set(i, split[i]);
            i += 1;
        }
        let params = LlamaModelParams { tensor_split, tensor_split_set: true, ..self };
        assert(params@.tensor_split =~= before.with_tensor_split(split@, max_devices).tensor_split);
        params
    }

    /// Pins tensors whose names match a regex to a backend buffer type; the
    /// first matching pattern wins, and the buffer type is a name such as
    /// `CPU`, `CUDA0` or `CUDA1`. An empty slice clears the overrides.
    ///
    /// `max` is the backend's limit on overrides, and `devices` holds the
    /// buffer type of each backend device.
    ///
    /// # Errors
    ///
    /// An unknown buffer type name, a pattern with a NUL byte, or more
    /// overrides than the backend allows.
    pub fn with_tensor_buft_overrides(
        self,
        overrides: &[(&str, &str)],
        max: usize,
        devices: &Vec<Option<DeviceBufferType>>,
    ) -> (params: Result<Self, TensorBuftOverrideError>)
        ensures
            match params {
                Ok(params) => {
                    &&& buffer_types::override_error(
                        buffer_types::exposed(devices@),
                        buffer_types::requests(overrides@),
                        max,
                    ) is None
                    &&& params@ == self@.with_buft_overrides(
                        buffer_types::exposed(devices@),
                        buffer_types::requests(overrides@),
                    )
                    &&& params@.buft_overrides() == buffer_types::requests(overrides@)
                    &&& self@.wf() ==> params@.wf()
                },
                Err(error) => buffer_types::override_error(
                    buffer_types::exposed(devices@),
                    buffer_types::requests(overrides@),
                    max,
                ) == Some(error@),
            },
            overrides@.len() > max <==> params matches Err(
                TensorBuftOverrideError::TooMany { .. },
            ),
            params matches Err(TensorBuftOverrideError::TooMany { count, max: limit }) ==> count
                == overrides@.len() && limit == max,
    {
        let ghost before = self@;
        let (buft_override_patterns, buft_overrides) = match resolve_overrides(overrides, max, devices) {
            Ok(resolved) => resolved,
            Err(error) => return Err(error),
        };
        let buft_overrides_set = overrides.len() > 0;
        proof {
            law_buft_overrides_read_back(
                before,
                buffer_types::exposed(devices@),
                buffer_types::requests(overrides@),
                max,
            );
        }
        Ok(
            LlamaModelParams {
                buft_override_patterns,
                buft_overrides,
                buft_overrides_set,
                ..self
            },
        )
    }

    /// The configured tensor buffer type overrides as `(pattern, buffer type
    /// name)`.
    #[must_use]
    pub fn tensor_buft_overrides(&self) -> (overrides: Vec<(String, String)>)
        requires
            self@.wf(),
        ensures
            overrides.len() == self@.buft_overrides().len(),
            forall|i: int|
                0 <= i < overrides.len() ==> (#[trigger] overrides@[i]).0@
                    == self@.buft_overrides()[i].pattern && overrides@[i].1@
                    == self@.buft_overrides()[i].buffer_type,
    {
        let mut overrides: Vec<(String, String)> = Vec::new();
        let mut i: usize = 0;
        while i < self.buft_override_patterns.len()
            invariant
                i <= self.buft_override_patterns.len(),
                self@.wf(),
                overrides.len() == i,
                forall|j: int|
                    0 <= j < i ==> (#[trigger] overrides@[j]).0@
                        == self@.buft_overrides()[j].pattern && overrides@[j].1@
                        == self@.buft_overrides()[j].buffer_type,
            decreases self.buft_override_patterns.len() - i,
        {
            let pattern = crate::text::decode_text(self.buft_override_patterns[i].as_slice());
            assert(self@.buft_patterns[i as int] == self.buft_override_patterns@[i as int]@);
            assert(self@.buft_entries[i as int] == self.buft_overrides@[i as int]@);
            let name = match &self.buft_overrides[i].buft {
                Some(buft) => buft.name.clone(),
                None => String::new(),
            };
            overrides.push((pattern, name));
            i += 1;
        }
        overrides
    }

    /// The patterns and the tensor override array, or `None` while the backend
    /// is given none.
    #[must_use]
    pub fn tensor_buft_override_array(&self) -> (array: Option<
        (&Vec<Vec<u8>>, &Vec<TensorBuftOverride>),
    >)
        ensures
            match array {
                Some((patterns, entries)) => {
                    &&& self@.buft_overrides_set
                    &&& buffer_types::byte_views(patterns@) == self@.buft_patterns
                    &&& buffer_types::entry_views(entries@) == self@.buft_entries
                },
                None => !self@.buft_overrides_set,
            },
    {
        if self.buft_overrides_set {
            Some((&self.buft_override_patterns, &self.buft_overrides))
        } else {
            None
        }
    }

    /// Sets `use_mlock`.
    #[must_use]
    pub fn with_use_mlock(self, use_mlock: bool) -> (params: Self)
        ensures
            params@ == self@.with_use_mlock(use_mlock),
            params@.load_mode == match (self@.load_mode, use_mlock) {
                (LlamaLoadMode::Auto, false) => LlamaLoadMode::Mmap,
                (LlamaLoadMode::Mmap, false) => LlamaLoadMode::Mmap,
                (LlamaLoadMode::MmapMlock, false) => LlamaLoadMode::Mmap,
                (LlamaLoadMode::Auto, true) => LlamaLoadMode::MmapMlock,
                (LlamaLoadMode::Mmap, true) => LlamaLoadMode::MmapMlock,
                (LlamaLoadMode::MmapMlock, true) => LlamaLoadMode::MmapMlock,
                (_, true) => LlamaLoadMode::Mlock,
                (_, false) => LlamaLoadMode::Plain,
            },
    {
        let load_mode = match (self.use_mmap(), use_mlock) {
            (true, true) => LlamaLoadMode::MmapMlock,
            (true, false) => LlamaLoadMode::Mmap,
            (false, true) => LlamaLoadMode::Mlock,
            (false, false) => LlamaLoadMode::Plain,
        };
        LlamaModelParams { load_mode, ..self }
    }
}

/// Switching locking on or off does exactly that: it says nothing about
/// mapping, and no other parameter changes.
pub proof fn law_use_mlock(params: ModelParams, use_mlock: bool)
    ensures
        params.with_use_mlock(use_mlock).use_mlock() == use_mlock,
        params.with_use_mlock(use_mlock).use_mmap() == params.use_mmap(),
        params.with_use_mlock(use_mlock) == (ModelParams {
            load_mode: params.with_use_mlock(use_mlock).load_mode,
            ..params
        }),
{
}

/// The proportions are a row of one value per device: those given come first,
/// zeros fill the rest, and what does not fit is dropped.
pub proof fn law_tensor_split(params: ModelParams, split: Seq<F32Bits>, max_devices: usize)
    ensures
        ({
            let row = params.with_tensor_split(split, max_devices).tensor_split;
            &&& row.len() == max_devices
            &&& split.len() <= max_devices ==> row.take(split.len() as int) == split
            &&& split.len() >= max_devices ==> row == split.take(max_devices as int)
            &&& forall|i: int| split.len() <= i < max_devices ==> row[i] == F32Bits(0)
        }),
{
    let row = params.with_tensor_split(split, max_devices).tensor_split;
    if split.len() <= max_devices {
        assert(row.take(split.len() as int) =~= split);
    }
    if split.len() >= max_devices {
        assert(row =~= split.take(max_devices as int));
    }
}

/// Tensor overrides read back as they were requested, and the arrays that the
/// backend reads stay well formed.
pub proof fn law_buft_overrides_read_back(
    params: ModelParams,
    available: Seq<buffer_types::BufferTypeView>,
    requested: Seq<buffer_types::OverrideRequest>,
    max: usize,
)
    requires
        buffer_types::override_error(available, requested, max) is None,
    ensures
        params.with_buft_overrides(available, requested).buft_overrides() == requested,
        params.wf() ==> params.with_buft_overrides(available, requested).wf(),
{
    let after = params.with_buft_overrides(available, requested);
    assert forall|i: int| 0 <= i < requested.len() implies #[trigger] after.buft_overrides()[i]
        == requested[i] by {
        buffer_types::lemma_sound_requests(available, requested, i);
        buffer_types::lemma_find_named(available, requested[i].buffer_type);
        crate::text::law_decoding_undoes_encoding(requested[i].pattern);
    }
    assert(after.buft_overrides() =~= requested);
}

/// An empty list of requests is always accepted and clears the overrides: the
/// backend is given none.
pub proof fn law_empty_overrides_clear(
    params: ModelParams,
    available: Seq<buffer_types::BufferTypeView>,
    max: usize,
)
    ensures
        buffer_types::override_error(available, Seq::empty(), max) is None,
        !params.with_buft_overrides(available, Seq::empty()).buft_overrides_set,
        params.with_buft_overrides(available, Seq::empty()).buft_overrides().len() == 0,
{
}

/// Under codes that tell the modes apart, the plain fields survive the way
/// into the C structure and back.
pub proof fn law_native_round_trip(params: ModelParams, codes: ModeCodes)
    requires
        codes.distinct(),
    ensures
        ModelParams::from_native(params.native(codes), codes) == (ModelParams {
            kv_slots: kv_overrides::no_overrides(),
            kv_overrides_set: false,
            tensor_split: Seq::empty(),
            tensor_split_set: false,
            buft_patterns: Seq::empty(),
            buft_entries: Seq::empty(),
            buft_overrides_set: false,
            ..params
        }),
{
    modes::law_load_mode_codes_round_trip(codes.load, params.load_mode);
    modes::law_lazy_mode_codes_round_trip(codes.lazy, params.lazy_mode);
    modes::law_split_mode_codes_round_trip(codes.split, params.split_mode);
}

/// Plain fields that are read from the C structure and written back are
/// unchanged but for a code that stands for no mode: that becomes the code of
/// the fallback.
pub proof fn law_native_fields_survive(native: NativeModelParams, codes: ModeCodes)
    ensures
        ModelParams::from_native(native, codes).native(codes) == (NativeModelParams {
            load_mode: if codes.load.known(native.load_mode) {
                native.load_mode
            } else {
                codes.load.code(LlamaLoadMode::Plain)
            },
            lazy_mode: if codes.lazy.known(native.lazy_mode) {
                native.lazy_mode
            } else {
                codes.lazy.code(LlamaLazyMode::Auto)
            },
            split_mode: if codes.split.known(native.split_mode) {
                native.split_mode
            } else {
                codes.split.code(LlamaSplitMode::Layer)
            },
            ..native
        }),
{
    modes::law_load_code_survives(codes.load, native.load_mode);
    modes::law_lazy_code_survives(codes.lazy, native.lazy_mode);
    modes::law_split_code_survives(codes.split, native.split_mode);
}

/// Which strategies map the file and which lock it: `Auto` maps, `Mmap` maps,
/// `Mlock` locks, `MmapMlock` does both, and the others neither.
pub proof fn law_mapping_and_locking(params: ModelParams)
    ensures
        params.load_mode == LlamaLoadMode::Auto ==> params.use_mmap() && !params.use_mlock(),
        params.load_mode == LlamaLoadMode::Plain ==> !params.use_mmap() && !params.use_mlock(),
        params.load_mode == LlamaLoadMode::Mmap ==> params.use_mmap() && !params.use_mlock(),
        params.load_mode == LlamaLoadMode::Mlock ==> !params.use_mmap() && params.use_mlock(),
        params.load_mode == LlamaLoadMode::MmapMlock ==> params.use_mmap() && params.use_mlock(),
        params.load_mode == LlamaLoadMode::DirectIo ==> !params.use_mmap() && !params.use_mlock(),
{
}

/// Switching locking picks one of the four strategies that name mapping and
/// locking outright: never `Auto`, and never direct I/O.
pub proof fn law_use_mlock_picks_a_strategy(params: ModelParams, use_mlock: bool)
    ensures
        ({
            let picked = params.with_use_mlock(use_mlock).load_mode;
            let mapped = params.load_mode == LlamaLoadMode::Auto || params.load_mode
                == LlamaLoadMode::Mmap || params.load_mode == LlamaLoadMode::MmapMlock;
            &&& picked == LlamaLoadMode::MmapMlock <==> mapped && use_mlock
            &&& picked == LlamaLoadMode::Mmap <==> mapped && !use_mlock
            &&& picked == LlamaLoadMode::Mlock <==> !mapped && use_mlock
            &&& picked == LlamaLoadMode::Plain <==> !mapped && !use_mlock
        }),
{
}

/// Setting proportions hands them to the backend, device by device, and
/// changes nothing else.
pub proof fn law_tensor_split_is_handed_over(
    params: ModelParams,
    split: Seq<F32Bits>,
    max_devices: usize,
    i: int,
)
    ensures
        ({
            let after = params.with_tensor_split(split, max_devices);
            &&& after.tensor_split_set
            &&& after.tensor_split.len() == max_devices
            &&& 0 <= i < max_devices && i < split.len() ==> after.tensor_split[i] == split[i]
            &&& 0 <= i < max_devices && i >= split.len() ==> after.tensor_split[i] == F32Bits(0)
            &&& after == (ModelParams {
                tensor_split: after.tensor_split,
                tensor_split_set: after.tensor_split_set,
                ..params
            })
        }),
{
}

/// What appending an override writes: the first empty slot takes the value
/// itself and the key's bytes, every other slot keeps what it held, an all-zero
/// slot is added at the end, the backend is given the slots, and nothing else
/// changes.
pub proof fn law_kv_override_is_written(
    params: ModelParams,
    key: Seq<u8>,
    value: ParamOverrideValue,
)
    requires
        params.wf(),
        kv_overrides::valid_key(key),
    ensures
        ({
            let n = params.kv_overrides().len() as int;
            let after = params.with_kv_override(key, value);
            &&& 0 <= n < params.kv_slots.len()
            &&& forall|i: int| 0 <= i < n ==> (#[trigger] params.kv_slots[i]).key[0] != 0
            &&& params.kv_slots[n].key[0] == 0
            &&& after.kv_slots.len() == params.kv_slots.len() + 1
            &&& after.kv_slots[n].value == value
            &&& after.kv_slots[n].key.len() == 128
            &&& after.kv_slots[n].key.take(key.len() as int) == key
            &&& forall|i: int| key.len() <= i < 128 ==> #[trigger] after.kv_slots[n].key[i] == 0
            &&& forall|i: int|
                0 <= i < params.kv_slots.len() && i != n ==> #[trigger] after.kv_slots[i]
                    == params.kv_slots[i]
            &&& forall|i: int|
                0 <= i < 128 ==> #[trigger] after.kv_slots[params.kv_slots.len() as int].key[i]
                    == 0
            &&& after.kv_slots[params.kv_slots.len() as int].value == ParamOverrideValue::Int(0)
            &&& after.kv_overrides_set
            &&& after == (ModelParams {
                kv_slots: after.kv_slots,
                kv_overrides_set: after.kv_overrides_set,
                ..params
            })
        }),
{
    let n = params.kv_overrides().len() as int;
    let after = params.with_kv_override(key, value);
    kv_overrides::law_terminated_arrays_end(params.kv_slots, 0);
    kv_overrides::law_reader_stops_where_the_slots_end(params.kv_slots);
    kv_overrides::law_append_writes_the_slot(params.kv_slots, key, value, n);
    assert(after.kv_slots[n].key.take(key.len() as int) =~= key);
}

/// A listing gives, for each slot before the first empty one, the value that
/// lies in that slot and the key's bytes up to the first zero.
pub proof fn law_kv_overrides_are_the_slots(params: ModelParams, n: int, i: int)
    requires
        params.wf(),
        0 <= n < params.kv_slots.len(),
        forall|k: int| 0 <= k < n ==> (#[trigger] params.kv_slots[k]).key[0] != 0,
        params.kv_slots[n].key[0] == 0,
    ensures
        params.kv_overrides().len() == n,
        0 <= i < n ==> {
            let listed = params.kv_overrides()[i];
            &&& listed.value == params.kv_slots[i].value
            &&& 0 < listed.key.len() < 128
            &&& listed.key == params.kv_slots[i].key.take(listed.key.len() as int)
            &&& !listed.key.contains(0u8)
            &&& params.kv_slots[i].key[listed.key.len() as int] == 0
        },
{
    kv_overrides::law_terminated_arrays_end(params.kv_slots, n);
    if n == 0 {
        kv_overrides::law_reader_stops_at_an_empty_slot(params.kv_slots);
    } else {
        let k = if 0 <= i < n {
            i
        } else {
            0
        };
        kv_overrides::law_terminated_arrays_end(params.kv_slots, k);
        kv_overrides::law_reader_sees_the_slots(params.kv_slots, n, k);
        if params.kv_overrides()[k].key.len() == 128 {
            assert(params.kv_slots[k].key[127] == 0);
        }
        if params.kv_overrides()[k].key.contains(0u8) {
            let j = params.kv_overrides()[k].key.index_of(0u8);
            assert(params.kv_slots[k].key[j] != 0);
        }
    }
}

/// What accepted tensor overrides hand to the backend: for each request its
/// pattern's bytes and the first exposed buffer type of its name, in order, and
/// an element behind them that holds nothing. The backend is given the array
/// exactly when there is a request, and nothing else changes.
pub proof fn law_buft_overrides_are_handed_over(
    params: ModelParams,
    available: Seq<buffer_types::BufferTypeView>,
    requested: Seq<buffer_types::OverrideRequest>,
    max: usize,
    i: int,
    j: int,
)
    requires
        buffer_types::override_error(available, requested, max) is None,
        0 <= i < requested.len() ==> {
            &&& 0 <= j < available.len()
            &&& available[j].name == requested[i].buffer_type
            &&& forall|k: int|
                0 <= k < j ==> (#[trigger] available[k]).name != requested[i].buffer_type
        },
    ensures
        ({
            let after = params.with_buft_overrides(available, requested);
            let n = requested.len() as int;
            &&& after.buft_overrides_set <==> n > 0
            &&& after.buft_patterns.len() == n
            &&& after.buft_entries.len() == n + 1
            &&& after.buft_entries[n].pattern is None
            &&& after.buft_entries[n].buft is None
            &&& 0 <= i < n ==> {
                &&& after.buft_patterns[i] == vstd::utf8::encode_utf8(requested[i].pattern)
                &&& after.buft_entries[i].pattern == Some(i)
                &&& after.buft_entries[i].buft == Some(available[j])
            }
            &&& after == (ModelParams {
                buft_overrides_set: after.buft_overrides_set,
                buft_patterns: after.buft_patterns,
                buft_entries: after.buft_entries,
                ..params
            })
        }),
{
    if 0 <= i < requested.len() {
        buffer_types::law_override_array(available, requested, i, j);
    }
}

/// The overrides that are read back are the stored patterns, decoded, with the
/// names of the buffer types in the array.
pub proof fn law_buft_overrides_are_the_array(params: ModelParams, i: int)
    requires
        params.wf(),
    ensures
        params.buft_overrides().len() == params.buft_patterns.len(),
        0 <= i < params.buft_patterns.len() ==> {
            &&& params.buft_overrides()[i].pattern == crate::text::decoded(params.buft_patterns[i])
            &&& params.buft_entries[i].buft is Some
            &&& params.buft_overrides()[i].buffer_type == params.buft_entries[i].buft->0.name
        },
{
    if 0 <= i < params.buft_patterns.len() {
        assert(params.buft_entries[i].buft is Some);
    }
}

/// Reading the C structure takes each plain field from the field of its name,
/// each mode from its code, and leaves every array empty.
pub proof fn law_from_native_field_by_field(native: NativeModelParams, codes: ModeCodes)
    ensures
        ({
            let params = ModelParams::from_native(native, codes);
            &&& params.n_gpu_layers == native.n_gpu_layers
            &&& params.main_gpu == native.main_gpu
            &&& params.vocab_only == native.vocab_only
            &&& params.load_mtp == native.load_mtp
            &&& params.load_mode == codes.load.mode(native.load_mode)
            &&& params.lazy_mode == codes.lazy.mode(native.lazy_mode)
            &&& params.split_mode == codes.split.mode(native.split_mode)
            &&& params.kv_slots.len() == 1
            &&& params.kv_slots[0].key[0] == 0
            &&& params.kv_overrides().len() == 0
            &&& !params.kv_overrides_set
            &&& params.tensor_split.len() == 0
            &&& !params.tensor_split_set
            &&& params.buft_patterns.len() == 0
            &&& params.buft_entries.len() == 0
            &&& params.buft_overrides().len() == 0
            &&& !params.buft_overrides_set
            &&& params.wf()
        }),
{
    kv_overrides::law_no_overrides();
}

/// Writing the C structure puts each plain parameter into the field of its
/// name, and each mode's code into the field of its kind.
pub proof fn law_to_native_field_by_field(params: ModelParams, codes: ModeCodes)
    ensures
        params.native(codes).n_gpu_layers == params.n_gpu_layers,
        params.native(codes).main_gpu == params.main_gpu,
        params.native(codes).vocab_only == params.vocab_only,
        params.native(codes).load_mtp == params.load_mtp,
        params.native(codes).load_mode == codes.load.code(params.load_mode),
        params.native(codes).lazy_mode == codes.lazy.code(params.lazy_mode),
        params.native(codes).split_mode == codes.split.code(params.split_mode),
{
}

/// What well-formed parameters are: the slots can be read to their end, an
/// array that the backend is not given is empty, and the tensor override array
/// has one element per pattern and one that ends it.
pub proof fn law_well_formed(params: ModelParams)
    ensures
        params.wf() ==> {
            &&& params.kv_overrides().len() < params.kv_slots.len()
            &&& params.kv_overrides().len() > 0 ==> params.kv_overrides_set
            &&& params.tensor_split.len() > 0 ==> params.tensor_split_set
            &&& params.buft_patterns.len() > 0 <==> params.buft_overrides_set
            &&& params.buft_overrides_set ==> params.buft_entries.len()
                == params.buft_patterns.len() + 1
        },
{
    if params.wf() {
        kv_overrides::law_terminated_arrays_end(params.kv_slots, 0);
    }
}

} // verus!
