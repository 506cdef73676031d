//! How a model file is loaded, read on demand and split across GPUs.

use crate::text::same_text;
use vstd::prelude::*;

verus! {

/// Exact model-file loading strategy exposed by llama.cpp.
#[derive(Debug, Clone, Copy, PartialEq, Eq, Structural)]
pub enum LlamaLoadMode {
    /// Pick the strategy from the backend devices' capabilities: memory-map
    /// when every device supports it, otherwise fall back to a plain read.
    /// This is llama.cpp's default.
    Auto,
    /// No memory mapping, locking, or direct I/O.
    Plain,
    /// Memory-map model files when supported.
    Mmap,
    /// Read model files normally and lock loaded pages in memory.
    Mlock,
    /// Memory-map model files and lock mapped pages in memory.
    MmapMlock,
    /// Use direct I/O when supported.
    DirectIo,
}

/// The integers that the C header gives to the loading strategies.
#[derive(Debug, Clone, Copy, PartialEq, Eq, Structural)]
pub struct LoadModeCodes {
    /// `LLAMA_LOAD_MODE_AUTO`
    pub auto_mode: i32,
    /// `LLAMA_LOAD_MODE_NONE`
    pub none: i32,
    /// `LLAMA_LOAD_MODE_MMAP`
    pub mmap: i32,
    /// `LLAMA_LOAD_MODE_MLOCK`
    pub mlock: i32,
    /// `LLAMA_LOAD_MODE_MMAP_MLOCK`
    pub mmap_mlock: i32,
    /// `LLAMA_LOAD_MODE_DIRECT_IO`
    pub direct_io: i32,
}

impl LoadModeCodes {
    /// The code of `mode`.
    pub open spec fn code(self, mode: LlamaLoadMode) -> i32 {
        match mode {
            LlamaLoadMode::Auto => self.auto_mode,
            LlamaLoadMode::Plain => self.none,
            LlamaLoadMode::Mmap => self.mmap,
            LlamaLoadMode::Mlock => self.mlock,
            LlamaLoadMode::MmapMlock => self.mmap_mlock,
            LlamaLoadMode::DirectIo => self.direct_io,
        }
    }

    /// `code` is the code of some mode.
    pub open spec fn known(self, code: i32) -> bool {
        exists|mode: LlamaLoadMode| #[trigger] self.code(mode) == code
    }

    /// Different strategies have different codes, as the members of a C
    /// enumeration of this kind do.
    pub open spec fn distinct(self) -> bool {
        forall|a: LlamaLoadMode, b: LlamaLoadMode|
            #![trigger self.code(a), self.code(b)]
            a != b ==> self.code(a) != self.code(b)
    }

    /// The strategy that `code` stands for; a code of no strategy reads as
    /// [`LlamaLoadMode::Plain`].
    pub open spec fn mode(self, code: i32) -> LlamaLoadMode {
        if code == self.auto_mode {
            LlamaLoadMode::Auto
        } else if code == self.mmap {
            LlamaLoadMode::Mmap
        } else if code == self.mlock {
            LlamaLoadMode::Mlock
        } else if code == self.mmap_mlock {
            LlamaLoadMode::MmapMlock
        } else if code == self.direct_io {
            LlamaLoadMode::DirectIo
        } else {
            LlamaLoadMode::Plain
        }
    }
}

impl LlamaLoadMode {
    /// The characters of the mode's name.
    pub open spec fn spec_name(self) -> Seq<char> {
        match self {
            LlamaLoadMode::Auto => "auto"@,
            LlamaLoadMode::Plain => "none"@,
            LlamaLoadMode::Mmap => "mmap"@,
            LlamaLoadMode::Mlock => "mlock"@,
            LlamaLoadMode::MmapMlock => "mmap+mlock"@,
            LlamaLoadMode::DirectIo => "dio"@,
        }
    }

    /// The mode that a spelling names, if any.
    pub open spec fn spec_from_name(name: Seq<char>) -> Option<Self> {
        if exists|m: LlamaLoadMode| #[trigger] m.spec_name() == name {
            Some(choose|m: LlamaLoadMode| #[trigger] m.spec_name() == name)
        } else {
            None
        }
    }

    /// llama.cpp's own name for this mode: `"auto"`, `"none"`, `"mmap"`,
    /// `"mlock"`, `"mmap+mlock"` or `"dio"`.
    #[must_use]
    pub fn name(self) -> (name: &'static str)
        ensures
            name@ == self.spec_name(),
    {
        match self {
            LlamaLoadMode::Auto => "auto",
            LlamaLoadMode::Plain => "none",
            LlamaLoadMode::Mmap => "mmap",
            LlamaLoadMode::Mlock => "mlock",
            LlamaLoadMode::MmapMlock => "mmap+mlock",
            LlamaLoadMode::DirectIo => "dio",
        }
    }

    /// Parse a mode from llama.cpp's own spelling, the inverse of
    /// [`Self::name`]. Returns `None` if `name` matches no mode.
    #[must_use]
    pub fn from_name(name: &str) -> (mode: Option<Self>)
        ensures
            mode == Self::spec_from_name(name@),
            mode matches Some(m) ==> m.spec_name() == name@,
            mode is None ==> forall|m: LlamaLoadMode| #[trigger] m.spec_name() != name@,
    {
        proof {
            lemma_names_differ();
        }
        let modes = [
            LlamaLoadMode::Auto,
            LlamaLoadMode::Plain,
            LlamaLoadMode::Mmap,
            LlamaLoadMode::Mlock,
            LlamaLoadMode::MmapMlock,
            LlamaLoadMode::DirectIo,
        ];
        let mut i: usize = 0;
        while i < 6
            invariant
                i <= 6,
                modes@ == all_load_modes(),
                forall|j: int| 0 <= j < i ==> (#[trigger] modes@[j]).spec_name() != name@,
                forall|a: LlamaLoadMode, b: LlamaLoadMode|
                    #![trigger a.spec_name(), b.spec_name()]
                    a.spec_name() == b.spec_name() ==> a == b,
            decreases 6 - i,
        {
            let mode = modes[i];
            if same_text(mode.name(), name) {
                assert(mode.spec_name() == name@);
                return Some(mode);
            }
            i += 1;
        }
        assert forall|m: LlamaLoadMode| #[trigger] m.spec_name() != name@ by {
            lemma_all_load_modes(m);
        }
        None
    }

    /// The C header's code for this mode.
    #[must_use]
    pub fn to_code(self, codes: &LoadModeCodes) -> (code: i32)
        ensures
            code == codes.code(self),
    {
        match self {
            LlamaLoadMode::Auto => codes.auto_mode,
            LlamaLoadMode::Plain => codes.none,
            LlamaLoadMode::Mmap => codes.mmap,
            LlamaLoadMode::Mlock => codes.mlock,
            LlamaLoadMode::MmapMlock => codes.mmap_mlock,
            LlamaLoadMode::DirectIo => codes.direct_io,
        }
    }

    /// The mode that a code of the C header stands for; a code of no mode
    /// reads as [`LlamaLoadMode::Plain`].
    #[must_use]
    pub fn from_code(code: i32, codes: &LoadModeCodes) -> (mode: Self)
        ensures
            mode == codes.mode(code),
    {
        if code == codes.auto_mode {
            LlamaLoadMode::Auto
        } else if code == codes.mmap {
            LlamaLoadMode::Mmap
        } else if code == codes.mlock {
            LlamaLoadMode::Mlock
        } else if code == codes.mmap_mlock {
            LlamaLoadMode::MmapMlock
        } else if code == codes.direct_io {
            LlamaLoadMode::DirectIo
        } else {
            LlamaLoadMode::Plain
        }
    }
}

/// Every loading strategy, in the order in which names are tried.
spec fn all_load_modes() -> Seq<LlamaLoadMode> {
    seq![
        LlamaLoadMode::Auto,
        LlamaLoadMode::Plain,
        LlamaLoadMode::Mmap,
        LlamaLoadMode::Mlock,
        LlamaLoadMode::MmapMlock,
        LlamaLoadMode::DirectIo,
    ]
}

proof fn lemma_all_load_modes(m: LlamaLoadMode)
    ensures
        exists|i: int| 0 <= i < 6 && #[trigger] all_load_modes()[i] == m,
{
    let s = all_load_modes();
    assert(s[0] == LlamaLoadMode::Auto);
    assert(s[1] == LlamaLoadMode::Plain);
    assert(s[2] == LlamaLoadMode::Mmap);
    assert(s[3] == LlamaLoadMode::Mlock);
    assert(s[4] == LlamaLoadMode::MmapMlock);
    assert(s[5] == LlamaLoadMode::DirectIo);
}

proof fn lemma_names_differ()
    ensures
        forall|a: LlamaLoadMode, b: LlamaLoadMode|
            #![trigger a.spec_name(), b.spec_name()]
            a.spec_name() == b.spec_name() ==> a == b,
{
    reveal_strlit("auto");
    reveal_strlit("none");
    reveal_strlit("mmap");
    reveal_strlit("mlock");
    reveal_strlit("mmap+mlock");
    reveal_strlit("dio");
    assert("auto"@[0] == 'a' && "none"@[0] == 'n' && "mmap"@[0] == 'm');
    assert("mmap"@.len() == 4 && "mlock"@.len() == 5 && "mmap+mlock"@.len() == 10);
}

/// Parsing a mode's name gives the mode back.
pub proof fn law_from_name_undoes_name(mode: LlamaLoadMode)
    ensures
        LlamaLoadMode::spec_from_name(mode.spec_name()) == Some(mode),
{
    lemma_names_differ();
}

/// A spelling parses to a mode exactly when it is that mode's name.
pub proof fn law_name_undoes_from_name(name: Seq<char>, mode: LlamaLoadMode)
    ensures
        LlamaLoadMode::spec_from_name(name) == Some(mode) <==> mode.spec_name() == name,
{
    lemma_names_differ();
}

/// Under codes that tell the modes apart, decoding undoes encoding.
pub proof fn law_load_mode_codes_round_trip(codes: LoadModeCodes, mode: LlamaLoadMode)
    requires
        codes.distinct(),
    ensures
        codes.mode(codes.code(mode)) == mode,
{
    assert(codes.code(LlamaLoadMode::Auto) == codes.auto_mode);
    assert(codes.code(LlamaLoadMode::Mmap) == codes.mmap);
    assert(codes.code(LlamaLoadMode::Mlock) == codes.mlock);
    assert(codes.code(LlamaLoadMode::MmapMlock) == codes.mmap_mlock);
    assert(codes.code(LlamaLoadMode::DirectIo) == codes.direct_io);
    assert(codes.code(LlamaLoadMode::Plain) == codes.none);
}

/// A code that stands for a mode survives decoding and encoding; any other
/// becomes the code of [`LlamaLoadMode::Plain`].
pub proof fn law_load_code_survives(codes: LoadModeCodes, code: i32)
    ensures
        codes.known(code) ==> codes.code(codes.mode(code)) == code,
        !codes.known(code) ==> codes.mode(code) == LlamaLoadMode::Plain,
{
    assert(codes.code(codes.mode(code)) == code || codes.mode(code) == LlamaLoadMode::Plain);
    if !codes.known(code) {
        assert(codes.code(LlamaLoadMode::Auto) != code);
        assert(codes.code(LlamaLoadMode::Mmap) != code);
        assert(codes.code(LlamaLoadMode::Mlock) != code);
        assert(codes.code(LlamaLoadMode::MmapMlock) != code);
        assert(codes.code(LlamaLoadMode::DirectIo) != code);
    }
}

/// Whether tensors the architecture marks as lazy are read on demand rather
/// than up front.
///
/// Only tensors the model architecture flags carry this at all, so on every
/// other architecture the setting has no effect. Lazy reading always needs
/// mmap; without it llama.cpp warns and loads the tensor in full regardless.
#[derive(Debug, Clone, Copy, PartialEq, Eq, Structural)]
pub enum LlamaLazyMode {
    /// Never read lazily: always pull the whole tensor up front.
    Off,
    /// Read lazily only for marked tensors larger than 4 GiB. llama.cpp's
    /// default, and downgraded to [`LlamaLazyMode::Off`] at load time if any
    /// backend device lacks mmap support (iGPUs, for instance).
    Auto,
    /// Read every marked tensor's rows on demand, whatever its size. Trades
    /// I/O for resident memory.
    On,
}

/// The integers that the C header gives to the lazy modes.
#[derive(Debug, Clone, Copy, PartialEq, Eq, Structural)]
pub struct LazyModeCodes {
    /// `LLAMA_LAZY_MODE_OFF`
    pub off: u32,
    /// `LLAMA_LAZY_MODE_AUTO`
    pub auto_mode: u32,
    /// `LLAMA_LAZY_MODE_ON`
    pub on: u32,
}

impl LazyModeCodes {
    /// The code of `mode`.
    pub open spec fn code(self, mode: LlamaLazyMode) -> u32 {
        match mode {
            LlamaLazyMode::Off => self.off,
            LlamaLazyMode::Auto => self.auto_mode,
            LlamaLazyMode::On => self.on,
        }
    }

    /// `code` is the code of some mode.
    pub open spec fn known(self, code: u32) -> bool {
        exists|mode: LlamaLazyMode| #[trigger] self.code(mode) == code
    }

    /// Different modes have different codes.
    pub open spec fn distinct(self) -> bool {
        self.off != self.auto_mode && self.off != self.on && self.auto_mode != self.on
    }

    /// The mode that `code` stands for; a code of no mode reads as
    /// [`LlamaLazyMode::Auto`].
    pub open spec fn mode(self, code: u32) -> LlamaLazyMode {
        if code == self.off {
            LlamaLazyMode::Off
        } else if code == self.on {
            LlamaLazyMode::On
        } else {
            LlamaLazyMode::Auto
        }
    }
}

impl LlamaLazyMode {
    /// The C header's code for this mode.
    #[must_use]
    pub fn to_code(self, codes: &LazyModeCodes) -> (code: u32)
        ensures
            code == codes.code(self),
    {
        match self {
            LlamaLazyMode::Off => codes.off,
            LlamaLazyMode::Auto => codes.auto_mode,
            LlamaLazyMode::On => codes.on,
        }
    }

    /// The mode that a code of the C header stands for; a code of no mode
    /// reads as [`LlamaLazyMode::Auto`].
    #[must_use]
    pub fn from_code(code: u32, codes: &LazyModeCodes) -> (mode: Self)
        ensures
            mode == codes.mode(code),
    {
        if code == codes.off {
            LlamaLazyMode::Off
        } else if code == codes.on {
            LlamaLazyMode::On
        } else {
            LlamaLazyMode::Auto
        }
    }
}

/// Under codes that tell the modes apart, decoding undoes encoding.
pub proof fn law_lazy_mode_codes_round_trip(codes: LazyModeCodes, mode: LlamaLazyMode)
    requires
        codes.distinct(),
    ensures
        codes.mode(codes.code(mode)) == mode,
{
}

/// A code that stands for a mode survives decoding and encoding; any other
/// becomes the code of [`LlamaLazyMode::Auto`].
pub proof fn law_lazy_code_survives(codes: LazyModeCodes, code: u32)
    ensures
        codes.known(code) ==> codes.code(codes.mode(code)) == code,
        !codes.known(code) ==> codes.mode(code) == LlamaLazyMode::Auto,
{
    assert(codes.code(codes.mode(code)) == code || codes.mode(code) == LlamaLazyMode::Auto);
    if !codes.known(code) {
        assert(codes.code(LlamaLazyMode::Off) != code);
        assert(codes.code(LlamaLazyMode::On) != code);
    }
}

/// How model weights and the KV cache are distributed across multiple GPUs.
#[derive(Debug, Clone, Copy, PartialEq, Eq, Structural)]
pub enum LlamaSplitMode {
    /// Single GPU.
    Single,
    /// Split layers and the KV cache across GPUs. llama.cpp's default.
    Layer,
    /// Split layers and the KV cache across GPUs, using row-wise tensor
    /// parallelism for the weights where the backend supports it.
    Row,
    /// Experimental tensor parallelism across GPUs.
    Tensor,
}

/// The integers that the C header gives to the split modes.
#[derive(Debug, Clone, Copy, PartialEq, Eq, Structural)]
pub struct SplitModeCodes {
    /// `LLAMA_SPLIT_MODE_NONE`
    pub single: u32,
    /// `LLAMA_SPLIT_MODE_LAYER`
    pub layer: u32,
    /// `LLAMA_SPLIT_MODE_ROW`
    pub row: u32,
    /// `LLAMA_SPLIT_MODE_TENSOR`
    pub tensor: u32,
}

impl SplitModeCodes {
    /// The code of `mode`.
    pub open spec fn code(self, mode: LlamaSplitMode) -> u32 {
        match mode {
            LlamaSplitMode::Single => self.single,
            LlamaSplitMode::Layer => self.layer,
            LlamaSplitMode::Row => self.row,
            LlamaSplitMode::Tensor => self.tensor,
        }
    }

    /// `code` is the code of some mode.
    pub open spec fn known(self, code: u32) -> bool {
        exists|mode: LlamaSplitMode| #[trigger] self.code(mode) == code
    }

    /// Different modes have different codes.
    pub open spec fn distinct(self) -> bool {
        &&& self.single != self.layer && self.single != self.row && self.single != self.tensor
        &&& self.layer != self.row && self.layer != self.tensor
        &&& self.row != self.tensor
    }

    /// The mode that `code` stands for; a code of no mode reads as
    /// [`LlamaSplitMode::Layer`].
    pub open spec fn mode(self, code: u32) -> LlamaSplitMode {
        if code == self.single {
            LlamaSplitMode::Single
        } else if code == self.row {
            LlamaSplitMode::Row
        } else if code == self.tensor {
            LlamaSplitMode::Tensor
        } else {
            LlamaSplitMode::Layer
        }
    }
}

impl LlamaSplitMode {
    /// The C header's code for this mode.
    #[must_use]
    pub fn to_code(self, codes: &SplitModeCodes) -> (code: u32)
        ensures
            code == codes.code(self),
    {
        match self {
            LlamaSplitMode::Single => codes.single,
            LlamaSplitMode::Layer => codes.layer,
            LlamaSplitMode::Row => codes.row,
            LlamaSplitMode::Tensor => codes.tensor,
        }
    }

    /// The mode that a code of the C header stands for; a code of no mode
    /// reads as [`LlamaSplitMode::Layer`].
    #[must_use]
    pub fn from_code(code: u32, codes: &SplitModeCodes) -> (mode: Self)
        ensures
            mode == codes.mode(code),
    {
        if code == codes.single {
            LlamaSplitMode::Single
        } else if code == codes.row {
            LlamaSplitMode::Row
        } else if code == codes.tensor {
            LlamaSplitMode::Tensor
        } else {
            LlamaSplitMode::Layer
        }
    }
}

/// Under codes that tell the modes apart, decoding undoes encoding.
pub proof fn law_split_mode_codes_round_trip(codes: SplitModeCodes, mode: LlamaSplitMode)
    requires
        codes.distinct(),
    ensures
        codes.mode(codes.code(mode)) == mode,
{
}

/// A code that stands for a mode survives decoding and encoding; any other
/// becomes the code of [`LlamaSplitMode::Layer`].
pub proof fn law_split_code_survives(codes: SplitModeCodes, code: u32)
    ensures
        codes.known(code) ==> codes.code(codes.mode(code)) == code,
        !codes.known(code) ==> codes.mode(code) == LlamaSplitMode::Layer,
{
    assert(codes.code(codes.mode(code)) == code || codes.mode(code) == LlamaSplitMode::Layer);
    if !codes.known(code) {
        assert(codes.code(LlamaSplitMode::Single) != code);
        assert(codes.code(LlamaSplitMode::Row) != code);
        assert(codes.code(LlamaSplitMode::Tensor) != code);
    }
}

/// The spelling of every mode's name, letter by letter.
pub proof fn law_names_are_spelled()
    ensures
        LlamaLoadMode::Auto.spec_name() == seq!['a', 'u', 't', 'o'],
        LlamaLoadMode::Plain.spec_name() == seq!['n', 'o', 'n', 'e'],
        LlamaLoadMode::Mmap.spec_name() == seq!['m', 'm', 'a', 'p'],
        LlamaLoadMode::Mlock.spec_name() == seq!['m', 'l', 'o', 'c', 'k'],
        LlamaLoadMode::MmapMlock.spec_name() == seq![
            'm', 'm', 'a', 'p', '+', 'm', 'l', 'o', 'c', 'k'
        ],
        LlamaLoadMode::DirectIo.spec_name() == seq!['d', 'i', 'o'],
{
    reveal_strlit("auto");
    reveal_strlit("none");
    reveal_strlit("mmap");
    reveal_strlit("mlock");
    reveal_strlit("mmap+mlock");
    reveal_strlit("dio");
    assert("auto"@ =~= seq!['a', 'u', 't', 'o']);
    assert("none"@ =~= seq!['n', 'o', 'n', 'e']);
    assert("mmap"@ =~= seq!['m', 'm', 'a', 'p']);
    assert("mlock"@ =~= seq!['m', 'l', 'o', 'c', 'k']);
    assert("mmap+mlock"@ =~= seq!['m', 'm', 'a', 'p', '+', 'm', 'l', 'o', 'c', 'k']);
    assert("dio"@ =~= seq!['d', 'i', 'o']);
}

/// A spelling is refused exactly when it is no mode's name.
pub proof fn law_other_spellings_are_refused(name: Seq<char>)
    ensures
        LlamaLoadMode::spec_from_name(name) is None <==> forall|mode: LlamaLoadMode|
            #[trigger] mode.spec_name() != name,
{
}

/// Each mode has the code that the header gives it, each such code reads as
/// its mode, and a code of none reads as [`LlamaLoadMode::Plain`].
pub proof fn law_load_codes_are_the_headers(codes: LoadModeCodes, code: i32)
    ensures
        codes.code(LlamaLoadMode::Auto) == codes.auto_mode,
        codes.code(LlamaLoadMode::Plain) == codes.none,
        codes.code(LlamaLoadMode::Mmap) == codes.mmap,
        codes.code(LlamaLoadMode::Mlock) == codes.mlock,
        codes.code(LlamaLoadMode::MmapMlock) == codes.mmap_mlock,
        codes.code(LlamaLoadMode::DirectIo) == codes.direct_io,
        codes.distinct() ==> codes.mode(codes.auto_mode) == LlamaLoadMode::Auto,
        codes.distinct() ==> codes.mode(codes.none) == LlamaLoadMode::Plain,
        codes.distinct() ==> codes.mode(codes.mmap) == LlamaLoadMode::Mmap,
        codes.distinct() ==> codes.mode(codes.mlock) == LlamaLoadMode::Mlock,
        codes.distinct() ==> codes.mode(codes.mmap_mlock) == LlamaLoadMode::MmapMlock,
        codes.distinct() ==> codes.mode(codes.direct_io) == LlamaLoadMode::DirectIo,
        code != codes.auto_mode && code != codes.none && code != codes.mmap && code != codes.mlock
            && code != codes.mmap_mlock && code != codes.direct_io
            ==> codes.mode(code) == LlamaLoadMode::Plain,
        codes.known(code) <==> code == codes.auto_mode || code == codes.none || code == codes.mmap
            || code == codes.mlock || code == codes.mmap_mlock || code == codes.direct_io,
        codes.distinct() <==> codes.auto_mode != codes.none && codes.auto_mode != codes.mmap
            && codes.auto_mode != codes.mlock && codes.auto_mode != codes.mmap_mlock
            && codes.auto_mode != codes.direct_io && codes.none != codes.mmap
            && codes.none != codes.mlock && codes.none != codes.mmap_mlock
            && codes.none != codes.direct_io && codes.mmap != codes.mlock
            && codes.mmap != codes.mmap_mlock && codes.mmap != codes.direct_io
            && codes.mlock != codes.mmap_mlock && codes.mlock != codes.direct_io
            && codes.mmap_mlock != codes.direct_io,
{
    assert(codes.code(LlamaLoadMode::Auto) == codes.auto_mode);
    assert(codes.code(LlamaLoadMode::Plain) == codes.none);
    assert(codes.code(LlamaLoadMode::Mmap) == codes.mmap);
    assert(codes.code(LlamaLoadMode::Mlock) == codes.mlock);
    assert(codes.code(LlamaLoadMode::MmapMlock) == codes.mmap_mlock);
    assert(codes.code(LlamaLoadMode::DirectIo) == codes.direct_io);
}

/// Each mode has the code that the header gives it, each such code reads as
/// its mode, and a code of none reads as [`LlamaLazyMode::Auto`].
pub proof fn law_lazy_codes_are_the_headers(codes: LazyModeCodes, code: u32)
    ensures
        codes.code(LlamaLazyMode::Off) == codes.off,
        codes.code(LlamaLazyMode::Auto) == codes.auto_mode,
        codes.code(LlamaLazyMode::On) == codes.on,
        codes.distinct() ==> codes.mode(codes.off) == LlamaLazyMode::Off,
        codes.distinct() ==> codes.mode(codes.auto_mode) == LlamaLazyMode::Auto,
        codes.distinct() ==> codes.mode(codes.on) == LlamaLazyMode::On,
        code != codes.off && code != codes.auto_mode && code != codes.on
            ==> codes.mode(code) == LlamaLazyMode::Auto,
        codes.known(code) <==> code == codes.off || code == codes.auto_mode || code == codes.on,
        codes.distinct() <==> codes.off != codes.auto_mode && codes.off != codes.on
            && codes.auto_mode != codes.on,
{
    assert(codes.code(LlamaLazyMode::Off) == codes.off);
    assert(codes.code(LlamaLazyMode::Auto) == codes.auto_mode);
    assert(codes.code(LlamaLazyMode::On) == codes.on);
}

/// Each mode has the code that the header gives it, each such code reads as
/// its mode, and a code of none reads as [`LlamaSplitMode::Layer`].
pub proof fn law_split_codes_are_the_headers(codes: SplitModeCodes, code: u32)
    ensures
        codes.code(LlamaSplitMode::Single) == codes.single,
        codes.code(LlamaSplitMode::Layer) == codes.layer,
        codes.code(LlamaSplitMode::Row) == codes.row,
        codes.code(LlamaSplitMode::Tensor) == codes.tensor,
        codes.distinct() ==> codes.mode(codes.single) == LlamaSplitMode::Single,
        codes.distinct() ==> codes.mode(codes.layer) == LlamaSplitMode::Layer,
        codes.distinct() ==> codes.mode(codes.row) == LlamaSplitMode::Row,
        codes.distinct() ==> codes.mode(codes.tensor) == LlamaSplitMode::Tensor,
        code != codes.single && code != codes.layer && code != codes.row && code != codes.tensor
            ==> codes.mode(code) == LlamaSplitMode::Layer,
        codes.known(code) <==> code == codes.single || code == codes.layer || code == codes.row
            || code == codes.tensor,
        codes.distinct() <==> codes.single != codes.layer && codes.single != codes.row
            && codes.single != codes.tensor && codes.layer != codes.row
            && codes.layer != codes.tensor && codes.row != codes.tensor,
{
    assert(codes.code(LlamaSplitMode::Single) == codes.single);
    assert(codes.code(LlamaSplitMode::Layer) == codes.layer);
    assert(codes.code(LlamaSplitMode::Row) == codes.row);
    assert(codes.code(LlamaSplitMode::Tensor) == codes.tensor);
}

} // verus!
