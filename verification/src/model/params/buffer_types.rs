//! Backend buffer types and the tensor overrides that name them.

use crate::text::{contains_nul, copied_bytes, decode_text, same_text};
use vstd::prelude::*;

verus! {

/// A device's default buffer type, as the backend reports it.
#[derive(Debug)]
pub struct DeviceBufferType {
    /// The bytes of the C string that names it, without the terminator.
    pub name: Vec<u8>,
    /// The address by which the backend knows it.
    pub handle: usize,
}

/// A buffer type with its decoded name.
#[derive(Debug)]
pub struct BufferType {
    /// Name such as `CPU` or `CUDA0`.
    pub name: String,
    /// The address by which the backend knows it.
    pub handle: usize,
}

/// Model of a [`BufferType`].
pub struct BufferTypeView {
    /// The characters of the name.
    pub name: Seq<char>,
    /// The address.
    pub handle: usize,
}

impl View for BufferType {
    type V = BufferTypeView;

    open spec fn view(&self) -> BufferTypeView {
        BufferTypeView { name: self.name@, handle: self.handle }
    }
}

impl BufferType {
    /// A copy that is equal in name and address.
    fn duplicate(&self) -> (copy: BufferType)
        ensures
            copy@ == self@,
    {
        BufferType { name: self.name.clone(), handle: self.handle }
    }
}

/// Errors from pinning tensors to buffer types.
#[derive(Debug)]
pub enum TensorBuftOverrideError {
    /// No backend device exposes a buffer type with this name.
    UnknownBufferType {
        /// The requested buffer type name.
        name: String,
        /// The buffer type names the backend devices expose.
        available: Vec<String>,
    },
    /// A pattern contains a NUL byte.
    InvalidPattern {
        /// The rejected pattern.
        pattern: String,
    },
    /// More overrides than the backend allows.
    TooMany {
        /// Requested overrides.
        count: usize,
        /// Upstream limit.
        max: usize,
    },
}

/// Model of a [`TensorBuftOverrideError`].
pub enum OverrideErrorView {
    /// No buffer type of that name among those available.
    UnknownBufferType { name: Seq<char>, available: Seq<Seq<char>> },
    /// The pattern holds a NUL byte.
    InvalidPattern { pattern: Seq<char> },
    /// More overrides than the limit.
    TooMany { count: nat, max: nat },
}

impl View for TensorBuftOverrideError {
    type V = OverrideErrorView;

    open spec fn view(&self) -> OverrideErrorView {
        match *self {
            TensorBuftOverrideError::UnknownBufferType { name, available } => {
                OverrideErrorView::UnknownBufferType {
                    name: name@,
                    available: available@.map_values(|n: String| n@),
                }
            },
            TensorBuftOverrideError::InvalidPattern { pattern } => {
                OverrideErrorView::InvalidPattern { pattern: pattern@ }
            },
            TensorBuftOverrideError::TooMany { count, max } => {
                OverrideErrorView::TooMany { count: count as nat, max: max as nat }
            },
        }
    }
}

/// The name reported for a buffer type: nothing for NULL, the decoded C string
/// otherwise.
pub open spec fn reported_name(name: Option<Seq<u8>>) -> Seq<char> {
    match name {
        Some(bytes) => crate::text::decoded(bytes),
        None => Seq::empty(),
    }
}

/// Name of a buffer type, empty for NULL.
#[must_use]
pub fn buft_name(name: Option<&[u8]>) -> (text: String)
    ensures
        text@ == reported_name(
            match name {
                Some(bytes) => Some(bytes@),
                None => None,
            },
        ),
{
    match name {
        Some(bytes) => decode_text(bytes),
        None => String::new(),
    }
}

/// The buffer types that `devices` expose, in device order; a device without
/// one is passed over.
pub open spec fn exposed(devices: Seq<Option<DeviceBufferType>>) -> Seq<BufferTypeView>
    decreases devices.len(),
{
    if devices.len() == 0 {
        Seq::empty()
    } else {
        let before = exposed(devices.drop_last());
        match devices.last() {
            Some(device) => before.push(
                BufferTypeView {
                    name: reported_name(Some(device.name@)),
                    handle: device.handle,
                },
            ),
            None => before,
        }
    }
}

/// The models of a vector of buffer types.
pub open spec fn views(types: Seq<BufferType>) -> Seq<BufferTypeView> {
    types.map_values(|t: BufferType| t@)
}

/// Name and address of every backend device's default buffer type.
///
/// `devices` holds one entry per backend device, `None` where the device has
/// no buffer type.
#[must_use]
pub fn device_buffer_types(devices: &Vec<Option<DeviceBufferType>>) -> (types: Vec<BufferType>)
    ensures
        views(types@) == exposed(devices@),
{
    let mut types: Vec<BufferType> = Vec::new();
    let mut i: usize = 0;
    assert(views(types@) =~= exposed(devices@.take(0)));
    while i < devices.len()
        invariant
            i <= devices.len(),
            views(types@) == exposed(devices@.take(i as int)),
        decreases devices.len() - i,
    {
        let ghost before = types@;
        assert(devices@.take(i + 1).drop_last() =~= devices@.take(i as int));
        match &devices[i] {
            Some(device) => {
                let name = buft_name(Some(device.name.as_slice()));
                types.push(BufferType { name, handle: device.handle });
                assert(views(types@) =~= views(before).push(types@.last()@));
            },
            None => {},
        }
        i += 1;
    }
    assert(devices@.take(devices@.len() as int) =~= devices@);
    types
}

/// Position of the first buffer type called `name`.
pub open spec fn find_named(available: Seq<BufferTypeView>, name: Seq<char>) -> Option<int>
    decreases available.len(),
{
    if available.len() == 0 {
        None
    } else {
        match find_named(available.drop_last(), name) {
            Some(i) => Some(i),
            None => if available.last().name == name {
                Some(available.len() - 1)
            } else {
                None
            },
        }
    }
}

/// What [`find_named`] finds is in range and bears the name.
pub proof fn lemma_find_named(available: Seq<BufferTypeView>, name: Seq<char>)
    ensures
        find_named(available, name) matches Some(i) ==> 0 <= i < available.len()
            && available[i].name == name,
        find_named(available, name) matches Some(i) ==> forall|j: int|
            0 <= j < i ==> (#[trigger] available[j]).name != name,
        find_named(available, name) is None ==> forall|j: int|
            0 <= j < available.len() ==> (#[trigger] available[j]).name != name,
    decreases available.len(),
{
    if available.len() > 0 {
        let front = available.drop_last();
        lemma_find_named(front, name);
        assert forall|j: int| 0 <= j < front.len() implies front[j] == #[trigger] available[j] by {}
    }
}

fn find_buffer_type(available: &Vec<BufferType>, name: &str) -> (found: Option<usize>)
    ensures
        match found {
            Some(i) => find_named(views(available@), name@) == Some(i as int) && i < available.len(),
            None => find_named(views(available@), name@) is None,
        },
{
    let mut i: usize = 0;
    let ghost all = views(available@);
    while i < available.len()
        invariant
            i <= available.len(),
            all == views(available@),
            forall|j: int| 0 <= j < i ==> (#[trigger] all[j]).name != name@,
        decreases available.len() - i,
    {
        if same_text(available[i].name.as_str(), name) {
            proof {
                assert(all[i as int].name == name@);
                lemma_find_named(all, name@);
            }
            return Some(i);
        }
        assert(all[i as int].name != name@);
        i += 1;
    }
    proof {
        lemma_find_named(all, name@);
    }
    None
}

fn names_of(types: &Vec<BufferType>) -> (names: Vec<String>)
    ensures
        names@.map_values(|n: String| n@) == views(types@).map_values(|t: BufferTypeView| t.name),
{
    let mut names: Vec<String> = Vec::new();
    let mut i: usize = 0;
    while i < types.len()
        invariant
            i <= types.len(),
            names.len() == i,
            forall|j: int| 0 <= j < i ==> (#[trigger] names@[j])@ == types@[j].name@,
        decreases types.len() - i,
    {
        names.push(types[i].name.clone());
        i += 1;
    }
    assert(names@.map_values(|n: String| n@) =~= views(types@).map_values(
        |t: BufferTypeView| t.name,
    ));
    names
}

/// A request to pin the tensors that match a pattern to a buffer type.
pub struct OverrideRequest {
    /// The regular expression over tensor names.
    pub pattern: Seq<char>,
    /// Name of the buffer type.
    pub buffer_type: Seq<char>,
}

/// The requests that a slice of `(pattern, buffer type)` pairs makes.
pub open spec fn requests(overrides: Seq<(&str, &str)>) -> Seq<OverrideRequest> {
    overrides.map_values(
        |o: (&str, &str)| OverrideRequest { pattern: o.0@, buffer_type: o.1@ },
    )
}

/// What is wrong with one request: first an unknown buffer type, then a NUL
/// byte in the pattern.
pub open spec fn request_error(
    available: Seq<BufferTypeView>,
    request: OverrideRequest,
) -> Option<OverrideErrorView> {
    if find_named(available, request.buffer_type) is None {
        Some(
            OverrideErrorView::UnknownBufferType {
                name: request.buffer_type,
                available: available.map_values(|t: BufferTypeView| t.name),
            },
        )
    } else if vstd::utf8::encode_utf8(request.pattern).contains(0u8) {
        Some(OverrideErrorView::InvalidPattern { pattern: request.pattern })
    } else {
        None
    }
}

/// The error of the first request that has one.
pub open spec fn first_error(
    available: Seq<BufferTypeView>,
    requested: Seq<OverrideRequest>,
) -> Option<OverrideErrorView>
    decreases requested.len(),
{
    if requested.len() == 0 {
        None
    } else {
        match first_error(available, requested.drop_last()) {
            Some(error) => Some(error),
            None => request_error(available, requested.last()),
        }
    }
}

/// The error of a whole list of requests: the limit comes before any request.
pub open spec fn override_error(
    available: Seq<BufferTypeView>,
    requested: Seq<OverrideRequest>,
    max: usize,
) -> Option<OverrideErrorView> {
    if requested.len() > max {
        Some(OverrideErrorView::TooMany { count: requested.len(), max: max as nat })
    } else {
        first_error(available, requested)
    }
}

/// One element of the override array that the backend reads.
#[derive(Debug)]
pub struct TensorBuftOverride {
    /// Position of the pattern among the stored patterns; `None` in the
    /// element that ends the array.
    pub pattern: Option<usize>,
    /// The buffer type; `None` in the element that ends the array.
    pub buft: Option<BufferType>,
}

/// Model of a [`TensorBuftOverride`].
pub struct TensorBuftOverrideView {
    /// Position of the pattern.
    pub pattern: Option<int>,
    /// The buffer type.
    pub buft: Option<BufferTypeView>,
}

impl View for TensorBuftOverride {
    type V = TensorBuftOverrideView;

    open spec fn view(&self) -> TensorBuftOverrideView {
        TensorBuftOverrideView {
            pattern: match self.pattern {
                Some(i) => Some(i as int),
                None => None,
            },
            buft: match self.buft {
                Some(t) => Some(t@),
                None => None,
            },
        }
    }
}

/// The stored patterns: the UTF-8 bytes of each request's pattern.
pub open spec fn pattern_bytes(requested: Seq<OverrideRequest>) -> Seq<Seq<u8>> {
    requested.map_values(|r: OverrideRequest| vstd::utf8::encode_utf8(r.pattern))
}

/// The override array: one element per request, each with the first buffer
/// type of its name, then the element that ends the array.
pub open spec fn override_array(
    available: Seq<BufferTypeView>,
    requested: Seq<OverrideRequest>,
) -> Seq<TensorBuftOverrideView> {
    Seq::new(
        requested.len(),
        |i: int|
            TensorBuftOverrideView {
                pattern: Some(i),
                buft: Some(available[find_named(available, requested[i].buffer_type)->0]),
            },
    ).push(TensorBuftOverrideView { pattern: None, buft: None })
}

/// The models of a vector of byte strings.
pub open spec fn byte_views(strings: Seq<Vec<u8>>) -> Seq<Seq<u8>> {
    strings.map_values(|s: Vec<u8>| s@)
}

/// The models of a vector of override elements.
pub open spec fn entry_views(entries: Seq<TensorBuftOverride>) -> Seq<TensorBuftOverrideView> {
    entries.map_values(|e: TensorBuftOverride| e@)
}

/// Resolves every request against the buffer types that `devices` expose.
///
/// On success the patterns and the override array that the backend reads; on
/// failure the first error, the limit `max` being checked before anything else.
pub fn resolve_overrides(
    overrides: &[(&str, &str)],
    max: usize,
    devices: &Vec<Option<DeviceBufferType>>,
) -> (resolved: Result<(Vec<Vec<u8>>, Vec<TensorBuftOverride>), TensorBuftOverrideError>)
    ensures
        match resolved {
            Ok((patterns, entries)) => {
                &&& override_error(exposed(devices@), requests(overrides@), max) is None
                &&& byte_views(patterns@) == pattern_bytes(requests(overrides@))
                &&& entry_views(entries@) == override_array(
                    exposed(devices@),
                    requests(overrides@),
                )
            },
            Err(error) => override_error(exposed(devices@), requests(overrides@), max) == Some(
                error@,
            ),
        },
        overrides@.len() > max <==> resolved matches Err(TensorBuftOverrideError::TooMany { .. }),
        resolved matches Err(TensorBuftOverrideError::TooMany { count, max: limit }) ==> count
            == overrides@.len() && limit == max,
        resolved matches Ok((patterns, entries)) ==> patterns.len() == overrides@.len()
            && entries.len() == overrides@.len() + 1,
{
    let ghost requested = requests(overrides@);
    if overrides.len() > max {
        return Err(TensorBuftOverrideError::TooMany { count: overrides.len(), max });
    }
    let available = device_buffer_types(devices);
    let ghost known = views(available@);
    let mut patterns: Vec<Vec<u8>> = Vec::new();
    let mut entries: Vec<TensorBuftOverride> = Vec::new();
    let mut i: usize = 0;
    while i < overrides.len()
        invariant
            i <= overrides.len() <= max,
            requested == requests(overrides@),
            known == views(available@),
            known == exposed(devices@),
            first_error(known, requested.take(i as int)) is None,
            byte_views(patterns@) == pattern_bytes(requested.take(i as int)),
            entries.len() == i,
            forall|j: int|
                0 <= j < i ==> (#[trigger] entries@[j])@ == (TensorBuftOverrideView {
                    pattern: Some(j),
                    buft: Some(known[find_named(known, requested[j].buffer_type)->0]),
                }),
        decreases overrides.len() - i,
    {
        let (pattern, buffer_type) = overrides[i];
        let ghost request = requested[i as int];
        proof {
            assert(request.pattern == pattern@ && request.buffer_type == buffer_type@);
            assert(requested.take(i + 1).drop_last() =~= requested.take(i as int));
            if request_error(known, request) is Some {
                lemma_first_error_at(known, requested, i as int);
            }
        }
        let found = match find_buffer_type(&available, buffer_type) {
            Some(found) => found,
            None => {
                let error = TensorBuftOverrideError::UnknownBufferType {
                    name: buffer_type.to_owned(),
                    available: names_of(&available),
                };
                return Err(error);
            },
        };
        if contains_nul(pattern.as_bytes()) {
            return Err(TensorBuftOverrideError::InvalidPattern { pattern: pattern.to_owned() });
        }
        let ghost before = patterns@;
        entries.push(
            TensorBuftOverride { pattern: Some(i), buft: Some(available[found].duplicate()) },
        );
        patterns.push(copied_bytes(pattern.as_bytes()));
        proof {
            assert(known[found as int] == available@[found as int]@);
            assert(byte_views(patterns@) =~= byte_views(before).push(patterns@.last()@));
            assert(pattern_bytes(requested.take(i + 1)) =~= pattern_bytes(
                requested.take(i as int),
            ).push(vstd::utf8::encode_utf8(request.pattern)));
        }
        i += 1;
    }
    entries.push(TensorBuftOverride { pattern: None, buft: None });
    assert(requested.take(requested.len() as int) =~= requested);
    assert(entry_views(entries@) =~= override_array(known, requested));
    assert(patterns@.len() == byte_views(patterns@).len());
    Ok((patterns, entries))
}

/// Where a list has no error, none of its requests has one.
pub proof fn lemma_sound_requests(
    available: Seq<BufferTypeView>,
    requested: Seq<OverrideRequest>,
    i: int,
)
    requires
        first_error(available, requested) is None,
        0 <= i < requested.len(),
    ensures
        request_error(available, requested[i]) is None,
    decreases requested.len(),
{
    if i < requested.len() - 1 {
        lemma_sound_requests(available, requested.drop_last(), i);
    }
}

/// Once every earlier request is sound, the first error of the list is that of
/// the request at hand.
proof fn lemma_first_error_at(
    available: Seq<BufferTypeView>,
    requested: Seq<OverrideRequest>,
    i: int,
)
    requires
        0 <= i < requested.len(),
        first_error(available, requested.take(i)) is None,
        request_error(available, requested[i]) is Some,
    ensures
        first_error(available, requested) == request_error(available, requested[i]),
{
    lemma_first_error_prefix(available, requested, i, requested.len() as int);
    assert(requested.take(requested.len() as int) =~= requested);
}

proof fn lemma_first_error_prefix(
    available: Seq<BufferTypeView>,
    requested: Seq<OverrideRequest>,
    i: int,
    n: int,
)
    requires
        0 <= i < n <= requested.len(),
        first_error(available, requested.take(i)) is None,
        request_error(available, requested[i]) is Some,
    ensures
        first_error(available, requested.take(n)) == request_error(available, requested[i]),
    decreases n,
{
    assert(requested.take(n).drop_last() =~= requested.take(n - 1));
    if n > i + 1 {
        lemma_first_error_prefix(available, requested, i, n - 1);
    }
}

/// The exposed buffer types are collected device by device: those of a list
/// that is the join of two are those of the first, then those of the second; a
/// device with a buffer type contributes that one, by its decoded name and its
/// address; a device without one contributes nothing.
pub proof fn law_exposed(
    a: Seq<Option<DeviceBufferType>>,
    b: Seq<Option<DeviceBufferType>>,
    device: DeviceBufferType,
)
    ensures
        exposed(a + b) == exposed(a) + exposed(b),
        exposed(seq![None]).len() == 0,
        exposed(seq![Some(device)]).len() == 1,
        exposed(seq![Some(device)])[0].name == crate::text::decoded(device.name@),
        exposed(seq![Some(device)])[0].handle == device.handle,
    decreases b.len(),
{
    reveal_with_fuel(exposed, 3);
    assert(seq![None::<DeviceBufferType>].drop_last() =~= Seq::empty());
    assert(seq![Some(device)].drop_last() =~= Seq::empty());
    if b.len() == 0 {
        assert(a + b =~= a);
        assert(exposed(a) + exposed(b) =~= exposed(a));
    } else {
        law_exposed(a, b.drop_last(), device);
        assert((a + b).drop_last() =~= a + b.drop_last());
        assert((a + b).last() == b.last());
        assert(exposed(a + b) =~= exposed(a) + exposed(b));
    }
}

/// The name of a buffer type is empty for NULL and the decoded C string
/// otherwise.
pub proof fn law_reported_name(bytes: Seq<u8>)
    ensures
        reported_name(None).len() == 0,
        reported_name(Some(bytes)) == crate::text::decoded(bytes),
{
}

/// Models show buffer types, patterns, requests and override elements as they
/// are: each in its place, with its own name, address, bytes and position.
pub proof fn law_models_show_what_is_there(
    types: Seq<BufferType>,
    strings: Seq<Vec<u8>>,
    entries: Seq<TensorBuftOverride>,
    overrides: Seq<(&str, &str)>,
    i: int,
)
    ensures
        views(types).len() == types.len(),
        0 <= i < types.len() ==> views(types)[i].name == types[i].name@ && views(types)[i].handle
            == types[i].handle,
        byte_views(strings).len() == strings.len(),
        0 <= i < strings.len() ==> byte_views(strings)[i] == strings[i]@,
        entry_views(entries).len() == entries.len(),
        0 <= i < entries.len() ==> {
            let entry = entry_views(entries)[i];
            &&& entry.pattern is Some <==> entries[i].pattern is Some
            &&& entries[i].pattern is Some ==> entry.pattern->0 == entries[i].pattern->0
            &&& entry.buft is Some <==> entries[i].buft is Some
            &&& entries[i].buft is Some ==> entry.buft->0.name == entries[i].buft->0.name@
                && entry.buft->0.handle == entries[i].buft->0.handle
        },
        requests(overrides).len() == overrides.len(),
        0 <= i < overrides.len() ==> requests(overrides)[i].pattern == overrides[i].0@
            && requests(overrides)[i].buffer_type == overrides[i].1@,
{
}

/// The model of an error is of the same kind and holds the same texts and
/// numbers.
pub proof fn law_error_model(error: TensorBuftOverrideError, i: int)
    ensures
        match error {
            TensorBuftOverrideError::UnknownBufferType { name, available } => match error@ {
                OverrideErrorView::UnknownBufferType { name: shown, available: names } => {
                    &&& shown == name@
                    &&& names.len() == available.len()
                    &&& 0 <= i < available.len() ==> names[i] == available@[i]@
                },
                _ => false,
            },
            TensorBuftOverrideError::InvalidPattern { pattern } => match error@ {
                OverrideErrorView::InvalidPattern { pattern: shown } => shown == pattern@,
                _ => false,
            },
            TensorBuftOverrideError::TooMany { count, max } => match error@ {
                OverrideErrorView::TooMany { count: c, max: m } => c == count && m == max,
                _ => false,
            },
        },
{
}

/// A list of requests is accepted exactly when there are at most `max` of
/// them, each names a buffer type that some device exposes, and no pattern
/// holds a NUL byte.
pub proof fn law_accepted_requests(
    available: Seq<BufferTypeView>,
    requested: Seq<OverrideRequest>,
    max: usize,
)
    ensures
        override_error(available, requested, max) is None <==> requested.len() <= max && forall|
            i: int,
        |
            0 <= i < requested.len() ==> {
                &&& exists|j: int|
                    0 <= j < available.len() && (#[trigger] available[j]).name
                        == requested[i].buffer_type
                &&& !vstd::utf8::encode_utf8((#[trigger] requested[i]).pattern).contains(0u8)
            },
{
    if override_error(available, requested, max) is None {
        assert forall|i: int| 0 <= i < requested.len() implies (exists|j: int|
            0 <= j < available.len() && (#[trigger] available[j]).name
                == requested[i].buffer_type) && !vstd::utf8::encode_utf8(
            (#[trigger] requested[i]).pattern,
        ).contains(0u8) by {
            lemma_sound_requests(available, requested, i);
            lemma_find_named(available, requested[i].buffer_type);
            let j = find_named(available, requested[i].buffer_type)->0;
            assert(available[j].name == requested[i].buffer_type);
        }
    } else if requested.len() <= max {
        let i = lemma_some_request_errs(available, requested);
        lemma_find_named(available, requested[i].buffer_type);
        assert(requested[i] == requested[i]);
    }
}

/// Too many requests are reported exactly when there are more than `max`, with
/// both numbers.
pub proof fn law_too_many_requests(
    available: Seq<BufferTypeView>,
    requested: Seq<OverrideRequest>,
    max: usize,
)
    ensures
        override_error(available, requested, max) matches Some(OverrideErrorView::TooMany { .. })
            <==> requested.len() > max,
        override_error(available, requested, max) matches Some(
            OverrideErrorView::TooMany { count, max: limit },
        ) ==> count == requested.len() && limit == max,
{
    if requested.len() <= max && first_error(available, requested) is Some {
        let i = lemma_some_request_errs(available, requested);
    }
}

/// The request that is reported is the first bad one: by its buffer type name,
/// together with the names that are exposed, where no device exposes that
/// name, and otherwise by its pattern.
pub proof fn law_first_bad_request(
    available: Seq<BufferTypeView>,
    requested: Seq<OverrideRequest>,
    max: usize,
    i: int,
    j: int,
)
    requires
        0 <= i < requested.len() <= max,
        forall|k: int|
            0 <= k < i ==> (exists|l: int|
                0 <= l < available.len() && (#[trigger] available[l]).name
                    == requested[k].buffer_type) && !vstd::utf8::encode_utf8(
                (#[trigger] requested[k]).pattern,
            ).contains(0u8),
    ensures
        (forall|l: int|
            0 <= l < available.len() ==> (#[trigger] available[l]).name
                != requested[i].buffer_type) ==> match override_error(available, requested, max) {
            Some(OverrideErrorView::UnknownBufferType { name, available: names }) => {
                &&& name == requested[i].buffer_type
                &&& names.len() == available.len()
                &&& 0 <= j < available.len() ==> names[j] == available[j].name
            },
            _ => false,
        },
        (exists|l: int|
            0 <= l < available.len() && (#[trigger] available[l]).name
                == requested[i].buffer_type) && vstd::utf8::encode_utf8(
            requested[i].pattern,
        ).contains(0u8) ==> override_error(available, requested, max) == Some(
            OverrideErrorView::InvalidPattern { pattern: requested[i].pattern },
        ),
{
    let front = requested.take(i);
    assert forall|k: int| 0 <= k < front.len() implies request_error(
        available,
        #[trigger] front[k],
    ) is None by {
        assert(front[k] == requested[k]);
        lemma_find_named(available, requested[k].buffer_type);
    }
    if first_error(available, front) is Some {
        let k = lemma_some_request_errs(available, front);
        assert(request_error(available, front[k]) is None);
    }
    lemma_find_named(available, requested[i].buffer_type);
    if request_error(available, requested[i]) is Some {
        lemma_first_error_at(available, requested, i);
    }
}

/// A list with an error has a request with that error.
proof fn lemma_some_request_errs(
    available: Seq<BufferTypeView>,
    requested: Seq<OverrideRequest>,
) -> (i: int)
    requires
        first_error(available, requested) is Some,
    ensures
        0 <= i < requested.len(),
        request_error(available, requested[i]) is Some,
        request_error(available, requested[i]) == first_error(available, requested),
    decreases requested.len(),
{
    if first_error(available, requested.drop_last()) is Some {
        let i = lemma_some_request_errs(available, requested.drop_last());
        assert(requested.drop_last()[i] == requested[i]);
        i
    } else {
        requested.len() - 1
    }
}

/// What the backend is given for accepted requests: in the place of each, its
/// pattern's UTF-8 bytes and an element that points at them and holds the
/// first exposed buffer type of the requested name; behind the last, one
/// element that holds nothing.
pub proof fn law_override_array(
    available: Seq<BufferTypeView>,
    requested: Seq<OverrideRequest>,
    i: int,
    j: int,
)
    requires
        0 <= i < requested.len(),
        0 <= j < available.len(),
        available[j].name == requested[i].buffer_type,
        forall|k: int|
            0 <= k < j ==> (#[trigger] available[k]).name != requested[i].buffer_type,
    ensures
        pattern_bytes(requested).len() == requested.len(),
        pattern_bytes(requested)[i] == vstd::utf8::encode_utf8(requested[i].pattern),
        override_array(available, requested).len() == requested.len() + 1,
        override_array(available, requested)[i].pattern == Some(i),
        override_array(available, requested)[i].buft == Some(available[j]),
        override_array(available, requested)[requested.len() as int].pattern is None,
        override_array(available, requested)[requested.len() as int].buft is None,
{
    lemma_find_named(available, requested[i].buffer_type);
    let found = find_named(available, requested[i].buffer_type);
    assert(found is Some);
    if found->0 < j {
        assert(available[found->0].name == requested[i].buffer_type);
    }
}

/// A name is exposed exactly when some device has a buffer type whose name
/// decodes to it.
proof fn lemma_exposed_names(devices: Seq<Option<DeviceBufferType>>, name: Seq<char>)
    ensures
        (exists|j: int| 0 <= j < exposed(devices).len() && (#[trigger] exposed(devices)[j]).name
            == name) <==> exists|d: int|
            0 <= d < devices.len() && (#[trigger] devices[d]) is Some && crate::text::decoded(
                devices[d]->0.name@,
            ) == name,
    decreases devices.len(),
{
    if devices.len() > 0 {
        let front = devices.drop_last();
        lemma_exposed_names(front, name);
        if exists|j: int| 0 <= j < exposed(devices).len() && (#[trigger] exposed(devices)[j]).name
            == name {
            let j = choose|j: int|
                0 <= j < exposed(devices).len() && (#[trigger] exposed(devices)[j]).name == name;
            if j < exposed(front).len() {
                assert(exposed(front)[j].name == name);
                let d = choose|d: int|
                    0 <= d < front.len() && (#[trigger] front[d]) is Some && crate::text::decoded(
                        front[d]->0.name@,
                    ) == name;
                assert(devices[d] == front[d]);
            } else {
                assert(devices[devices.len() - 1] is Some);
            }
        }
        if exists|d: int|
            0 <= d < devices.len() && (#[trigger] devices[d]) is Some && crate::text::decoded(
                devices[d]->0.name@,
            ) == name {
            let d = choose|d: int|
                0 <= d < devices.len() && (#[trigger] devices[d]) is Some && crate::text::decoded(
                    devices[d]->0.name@,
                ) == name;
            if d < front.len() {
                assert(front[d] == devices[d]);
                let j = choose|j: int|
                    0 <= j < exposed(front).len() && (#[trigger] exposed(front)[j]).name == name;
                assert(exposed(devices)[j] == exposed(front)[j]);
            } else {
                assert(exposed(devices)[exposed(devices).len() - 1].name == name);
            }
        }
    }
}

/// A list of `(pattern, buffer type)` pairs is accepted exactly when it has at
/// most `max` of them, each names the buffer type of some device, and no
/// pattern has a NUL byte; it is refused as too long exactly when it has more.
pub proof fn law_accepted_overrides(
    devices: Seq<Option<DeviceBufferType>>,
    overrides: Seq<(&str, &str)>,
    max: usize,
)
    ensures
        override_error(exposed(devices), requests(overrides), max) is None <==> overrides.len()
            <= max && forall|i: int|
            0 <= i < overrides.len() ==> {
                &&& exists|d: int|
                    0 <= d < devices.len() && (#[trigger] devices[d]) is Some
                        && crate::text::decoded(devices[d]->0.name@) == overrides[i].1@
                &&& !vstd::utf8::encode_utf8((#[trigger] overrides[i]).0@).contains(0u8)
            },
        overrides.len() > max ==> override_error(exposed(devices), requests(overrides), max)
            == Some(OverrideErrorView::TooMany { count: overrides.len(), max: max as nat }),
{
    let available = exposed(devices);
    let requested = requests(overrides);
    law_accepted_requests(available, requested, max);
    assert forall|i: int| 0 <= i < overrides.len() implies (exists|j: int|
        0 <= j < available.len() && (#[trigger] available[j]).name == requested[i].buffer_type)
        <==> (exists|d: int|
        0 <= d < devices.len() && (#[trigger] devices[d]) is Some && crate::text::decoded(
            devices[d]->0.name@,
        ) == (#[trigger] overrides[i]).1@) by {
        assert(requested[i].buffer_type == overrides[i].1@);
        lemma_exposed_names(devices, overrides[i].1@);
    }
    if override_error(available, requested, max) is None {
        assert forall|i: int| 0 <= i < overrides.len() implies (exists|d: int|
            0 <= d < devices.len() && (#[trigger] devices[d]) is Some && crate::text::decoded(
                devices[d]->0.name@,
            ) == overrides[i].1@) && !vstd::utf8::encode_utf8(
            (#[trigger] overrides[i]).0@,
        ).contains(0u8) by {
            assert(requested[i].pattern == overrides[i].0@);
        }
    } else if requested.len() <= max {
        let i = lemma_some_request_errs(available, requested);
        lemma_find_named(available, requested[i].buffer_type);
        assert(overrides[i].0@ == requested[i].pattern);
    }
}

} // verus!
