//! Tensor descriptors and the per-round table that binds caller buffers to
//! a model's declared tensor slots.
use vstd::prelude::*;
use crate::cstr::{c_str_text, c_str_valid, decode_c_str};
use crate::error::{NrtError, NrtResult};

verus! {

/// Where the storage of a runtime-allocated tensor lives.
#[allow(non_camel_case_types)]
#[derive(Debug, Clone, Copy, PartialEq, Eq, Structural)]
pub enum TensorPlacement {
    NRT_TENSOR_PLACEMENT_DEVICE,
    NRT_TENSOR_PLACEMENT_HOST,
    NRT_TENSOR_PLACEMENT_VIRTUAL,
}

/// Whether a tensor slot is read by the model or written by it.
#[allow(non_camel_case_types)]
#[derive(Debug, Clone, Copy, PartialEq, Eq, Structural)]
pub enum TensorUsage {
    NRT_TENSOR_USAGE_INPUT,
    NRT_TENSOR_USAGE_OUTPUT,
}

/// The element type of a tensor slot.
#[allow(non_camel_case_types)]
#[derive(Debug, Clone, Copy, PartialEq, Eq, Structural)]
pub enum TensorType {
    NRT_DTYPE_UNKNOWN,
    NRT_DTYPE_FLOAT32,
    NRT_DTYPE_FLOAT64,
    NRT_DTYPE_FLOAT16,
    NRT_DTYPE_BFLOAT16,
    NRT_DTYPE_INT8,
    NRT_DTYPE_UINT8,
    NRT_DTYPE_INT16,
    NRT_DTYPE_UINT16,
    NRT_DTYPE_INT32,
    NRT_DTYPE_UINT32,
    NRT_DTYPE_INT64,
    NRT_DTYPE_UINT64,
}

/// The placement that a foreign code names; any other code is invalid.
pub open spec fn placement_from_code(t: u32) -> NrtResult<TensorPlacement> {
    match t {
        0 => Ok(TensorPlacement::NRT_TENSOR_PLACEMENT_DEVICE),
        1 => Ok(TensorPlacement::NRT_TENSOR_PLACEMENT_HOST),
        2 => Ok(TensorPlacement::NRT_TENSOR_PLACEMENT_VIRTUAL),
        _ => Err(NrtError::NRT_INVALID),
    }
}

/// The usage that a foreign code names; any other code is invalid.
pub open spec fn usage_from_code(t: u32) -> NrtResult<TensorUsage> {
    match t {
        0 => Ok(TensorUsage::NRT_TENSOR_USAGE_INPUT),
        1 => Ok(TensorUsage::NRT_TENSOR_USAGE_OUTPUT),
        _ => Err(NrtError::NRT_INVALID),
    }
}

/// The element type that a foreign code names; any other code is invalid.
pub open spec fn dtype_from_code(t: u32) -> NrtResult<TensorType> {
    match t {
        0 => Ok(TensorType::NRT_DTYPE_UNKNOWN),
        1 => Ok(TensorType::NRT_DTYPE_FLOAT32),
        2 => Ok(TensorType::NRT_DTYPE_FLOAT64),
        3 => Ok(TensorType::NRT_DTYPE_FLOAT16),
        4 => Ok(TensorType::NRT_DTYPE_BFLOAT16),
        5 => Ok(TensorType::NRT_DTYPE_INT8),
        6 => Ok(TensorType::NRT_DTYPE_UINT8),
        7 => Ok(TensorType::NRT_DTYPE_INT16),
        8 => Ok(TensorType::NRT_DTYPE_UINT16),
        9 => Ok(TensorType::NRT_DTYPE_INT32),
        10 => Ok(TensorType::NRT_DTYPE_UINT32),
        11 => Ok(TensorType::NRT_DTYPE_INT64),
        12 => Ok(TensorType::NRT_DTYPE_UINT64),
        _ => Err(NrtError::NRT_INVALID),
    }
}

/// The foreign code of a placement.
pub open spec fn placement_code(p: TensorPlacement) -> u32 {
    match p {
        TensorPlacement::NRT_TENSOR_PLACEMENT_DEVICE => 0,
        TensorPlacement::NRT_TENSOR_PLACEMENT_HOST => 1,
        TensorPlacement::NRT_TENSOR_PLACEMENT_VIRTUAL => 2,
    }
}

/// The foreign code of a usage.
pub open spec fn usage_code(u: TensorUsage) -> u32 {
    match u {
        TensorUsage::NRT_TENSOR_USAGE_INPUT => 0,
        TensorUsage::NRT_TENSOR_USAGE_OUTPUT => 1,
    }
}

/// The foreign code of an element type.
pub open spec fn dtype_code(d: TensorType) -> u32 {
    match d {
        TensorType::NRT_DTYPE_UNKNOWN => 0,
        TensorType::NRT_DTYPE_FLOAT32 => 1,
        TensorType::NRT_DTYPE_FLOAT64 => 2,
        TensorType::NRT_DTYPE_FLOAT16 => 3,
        TensorType::NRT_DTYPE_BFLOAT16 => 4,
        TensorType::NRT_DTYPE_INT8 => 5,
        TensorType::NRT_DTYPE_UINT8 => 6,
        TensorType::NRT_DTYPE_INT16 => 7,
        TensorType::NRT_DTYPE_UINT16 => 8,
        TensorType::NRT_DTYPE_INT32 => 9,
        TensorType::NRT_DTYPE_UINT32 => 10,
        TensorType::NRT_DTYPE_INT64 => 11,
        TensorType::NRT_DTYPE_UINT64 => 12,
    }
}

impl TensorPlacement {
    /// Decodes a foreign placement code.
    pub fn from_u32(t: u32) -> (r: NrtResult<TensorPlacement>)
        ensures
            r == placement_from_code(t),
    {
        match t {
            0 => Ok(TensorPlacement::NRT_TENSOR_PLACEMENT_DEVICE),
            1 => Ok(TensorPlacement::NRT_TENSOR_PLACEMENT_HOST),
            2 => Ok(TensorPlacement::NRT_TENSOR_PLACEMENT_VIRTUAL),
            _ => Err(NrtError::NRT_INVALID),
        }
    }

    /// The foreign code of this placement.
    pub fn code(&self) -> (r: u32)
        ensures
            r == placement_code(*self),
    {
        match self {
            TensorPlacement::NRT_TENSOR_PLACEMENT_DEVICE => 0,
            TensorPlacement::NRT_TENSOR_PLACEMENT_HOST => 1,
            TensorPlacement::NRT_TENSOR_PLACEMENT_VIRTUAL => 2,
        }
    }
}

impl TensorUsage {
    /// Decodes a foreign usage code.
    pub fn from_u32(t: u32) -> (r: NrtResult<TensorUsage>)
        ensures
            r == usage_from_code(t),
    {
        match t {
            0 => Ok(TensorUsage::NRT_TENSOR_USAGE_INPUT),
            1 => Ok(TensorUsage::NRT_TENSOR_USAGE_OUTPUT),
            _ => Err(NrtError::NRT_INVALID),
        }
    }

    /// The foreign code of this usage.
    pub fn code(&self) -> (r: u32)
        ensures
            r == usage_code(*self),
    {
        match self {
            TensorUsage::NRT_TENSOR_USAGE_INPUT => 0,
            TensorUsage::NRT_TENSOR_USAGE_OUTPUT => 1,
        }
    }
}

impl TensorType {
    /// Decodes a foreign element-type code.
    pub fn from_u32(t: u32) -> (r: NrtResult<TensorType>)
        ensures
            r == dtype_from_code(t),
    {
        match t {
            0 => Ok(TensorType::NRT_DTYPE_UNKNOWN),
            1 => Ok(TensorType::NRT_DTYPE_FLOAT32),
            2 => Ok(TensorType::NRT_DTYPE_FLOAT64),
            3 => Ok(TensorType::NRT_DTYPE_FLOAT16),
            4 => Ok(TensorType::NRT_DTYPE_BFLOAT16),
            5 => Ok(TensorType::NRT_DTYPE_INT8),
            6 => Ok(TensorType::NRT_DTYPE_UINT8),
            7 => Ok(TensorType::NRT_DTYPE_INT16),
            8 => Ok(TensorType::NRT_DTYPE_UINT16),
            9 => Ok(TensorType::NRT_DTYPE_INT32),
            10 => Ok(TensorType::NRT_DTYPE_UINT32),
            11 => Ok(TensorType::NRT_DTYPE_INT64),
            12 => Ok(TensorType::NRT_DTYPE_UINT64),
            _ => Err(NrtError::NRT_INVALID),
        }
    }

    /// The foreign code of this element type.
    pub fn code(&self) -> (r: u32)
        ensures
            r == dtype_code(*self),
    {
        match self {
            TensorType::NRT_DTYPE_UNKNOWN => 0,
            TensorType::NRT_DTYPE_FLOAT32 => 1,
            TensorType::NRT_DTYPE_FLOAT64 => 2,
            TensorType::NRT_DTYPE_FLOAT16 => 3,
            TensorType::NRT_DTYPE_BFLOAT16 => 4,
            TensorType::NRT_DTYPE_INT8 => 5,
            TensorType::NRT_DTYPE_UINT8 => 6,
            TensorType::NRT_DTYPE_INT16 => 7,
            TensorType::NRT_DTYPE_UINT16 => 8,
            TensorType::NRT_DTYPE_INT32 => 9,
            TensorType::NRT_DTYPE_UINT32 => 10,
            TensorType::NRT_DTYPE_INT64 => 11,
            TensorType::NRT_DTYPE_UINT64 => 12,
        }
    }
}

/// One declared tensor slot as the foreign signature query reports it: the
/// name as a NUL-terminated byte field, the size in bytes, and the usage and
/// element type as foreign codes.
#[derive(Debug)]
pub struct NrtTensorInfo {
    pub name: Vec<u8>,
    pub size: usize,
    pub usage: u32,
    pub dtype: u32,
}

/// One declared tensor slot: name, size in bytes, usage and element type.
#[derive(Debug)]
pub struct TensorInfo {
    pub name: String,
    pub size: usize,
    pub usage: TensorUsage,
    pub dtype: TensorType,
}

/// Whether every field of a reported slot decodes.
pub open spec fn info_decodes(raw: NrtTensorInfo) -> bool {
    &&& c_str_valid(raw.name@)
    &&& usage_from_code(raw.usage) is Ok
    &&& dtype_from_code(raw.dtype) is Ok
}

/// Whether `info` is what the reported slot `raw` decodes to.
pub open spec fn decoded_from(info: TensorInfo, raw: NrtTensorInfo) -> bool {
    &&& info.name@ == c_str_text(raw.name@)
    &&& info.size == raw.size
    &&& usage_from_code(raw.usage) == Ok::<TensorUsage, NrtError>(info.usage)
    &&& dtype_from_code(raw.dtype) == Ok::<TensorType, NrtError>(info.dtype)
}

impl TensorInfo {
    /// Decodes a slot as the foreign signature query reports it. Fails with
    /// `NRT_INVALID` when the name is not text or a code is unknown.
    pub fn from_raw(raw: &NrtTensorInfo) -> (r: NrtResult<TensorInfo>)
        ensures
            r is Ok <==> info_decodes(*raw),
            r matches Ok(info) ==> decoded_from(info, *raw),
            r matches Err(e) ==> e == NrtError::NRT_INVALID,
    {
        let name = decode_c_str(raw.name.as_slice())?;
        let usage = TensorUsage::from_u32(raw.usage)?;
        let dtype = TensorType::from_u32(raw.dtype)?;
        Ok(TensorInfo { name, size: raw.size, usage, dtype })
    }
}

/// A caller buffer offered for a tensor slot: its address and its length in
/// bytes. The binding table records it without owning it.
#[derive(Debug, Clone, Copy, PartialEq, Eq, Structural)]
pub struct HostBuffer {
    pub addr: usize,
    pub len: usize,
}

/// Why a buffer cannot be bound to a slot.
#[derive(Debug, Clone, Copy, PartialEq, Eq, Structural)]
pub enum BindingFault {
    /// No declared slot has the requested name.
    UnknownTensor,
    /// The slot is declared with the other usage.
    UsageMismatch,
    /// The buffer is shorter than the slot's declared size.
    BufferTooSmall,
}

impl BindingFault {
    /// The runtime error under which a refused binding is reported.
    pub fn to_error(&self) -> (r: NrtError)
        ensures
            r == NrtError::NRT_INVALID,
    {
        NrtError::NRT_INVALID
    }
}

/// One declared slot of a model together with the caller buffer currently
/// bound to it, if any.
#[derive(Debug)]
pub struct Tensor {
    pub info: TensorInfo,
    pub binding: Option<HostBuffer>,
}

/// Whether a buffer of `len` bytes may be bound to `t` for `usage`.
pub open spec fn binding_check(t: Tensor, usage: TensorUsage, len: usize) -> Result<(), BindingFault> {
    if usage != t.info.usage {
        Err(BindingFault::UsageMismatch)
    } else if len < t.info.size {
        Err(BindingFault::BufferTooSmall)
    } else {
        Ok(())
    }
}

impl Tensor {
    /// An unbound slot for a declared tensor as the foreign signature query
    /// reports it.
    pub fn from_tensor_info_t(raw: &NrtTensorInfo) -> (r: NrtResult<Tensor>)
        ensures
            r is Ok <==> info_decodes(*raw),
            r matches Ok(t) ==> decoded_from(t.info, *raw) && t.binding is None,
            r matches Err(e) ==> e == NrtError::NRT_INVALID,
    {
        let info = TensorInfo::from_raw(raw)?;
        Ok(Tensor { info, binding: None })
    }

    /// Checks that a buffer of `len` bytes fits this slot for `usage`.
    pub fn check(&self, usage: TensorUsage, len: usize) -> (r: Result<(), BindingFault>)
        ensures
            r == binding_check(*self, usage, len),
    {
        if usage != self.info.usage {
            Err(BindingFault::UsageMismatch)
        } else if len < self.info.size {
            Err(BindingFault::BufferTooSmall)
        } else {
            Ok(())
        }
    }

    /// Binds `buffer` to this slot for `usage`, replacing any earlier binding.
    /// A buffer of the other usage, or shorter than the declared size, is
    /// refused with `NRT_INVALID` and the slot is left as it was.
    pub fn bind(&mut self, usage: TensorUsage, buffer: HostBuffer) -> (r: NrtResult<()>)
        ensures
            r is Ok <==> binding_check(*old(self), usage, buffer.len) is Ok,
            r matches Err(e) ==> e == NrtError::NRT_INVALID,
            final(self).info == old(self).info,
            final(self).binding == if r is Ok { Some(buffer) } else { old(self).binding },
    {
        match self.check(usage, buffer.len) {
            Ok(()) => {
                self.binding = Some(buffer);
                Ok(())
            },
            Err(f) => Err(f.to_error()),
        }
    }

    /// Whether a buffer is bound to this slot.
    pub fn is_bound(&self) -> (r: bool)
        ensures
            r == self.binding is Some,
    {
        self.binding.is_some()
    }
}

/// Whether no two slots share a name.
pub open spec fn names_unique(slots: Seq<Tensor>) -> bool {
    forall|i: int, j: int|
        0 <= i < slots.len() && 0 <= j < slots.len() && i != j ==> slots[i].info.name@
            != slots[j].info.name@
}

/// Whether a reported signature decodes, slot by slot, with no name declared twice.
pub open spec fn signature_valid(raw: Seq<NrtTensorInfo>) -> bool {
    &&& forall|i: int| 0 <= i < raw.len() ==> info_decodes(#[trigger] raw[i])
    &&& forall|i: int, j: int|
        0 <= i < raw.len() && 0 <= j < raw.len() && i != j ==> c_str_text(raw[i].name@)
            != c_str_text(raw[j].name@)
}

/// Whether `slots` is the unbound table of the reported signature `raw`.
pub open spec fn table_of(slots: Seq<Tensor>, raw: Seq<NrtTensorInfo>) -> bool {
    &&& slots.len() == raw.len()
    &&& forall|i: int|
        0 <= i < raw.len() ==> decoded_from(#[trigger] slots[i].info, raw[i]) && slots[i].binding is None
}

/// Whether every input slot has a buffer bound.
pub open spec fn inputs_bound(slots: Seq<Tensor>) -> bool {
    forall|i: int|
        0 <= i < slots.len() && (#[trigger] slots[i]).info.usage
            == TensorUsage::NRT_TENSOR_USAGE_INPUT ==> slots[i].binding is Some
}

/// Whether `name` is declared in `slots`.
pub open spec fn declares(slots: Seq<Tensor>, name: Seq<char>) -> bool {
    exists|i: int| 0 <= i < slots.len() && (#[trigger] slots[i]).info.name@ == name
}

/// The outcome of checking a binding against the slot at index `i`.
pub open spec fn check_at(slots: Seq<Tensor>, i: int, usage: TensorUsage, len: usize) -> Result<
    usize,
    BindingFault,
> {
    match binding_check(slots[i], usage, len) {
        Ok(_) => Ok(i as usize),
        Err(f) => Err(f),
    }
}

/// A validated binding, ready to be handed to the foreign runtime and then
/// recorded with `IoTensors::commit_bind`: the model the table was made for,
/// the slot, the usage and the buffer.
#[derive(Debug)]
pub struct BindRequest {
    model: usize,
    slot: usize,
    usage: TensorUsage,
    buffer: HostBuffer,
}

impl View for BindRequest {
    type V = (usize, usize, TensorUsage, HostBuffer);

    closed spec fn view(&self) -> (usize, usize, TensorUsage, HostBuffer) {
        (self.model, self.slot, self.usage, self.buffer)
    }
}

impl BindRequest {
    /// The handle of the model whose table the request was validated on.
    pub fn model(&self) -> (r: usize)
        ensures
            r == self@.0,
    {
        self.model
    }

    /// The index of the slot to bind.
    pub fn slot(&self) -> (r: usize)
        ensures
            r == self@.1,
    {
        self.slot
    }

    /// The usage the buffer is bound for.
    pub fn usage(&self) -> (r: TensorUsage)
        ensures
            r == self@.2,
    {
        self.usage
    }

    /// The buffer to bind.
    pub fn buffer(&self) -> (r: HostBuffer)
        ensures
            r == self@.3,
    {
        self.buffer
    }
}

/// Whether `req` is a binding that passes the checks of the table whose
/// model is `model` and whose slots are `slots`.
pub open spec fn request_fits(req: (usize, usize, TensorUsage, HostBuffer), model: usize, slots: Seq<Tensor>) -> bool {
    &&& req.0 == model
    &&& req.1 < slots.len()
    &&& binding_check(slots[req.1 as int], req.2, req.3.len) is Ok
}

/// The binding table of one execution round: the declared slots of a model,
/// in the order of its signature, each with its current binding.
#[derive(Debug)]
pub struct IoTensors {
    model: usize,
    slots: Vec<Tensor>,
}

impl View for IoTensors {
    type V = Seq<Tensor>;

    closed spec fn view(&self) -> Seq<Tensor> {
        self.slots@
    }
}

impl IoTensors {
    #[verifier::type_invariant]
    closed spec fn slot_names_unique(&self) -> bool {
        names_unique(self.slots@)
    }

    /// The handle of the model that this table was made for.
    pub closed spec fn spec_model(&self) -> usize {
        self.model
    }

    /// Builds an empty table from a model's reported signature. Fails with
    /// `NRT_INVALID` when a slot does not decode or a name is declared twice.
    pub fn from_signature(model: usize, raw: &Vec<NrtTensorInfo>) -> (r: NrtResult<IoTensors>)
        ensures
            r is Ok <==> signature_valid(raw@),
            r matches Ok(io) ==> io.spec_model() == model && table_of(io@, raw@),
            r matches Err(e) ==> e == NrtError::NRT_INVALID,
    {
        let mut slots: Vec<Tensor> = Vec::new();
        let mut i: usize = 0;
        while i < raw.len()
            invariant
                i <= raw@.len(),
                slots@.len() == i,
                names_unique(slots@),
                forall|k: int| 0 <= k < i ==> info_decodes(#[trigger] raw@[k]),
                forall|k: int|
                    0 <= k < i ==> decoded_from(#[trigger] slots@[k].info, raw@[k]) && slots@[k].binding is None,
                forall|a: int, b: int|
                    0 <= a < i && 0 <= b < i && a != b ==> c_str_text(raw@[a].name@) != c_str_text(
                        raw@[b].name@,
                    ),
            decreases raw@.len() - i,
        {
            let t = match Tensor::from_tensor_info_t(&raw[i]) {
                Ok(t) => t,
                Err(e) => {
                    assert(!info_decodes(raw@[i as int]));
                    return Err(e);
                },
            };
            let mut j: usize = 0;
            while j < i
                invariant
                    j <= i,
                    i < raw@.len(),
                    slots@.len() == i,
                    decoded_from(t.info, raw@[i as int]),
                    forall|k: int|
                        0 <= k < i ==> decoded_from(#[trigger] slots@[k].info, raw@[k]),
                    forall|k: int| 0 <= k < j ==> slots@[k].info.name@ != t.info.name@,
                decreases i - j,
            {
                if slots[j].info.name == t.info.name {
                    assert(decoded_from(slots@[j as int].info, raw@[j as int]));
                    return Err(NrtError::NRT_INVALID);
                }
                j = j + 1;
            }
            assert forall|a: int, b: int|
                0 <= a <= i && 0 <= b <= i && a != b implies c_str_text(raw@[a].name@) != c_str_text(
                    raw@[b].name@,
                ) by {
                if a < i {
                    assert(decoded_from(slots@[a].info, raw@[a]));
                }
                if b < i {
                    assert(decoded_from(slots@[b].info, raw@[b]));
                }
            }
            slots.push(t);
            i = i + 1;
        }
        Ok(IoTensors { model, slots })
    }

    /// The handle of the model that this table was made for.
    pub fn model(&self) -> (r: usize)
        ensures
            r == self.spec_model(),
    {
        self.model
    }

    /// The number of declared slots.
    pub fn len(&self) -> (r: usize)
        ensures
            r == self@.len(),
    {
        self.slots.len()
    }

    /// The slot at index `i`.
    pub fn tensor(&self, i: usize) -> (r: &Tensor)
        requires
            i < self@.len(),
        ensures
            *r == self@[i as int],
    {
        &self.slots[i]
    }

    /// The index of the slot named `name`.
    pub fn find(&self, name: &str) -> (r: Option<usize>)
        ensures
            r is None <==> !declares(self@, name@),
            r matches Some(i) ==> i < self@.len() && self@[i as int].info.name@ == name@,
    {
        let key = name.to_owned();
        let mut i: usize = 0;
        while i < self.slots.len()
            invariant
                i <= self@.len(),
                key@ == name@,
                self@ == self.slots@,
                forall|k: int| 0 <= k < i ==> (#[trigger] self@[k]).info.name@ != name@,
            decreases self@.len() - i,
        {
            if self.slots[i].info.name == key {
                return Some(i);
            }
            i = i + 1;
        }
        None
    }

    /// The declared descriptor of the slot named `name`.
    pub fn get_tensor_info(&self, name: &str) -> (r: Option<&TensorInfo>)
        ensures
            r is None <==> !declares(self@, name@),
            r matches Some(info) ==> info.name@ == name@ && exists|i: int|
                0 <= i < self@.len() && *info == (#[trigger] self@[i]).info,
    {
        match self.find(name) {
            Some(i) => Some(&self.slots[i].info),
            None => None,
        }
    }

    /// Checks a binding request: the slot named `name` must exist, be
    /// declared with `usage`, and be no larger than `len` bytes.
    pub fn check_binding(&self, name: &str, usage: TensorUsage, len: usize) -> (r: Result<
        usize,
        BindingFault,
    >)
        ensures
            !declares(self@, name@) ==> r == Err::<usize, BindingFault>(BindingFault::UnknownTensor),
            r is Ok <==> self.check_binding_spec(name@, usage, len),
            r matches Ok(i) ==> {
                &&& i < self@.len()
                &&& self@[i as int].info.name@ == name@
                &&& binding_check(self@[i as int], usage, len) is Ok
            },
            forall|i: int|
                0 <= i < self@.len() && (#[trigger] self@[i]).info.name@ == name@ ==> r == check_at(
                    self@,
                    i,
                    usage,
                    len,
                ),
    {
        proof {
            use_type_invariant(self);
        }
        match self.find(name) {
            None => Err(BindingFault::UnknownTensor),
            Some(i) => match self.slots[i].check(usage, len) {
                Ok(()) => Ok(i),
                Err(f) => Err(f),
            },
        }
    }

    /// Validates a binding of `buffer` to the slot named `name` for `usage`.
    /// On success the request names the slot; the foreign bind may then be
    /// made and its status handed to `commit_bind`. Any refusal is
    /// `NRT_INVALID` and comes with no request, so no foreign call follows it.
    pub fn bind(&self, name: &str, usage: TensorUsage, buffer: HostBuffer) -> (r: NrtResult<
        BindRequest,
    >)
        ensures
            r is Ok <==> self.check_binding_spec(name@, usage, buffer.len),
            r matches Ok(req) ==> {
                &&& req@.0 == self.spec_model()
                &&& req@.2 == usage
                &&& req@.3 == buffer
                &&& request_fits(req@, self.spec_model(), self@)
                &&& self@[req@.1 as int].info.name@ == name@
            },
            r matches Err(e) ==> e == NrtError::NRT_INVALID,
    {
        match self.check_binding(name, usage, buffer.len) {
            Ok(slot) => Ok(BindRequest { model: self.model, slot, usage, buffer }),
            Err(f) => Err(f.to_error()),
        }
    }

    /// Whether a binding of `len` bytes for `usage` to the slot named `name`
    /// passes the checks.
    pub open spec fn check_binding_spec(&self, name: Seq<char>, usage: TensorUsage, len: usize) -> bool {
        exists|i: int|
            0 <= i < self@.len() && (#[trigger] self@[i]).info.name@ == name && binding_check(
                self@[i],
                usage,
                len,
            ) is Ok
    }

    /// Records a validated binding once the foreign bind has reported
    /// `status`. On status 0 the slot holds the buffer; otherwise the table is
    /// unchanged and the classified error is returned.
    pub fn commit_bind(&mut self, req: BindRequest, status: u32) -> (r: NrtResult<()>)
        requires
            request_fits(req@, old(self).spec_model(), old(self)@),
        ensures
            r == crate::error::status_result((), status),
            final(self).spec_model() == old(self).spec_model(),
            final(self)@ == if status == 0 {
                old(self)@.update(
                    req@.1 as int,
                    Tensor { info: old(self)@[req@.1 as int].info, binding: Some(req@.3) },
                )
            } else {
                old(self)@
            },
    {
        if status != 0 {
            return Err(NrtError::from_status(status));
        }
        proof {
            use_type_invariant(&*self);
        }
        let mut slots: Vec<Tensor> = Vec::new();
        std::mem::swap(&mut slots, &mut self.slots);
        let mut t = slots.remove(req.slot);
        t.binding = Some(req.buffer);
        slots.insert(req.slot, t);
        assert(slots@ =~= old(self)@.update(
            req@.1 as int,
            Tensor { info: old(self)@[req@.1 as int].info, binding: Some(req@.3) },
        ));
        self.slots = slots;
        Ok(())
    }

    /// Whether every input slot has a buffer bound.
    pub fn all_inputs_bound(&self) -> (r: bool)
        ensures
            r == inputs_bound(self@),
    {
        let mut i: usize = 0;
        while i < self.slots.len()
            invariant
                i <= self@.len(),
                self@ == self.slots@,
                forall|k: int|
                    0 <= k < i && (#[trigger] self@[k]).info.usage
                        == TensorUsage::NRT_TENSOR_USAGE_INPUT ==> self@[k].binding is Some,
            decreases self@.len() - i,
        {
            if self.slots[i].info.usage == TensorUsage::NRT_TENSOR_USAGE_INPUT
                && !self.slots[i].is_bound() {
                return false;
            }
            i = i + 1;
        }
        true
    }

    /// Drops every binding, keeping the declared slots: a binding lasts for
    /// one execution only.
    pub fn clear_bindings(&mut self)
        ensures
            final(self).spec_model() == old(self).spec_model(),
            final(self)@.len() == old(self)@.len(),
            forall|i: int|
                0 <= i < old(self)@.len() ==> (#[trigger] final(self)@[i]).info == old(self)@[i].info
                    && final(self)@[i].binding is None,
    {
        proof {
            use_type_invariant(&*self);
        }
        let mut slots: Vec<Tensor> = Vec::new();
        std::mem::swap(&mut slots, &mut self.slots);
        let mut i: usize = 0;
        while i < slots.len()
            invariant
                i <= slots@.len(),
                slots@.len() == old(self)@.len(),
                self.model == old(self).spec_model(),
                forall|k: int|
                    0 <= k < slots@.len() ==> (#[trigger] slots@[k]).info == old(self)@[k].info,
                forall|k: int| 0 <= k < i ==> (#[trigger] slots@[k]).binding is None,
            decreases slots@.len() - i,
        {
            let mut t = slots.remove(i);
            t.binding = None;
            slots.insert(i, t);
            i = i + 1;
        }
        assert(names_unique(slots@)) by {
            assert forall|a: int, b: int|
                0 <= a < slots@.len() && 0 <= b < slots@.len() && a != b implies slots@[a].info.name@
                    != slots@[b].info.name@ by {
                assert(slots@[a].info == old(self)@[a].info);
                assert(slots@[b].info == old(self)@[b].info);
            }
        }
        self.slots = slots;
    }
}

} // verus!
