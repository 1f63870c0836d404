use nrt::error::NrtError;
use nrt::tensor::{
    BindingFault, HostBuffer, IoTensors, NrtTensorInfo, Tensor, TensorInfo, TensorPlacement,
    TensorType, TensorUsage,
};

const MODEL: usize = 0x5000;

fn raw(name: &str, size: usize, usage: u32, dtype: u32) -> NrtTensorInfo {
    let mut field = name.as_bytes().to_vec();
    field.resize(256, 0);
    NrtTensorInfo { name: field, size, usage, dtype }
}

fn table(slots: Vec<NrtTensorInfo>) -> IoTensors {
    IoTensors::from_signature(MODEL, &slots).unwrap()
}

fn buffer(len: usize) -> HostBuffer {
    HostBuffer { addr: 0x10_0000, len }
}

/// Binds through the table the way a caller does: validate, make the
/// foreign bind, then commit. Counts the foreign calls made.
fn bind_with_spy(
    io: &mut IoTensors,
    name: &str,
    usage: TensorUsage,
    buf: HostBuffer,
    calls: &mut u32,
) -> Result<(), NrtError> {
    let req = io.bind(name, usage, buf)?;
    *calls += 1;
    io.commit_bind(req, 0)
}

#[test]
fn codes_decode_and_encode() {
    assert_eq!(TensorUsage::from_u32(0), Ok(TensorUsage::NRT_TENSOR_USAGE_INPUT));
    assert_eq!(TensorUsage::from_u32(1), Ok(TensorUsage::NRT_TENSOR_USAGE_OUTPUT));
    assert_eq!(TensorUsage::from_u32(2), Err(NrtError::NRT_INVALID));
    assert_eq!(TensorPlacement::from_u32(2), Ok(TensorPlacement::NRT_TENSOR_PLACEMENT_VIRTUAL));
    assert_eq!(TensorPlacement::from_u32(3), Err(NrtError::NRT_INVALID));
    assert_eq!(TensorType::from_u32(4), Ok(TensorType::NRT_DTYPE_BFLOAT16));
    assert_eq!(TensorType::from_u32(12), Ok(TensorType::NRT_DTYPE_UINT64));
    assert_eq!(TensorType::from_u32(13), Err(NrtError::NRT_INVALID));
    for t in 0..13u32 {
        assert_eq!(TensorType::from_u32(t).unwrap().code(), t);
    }
    assert_eq!(TensorPlacement::NRT_TENSOR_PLACEMENT_HOST.code(), 1);
    assert_eq!(TensorUsage::NRT_TENSOR_USAGE_OUTPUT.code(), 1);
}

#[test]
fn tensor_info_decodes_a_reported_slot() {
    let info = TensorInfo::from_raw(&raw("input_ids", 4096, 0, 9)).unwrap();
    assert_eq!(info.name, "input_ids");
    assert_eq!(info.size, 4096);
    assert_eq!(info.usage, TensorUsage::NRT_TENSOR_USAGE_INPUT);
    assert_eq!(info.dtype, TensorType::NRT_DTYPE_INT32);
    assert!(TensorInfo::from_raw(&raw("x", 4, 5, 1)).is_err());
    assert!(TensorInfo::from_raw(&raw("x", 4, 0, 99)).is_err());
    let bad_name = NrtTensorInfo { name: vec![0xc3, 0x28, 0], size: 4, usage: 0, dtype: 1 };
    assert_eq!(TensorInfo::from_raw(&bad_name).err(), Some(NrtError::NRT_INVALID));
}

#[test]
fn slot_binds_only_a_fitting_buffer() {
    let mut t = Tensor::from_tensor_info_t(&raw("y", 16, 1, 1)).unwrap();
    assert!(!t.is_bound());
    assert_eq!(t.check(TensorUsage::NRT_TENSOR_USAGE_INPUT, 16), Err(BindingFault::UsageMismatch));
    assert_eq!(t.check(TensorUsage::NRT_TENSOR_USAGE_OUTPUT, 15), Err(BindingFault::BufferTooSmall));
    assert_eq!(t.bind(TensorUsage::NRT_TENSOR_USAGE_OUTPUT, buffer(8)), Err(NrtError::NRT_INVALID));
    assert!(!t.is_bound());
    assert_eq!(t.bind(TensorUsage::NRT_TENSOR_USAGE_OUTPUT, buffer(32)), Ok(()));
    assert_eq!(t.binding, Some(buffer(32)));
}

#[test]
fn signature_gives_an_unbound_table() {
    let io = table(vec![raw("x", 4096, 0, 1), raw("y", 64, 1, 1)]);
    assert_eq!(io.model(), MODEL);
    assert_eq!(io.len(), 2);
    assert_eq!(io.tensor(0).info.name, "x");
    assert_eq!(io.tensor(1).info.usage, TensorUsage::NRT_TENSOR_USAGE_OUTPUT);
    assert!(!io.tensor(0).is_bound() && !io.tensor(1).is_bound());
    assert_eq!(io.find("y"), Some(1));
    assert_eq!(io.find("z"), None);
    assert_eq!(io.get_tensor_info("x").unwrap().size, 4096);
    assert!(io.get_tensor_info("nope").is_none());
    assert!(!io.all_inputs_bound());
}

#[test]
fn signature_with_a_repeated_name_is_invalid() {
    let slots = vec![raw("x", 4, 0, 1), raw("y", 4, 1, 1), raw("x", 8, 1, 1)];
    assert_eq!(IoTensors::from_signature(MODEL, &slots).err(), Some(NrtError::NRT_INVALID));
    let slots = vec![raw("x", 4, 0, 1), raw("y", 4, 7, 1)];
    assert_eq!(IoTensors::from_signature(MODEL, &slots).err(), Some(NrtError::NRT_INVALID));
    let empty = IoTensors::from_signature(MODEL, &Vec::new()).unwrap();
    assert_eq!(empty.len(), 0);
    assert!(empty.all_inputs_bound());
}

#[test]
fn bind_round_trip_on_a_declared_input() {
    let mut io = table(vec![raw("x", 4096, 0, 1)]);
    let mut calls = 0;
    let input = TensorUsage::NRT_TENSOR_USAGE_INPUT;
    let output = TensorUsage::NRT_TENSOR_USAGE_OUTPUT;
    assert_eq!(bind_with_spy(&mut io, "x", input, buffer(4096), &mut calls), Ok(()));
    assert_eq!(calls, 1);
    assert_eq!(io.tensor(0).binding, Some(buffer(4096)));
    assert_eq!(io.check_binding("x", output, 4096), Err(BindingFault::UsageMismatch));
    assert_eq!(bind_with_spy(&mut io, "x", output, buffer(4096), &mut calls), Err(NrtError::NRT_INVALID));
    assert_eq!(io.check_binding("x", input, 2048), Err(BindingFault::BufferTooSmall));
    assert_eq!(bind_with_spy(&mut io, "x", input, buffer(2048), &mut calls), Err(NrtError::NRT_INVALID));
    assert_eq!(calls, 1);
}

#[test]
fn short_buffer_is_refused_before_any_foreign_bind() {
    let mut io = table(vec![raw("x", 4096, 0, 1)]);
    let mut calls = 0;
    let r = bind_with_spy(&mut io, "x", TensorUsage::NRT_TENSOR_USAGE_INPUT, buffer(4095), &mut calls);
    assert_eq!(r, Err(NrtError::NRT_INVALID));
    assert_eq!(calls, 0);
    assert!(!io.tensor(0).is_bound());
}

#[test]
fn unknown_name_is_refused() {
    let io = table(vec![raw("x", 4, 0, 1)]);
    assert_eq!(io.check_binding("w", TensorUsage::NRT_TENSOR_USAGE_INPUT, 4), Err(BindingFault::UnknownTensor));
    assert_eq!(io.bind("w", TensorUsage::NRT_TENSOR_USAGE_INPUT, buffer(4)).err(), Some(NrtError::NRT_INVALID));
    assert_eq!(BindingFault::UnknownTensor.to_error(), NrtError::NRT_INVALID);
}

#[test]
fn failed_foreign_bind_leaves_the_table_unchanged() {
    let mut io = table(vec![raw("x", 4, 0, 1), raw("y", 4, 1, 1)]);
    let req = io.bind("y", TensorUsage::NRT_TENSOR_USAGE_OUTPUT, buffer(4)).unwrap();
    assert_eq!(req.model(), MODEL);
    assert_eq!(req.slot(), 1);
    assert_eq!(req.usage(), TensorUsage::NRT_TENSOR_USAGE_OUTPUT);
    assert_eq!(req.buffer(), buffer(4));
    assert_eq!(io.commit_bind(req, 3), Err(NrtError::NRT_INVALID_HANDLE));
    assert!(!io.tensor(1).is_bound());
}

#[test]
fn clearing_drops_every_binding() {
    let mut io = table(vec![raw("x", 4, 0, 1), raw("y", 4, 1, 1)]);
    let req = io.bind("x", TensorUsage::NRT_TENSOR_USAGE_INPUT, buffer(4)).unwrap();
    io.commit_bind(req, 0).unwrap();
    assert!(io.all_inputs_bound());
    io.clear_bindings();
    assert!(!io.all_inputs_bound());
    assert_eq!(io.tensor(0).info.name, "x");
    assert!(!io.tensor(0).is_bound());
}
