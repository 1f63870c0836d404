use nrt::error::NrtError;
use nrt::model::Model;
use nrt::runtime::RuntimeContext;
use nrt::tensor::{HostBuffer, IoTensors, NrtTensorInfo, TensorUsage};

const HANDLE: usize = 0x7f00_1000;

/// Counts of the foreign calls a test made.
#[derive(Default)]
struct Calls {
    load: u32,
    execute: u32,
    unload: u32,
}

fn initialized() -> RuntimeContext {
    let mut ctx = RuntimeContext::new();
    ctx.begin_init().unwrap();
    ctx.finish_init(0).unwrap();
    ctx
}

fn raw(name: &str, size: usize, usage: u32) -> NrtTensorInfo {
    let mut field = name.as_bytes().to_vec();
    field.push(0);
    NrtTensorInfo { name: field, size, usage, dtype: 1 }
}

/// Loads against a foreign loader that answers `status`, given the outcome
/// of mapping the artifact.
fn load_with(
    ctx: &RuntimeContext,
    mapped: Result<usize, NrtError>,
    status: u32,
    calls: &mut Calls,
) -> Result<Model, NrtError> {
    let req = Model::begin_load(ctx, mapped, 0, 1)?;
    calls.load += 1;
    Model::from_neff_file(req, status, HANDLE)
}

fn execute_with(
    ctx: &RuntimeContext,
    model: &Model,
    io: &mut IoTensors,
    status: u32,
    calls: &mut Calls,
) -> Result<(), NrtError> {
    model.begin_execute(ctx, io)?;
    calls.execute += 1;
    model.finish_execute(io, status)
}

fn unload_with(ctx: &RuntimeContext, model: Model, calls: &mut Calls) -> Result<(), NrtError> {
    model.unload(ctx)?;
    calls.unload += 1;
    Ok(())
}

fn loaded(ctx: &RuntimeContext) -> Model {
    let mut calls = Calls::default();
    load_with(ctx, Ok(1 << 20), 0, &mut calls).unwrap()
}

fn io_of(model: &Model, slots: Vec<NrtTensorInfo>) -> IoTensors {
    let ctx = initialized();
    model.begin_call(&ctx).unwrap();
    model.get_new_io_tensors(0, &slots).unwrap()
}

#[test]
fn missing_artifact_makes_no_load_call() {
    let ctx = initialized();
    let mut calls = Calls::default();
    let r = load_with(&ctx, Err(NrtError::NRT_FAILURE), 0, &mut calls);
    assert_eq!(r.err(), Some(NrtError::NRT_FAILURE));
    assert_eq!(calls.load, 0);
}

#[test]
fn load_records_the_handle_and_range() {
    let ctx = initialized();
    let req = Model::begin_load(&ctx, Ok(4096), 2, 3).unwrap();
    assert_eq!((req.neff_size(), req.start_vnc(), req.vnc_count()), (4096, 2, 3));
    let model = Model::from_neff_file(req, 0, HANDLE).unwrap();
    assert_eq!(model.handle(), HANDLE);
    assert_eq!((model.neff_size(), model.start_vnc(), model.vnc_count()), (4096, 2, 3));
}

#[test]
fn load_reports_the_loader_status() {
    let ctx = initialized();
    let mut calls = Calls::default();
    assert_eq!(load_with(&ctx, Ok(64), 9, &mut calls).err(), Some(NrtError::NRT_LOAD_NOT_ENOUGH_NC));
    assert_eq!(load_with(&ctx, Ok(64), 10, &mut calls).err(), Some(NrtError::NRT_UNSUPPORTED_NEFF_VERSION));
    assert_eq!(calls.load, 2);
}

#[test]
fn load_before_init_is_refused() {
    let ctx = RuntimeContext::new();
    let mut calls = Calls::default();
    assert_eq!(load_with(&ctx, Ok(64), 0, &mut calls).err(), Some(NrtError::NRT_UNINITIALIZED));
    assert_eq!(calls.load, 0);
}

#[test]
fn io_tensors_follow_the_signature() {
    let ctx = initialized();
    let model = loaded(&ctx);
    assert_eq!(model.begin_call(&ctx), Ok(HANDLE));
    let io = model.get_new_io_tensors(0, &vec![raw("x", 4096, 0), raw("out", 16, 1)]).unwrap();
    assert_eq!(io.model(), HANDLE);
    assert_eq!(io.len(), 2);
    assert_eq!(io.get_tensor_info("out").unwrap().usage, TensorUsage::NRT_TENSOR_USAGE_OUTPUT);
    assert_eq!(model.get_new_io_tensors(3, &vec![raw("x", 4, 0)]).err(), Some(NrtError::NRT_INVALID_HANDLE));
}

#[test]
fn execute_without_an_input_is_bad_input() {
    let ctx = initialized();
    let model = loaded(&ctx);
    let mut io = io_of(&model, vec![raw("x", 4096, 0), raw("y", 4096, 0), raw("out", 16, 1)]);
    let req = io.bind("x", TensorUsage::NRT_TENSOR_USAGE_INPUT, HostBuffer { addr: 0x1000, len: 4096 }).unwrap();
    io.commit_bind(req, 0).unwrap();
    let mut calls = Calls::default();
    assert_eq!(execute_with(&ctx, &model, &mut io, 0, &mut calls), Err(NrtError::NRT_EXEC_BAD_INPUT));
    assert_eq!(calls.execute, 0);
}

#[test]
fn execute_ends_the_round() {
    let ctx = initialized();
    let model = loaded(&ctx);
    let mut io = io_of(&model, vec![raw("x", 8, 0), raw("out", 16, 1)]);
    let req = io.bind("x", TensorUsage::NRT_TENSOR_USAGE_INPUT, HostBuffer { addr: 0x1000, len: 8 }).unwrap();
    io.commit_bind(req, 0).unwrap();
    let mut calls = Calls::default();
    assert_eq!(execute_with(&ctx, &model, &mut io, 0, &mut calls), Ok(()));
    assert_eq!(calls.execute, 1);
    assert!(!io.tensor(0).is_bound());
    // the next round needs its inputs bound again
    assert_eq!(execute_with(&ctx, &model, &mut io, 0, &mut calls), Err(NrtError::NRT_EXEC_BAD_INPUT));
    assert_eq!(calls.execute, 1);
}

#[test]
fn execute_reports_the_runtime_status() {
    let ctx = initialized();
    let model = loaded(&ctx);
    let mut io = io_of(&model, vec![raw("out", 16, 1)]);
    let mut calls = Calls::default();
    assert_eq!(
        execute_with(&ctx, &model, &mut io, 1003, &mut calls),
        Err(NrtError::NRT_EXEC_COMPLETED_WITH_NUM_ERROR)
    );
    assert_eq!(calls.execute, 1);
}

#[test]
fn execute_with_another_models_table_is_invalid() {
    let ctx = initialized();
    let model = loaded(&ctx);
    let mut io = IoTensors::from_signature(HANDLE + 8, &vec![raw("out", 16, 1)]).unwrap();
    let mut calls = Calls::default();
    assert_eq!(execute_with(&ctx, &model, &mut io, 0, &mut calls), Err(NrtError::NRT_INVALID));
    assert_eq!(calls.execute, 0);
}

#[test]
fn unload_hands_out_the_handle_once() {
    let ctx = initialized();
    let model = loaded(&ctx);
    let mut calls = Calls::default();
    // `unload` takes the model by value: nothing can name it afterwards
    assert_eq!(unload_with(&ctx, model, &mut calls), Ok(()));
    assert_eq!(calls.unload, 1);
    assert_eq!(loaded(&ctx).unload(&ctx), Ok(HANDLE));
}

#[test]
fn null_handle_from_the_loader_is_invalid() {
    let ctx = initialized();
    let req = Model::begin_load(&ctx, Ok(64), 0, 1).unwrap();
    assert_eq!(Model::from_neff_file(req, 0, 0).err(), Some(NrtError::NRT_INVALID_HANDLE));
}

#[test]
fn bind_plan_checks_the_table_and_the_slot() {
    let ctx = initialized();
    let model = loaded(&ctx);
    let mut io = io_of(&model, vec![raw("x", 8, 0)]);
    let buf = HostBuffer { addr: 0x1000, len: 8 };
    let input = TensorUsage::NRT_TENSOR_USAGE_INPUT;
    let req = model.begin_bind(&ctx, &io, "x", input, buf).unwrap();
    assert_eq!((req.model(), req.slot(), req.usage(), req.buffer()), (HANDLE, 0, input, buf));
    io.commit_bind(req, 0).unwrap();
    assert!(io.tensor(0).is_bound());
    let short = HostBuffer { addr: 0x1000, len: 7 };
    assert_eq!(model.begin_bind(&ctx, &io, "x", input, short).err(), Some(NrtError::NRT_INVALID));
    let other = IoTensors::from_signature(HANDLE + 8, &vec![raw("x", 8, 0)]).unwrap();
    assert_eq!(model.begin_bind(&ctx, &other, "x", input, buf).err(), Some(NrtError::NRT_INVALID));
}

#[test]
fn closed_runtime_refuses_every_model_call() {
    let mut ctx = initialized();
    let model = loaded(&ctx);
    let mut io = io_of(&model, vec![raw("out", 16, 1)]);
    ctx.finish_close(0).unwrap();
    let mut calls = Calls::default();
    assert_eq!(load_with(&ctx, Ok(64), 0, &mut calls).err(), Some(NrtError::NRT_CLOSED));
    assert_eq!(model.begin_call(&ctx), Err(NrtError::NRT_CLOSED));
    let buf = HostBuffer { addr: 0x1000, len: 16 };
    let output = TensorUsage::NRT_TENSOR_USAGE_OUTPUT;
    assert_eq!(model.begin_bind(&ctx, &io, "out", output, buf).err(), Some(NrtError::NRT_CLOSED));
    assert_eq!(execute_with(&ctx, &model, &mut io, 0, &mut calls), Err(NrtError::NRT_CLOSED));
    assert_eq!(unload_with(&ctx, model, &mut calls), Err(NrtError::NRT_CLOSED));
    assert_eq!((calls.load, calls.execute, calls.unload), (0, 0, 0));
}
