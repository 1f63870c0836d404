//! A loaded model: one live foreign model handle, given up exactly once when
//! the model is unloaded, and the planning steps of every call made with it.
use vstd::prelude::*;
use crate::error::{classify, nrt_result, status_result, NrtError, NrtResult};
use crate::runtime::{init_plan, ready_result, RuntimeContext, RuntimeState};
use crate::tensor::{
    inputs_bound, request_fits, signature_valid, table_of, BindRequest, HostBuffer, IoTensors,
    NrtTensorInfo, TensorUsage,
};

verus! {

/// The plan of a load: the runtime must be initialised and the artifact
/// mapped; the result is the size of the mapped artifact.
pub open spec fn load_plan(s: RuntimeState, mapped: NrtResult<usize>) -> NrtResult<usize> {
    match ready_result(s) {
        Err(e) => Err(e),
        Ok(_) => mapped,
    }
}

/// The plan of a call with a model's handle `h`: the runtime must be
/// initialised; the result is the handle.
pub open spec fn call_plan(s: RuntimeState, h: usize) -> NrtResult<usize> {
    match ready_result(s) {
        Err(e) => Err(e),
        Ok(_) => Ok(h),
    }
}

/// The plan of a call that uses a binding table: as for any call with the
/// handle, then the table must have been made for this model (`NRT_INVALID`
/// otherwise).
pub open spec fn table_plan(s: RuntimeState, h: usize, io_model: usize) -> NrtResult<usize> {
    match call_plan(s, h) {
        Err(e) => Err(e),
        Ok(x) => if io_model != x {
            Err(NrtError::NRT_INVALID)
        } else {
            Ok(x)
        },
    }
}

/// The plan of an execution: as for any call with the table, then every
/// input must be bound (`NRT_EXEC_BAD_INPUT` otherwise).
pub open spec fn execute_plan(s: RuntimeState, h: usize, io_model: usize, bound: bool) -> NrtResult<usize> {
    match table_plan(s, h, io_model) {
        Err(e) => Err(e),
        Ok(x) => if !bound {
            Err(NrtError::NRT_EXEC_BAD_INPUT)
        } else {
            Ok(x)
        },
    }
}

/// A validated load, ready to be handed to the foreign loader and then
/// completed with `Model::from_neff_file`.
#[derive(Debug)]
pub struct LoadRequest {
    neff_size: usize,
    start_vnc: i32,
    vnc_count: i32,
}

impl View for LoadRequest {
    type V = (usize, i32, i32);

    closed spec fn view(&self) -> (usize, i32, i32) {
        (self.neff_size, self.start_vnc, self.vnc_count)
    }
}

impl LoadRequest {
    /// The size in bytes of the mapped artifact.
    pub fn neff_size(&self) -> (r: usize)
        ensures
            r == self@.0,
    {
        self.neff_size
    }

    /// The first core of the requested range.
    pub fn start_vnc(&self) -> (r: i32)
        ensures
            r == self@.1,
    {
        self.start_vnc
    }

    /// The number of cores requested.
    pub fn vnc_count(&self) -> (r: i32)
        ensures
            r == self@.2,
    {
        self.vnc_count
    }
}

/// A model loaded onto a range of cores. It owns one live foreign handle;
/// unloading consumes the model, so no call can be written with it after.
#[derive(Debug)]
pub struct Model {
    handle: usize,
    neff_size: usize,
    start_vnc: i32,
    vnc_count: i32,
}

impl Model {
    #[verifier::type_invariant]
    closed spec fn handle_set(&self) -> bool {
        self.handle != 0
    }

    /// The foreign handle.
    pub closed spec fn spec_handle(&self) -> usize {
        self.handle
    }

    /// The size in bytes of the artifact the model was loaded from, the first
    /// core and the number of cores.
    pub closed spec fn spec_placement(&self) -> (usize, i32, i32) {
        (self.neff_size, self.start_vnc, self.vnc_count)
    }

    /// Plans a load. `mapped` is the outcome of mapping the artifact: its
    /// size, or the error that mapping it gave. A context that is not
    /// initialised, or an artifact that could not be mapped, refuses the load
    /// with no request, so the foreign loader is never called.
    pub fn begin_load(
        ctx: &RuntimeContext,
        mapped: NrtResult<usize>,
        start_vnc: i32,
        vnc_count: i32,
    ) -> (r: NrtResult<LoadRequest>)
        ensures
            mapped is Err ==> r is Err,
            r is Err ==> r->Err_0 == load_plan(ctx.spec_state(), mapped)->Err_0,
            r is Ok <==> load_plan(ctx.spec_state(), mapped) is Ok,
            r matches Ok(req) ==> req@ == (mapped->Ok_0, start_vnc, vnc_count),
    {
        ctx.ready()?;
        let neff_size = mapped?;
        Ok(LoadRequest { neff_size, start_vnc, vnc_count })
    }

    /// Completes a load with the status and handle that the foreign loader
    /// reported: on status 0 a model owning `handle`, else the classified
    /// error (for instance `NRT_LOAD_NOT_ENOUGH_NC` when the core range is
    /// not available). A null handle reported with status 0 is
    /// `NRT_INVALID_HANDLE`.
    pub fn from_neff_file(req: LoadRequest, status: u32, handle: usize) -> (r: NrtResult<Model>)
        ensures
            r is Ok <==> status == 0 && handle != 0,
            r matches Ok(m) ==> m.spec_handle() == handle && m.spec_placement() == req@,
            status != 0 ==> r == Err::<Model, NrtError>(classify(status)),
            status == 0 && handle == 0 ==> r == Err::<Model, NrtError>(NrtError::NRT_INVALID_HANDLE),
    {
        if status != 0 {
            return Err(NrtError::from_status(status));
        }
        if handle == 0 {
            return Err(NrtError::NRT_INVALID_HANDLE);
        }
        Ok(
            Model {
                handle,
                neff_size: req.neff_size,
                start_vnc: req.start_vnc,
                vnc_count: req.vnc_count,
            },
        )
    }

    /// The foreign handle, which is never null.
    pub fn handle(&self) -> (r: usize)
        ensures
            r == self.spec_handle(),
            r != 0,
    {
        proof {
            use_type_invariant(self);
        }
        self.handle
    }

    /// The size in bytes of the artifact the model was loaded from.
    pub fn neff_size(&self) -> (r: usize)
        ensures
            r == self.spec_placement().0,
    {
        self.neff_size
    }

    /// The first core of the model's range.
    pub fn start_vnc(&self) -> (r: i32)
        ensures
            r == self.spec_placement().1,
    {
        self.start_vnc
    }

    /// The number of cores of the model's range.
    pub fn vnc_count(&self) -> (r: i32)
        ensures
            r == self.spec_placement().2,
    {
        self.vnc_count
    }

    /// Plans a call with the model's handle, such as the signature query:
    /// the handle when the context is initialised, else the error and no
    /// handle.
    pub fn begin_call(&self, ctx: &RuntimeContext) -> (r: NrtResult<usize>)
        ensures
            r == call_plan(ctx.spec_state(), self.spec_handle()),
    {
        ctx.ready()?;
        Ok(self.handle)
    }

    /// Completes the signature query with its status and the slots it
    /// reported: a fresh binding table for this model with every declared
    /// slot unbound.
    pub fn get_new_io_tensors(&self, status: u32, raw: &Vec<NrtTensorInfo>) -> (r: NrtResult<
        IoTensors,
    >)
        ensures
            status != 0 ==> r == Err::<IoTensors, NrtError>(classify(status)),
            status == 0 ==> (r is Ok <==> signature_valid(raw@)),
            r matches Ok(io) ==> io.spec_model() == self.spec_handle() && table_of(io@, raw@),
            status == 0 && r is Err ==> r->Err_0 == NrtError::NRT_INVALID,
    {
        if status != 0 {
            return Err(NrtError::from_status(status));
        }
        IoTensors::from_signature(self.handle, raw)
    }

    /// Plans binding `buffer` to the slot named `name` of `io` for `usage`:
    /// the context must be initialised, the table made for this model
    /// (`NRT_INVALID` otherwise) and the binding must pass the table's checks
    /// (`NRT_INVALID` otherwise). On success the request names this model's
    /// handle, the slot and the buffer for the foreign bind.
    pub fn begin_bind(
        &self,
        ctx: &RuntimeContext,
        io: &IoTensors,
        name: &str,
        usage: TensorUsage,
        buffer: HostBuffer,
    ) -> (r: NrtResult<BindRequest>)
        ensures
            table_plan(ctx.spec_state(), self.spec_handle(), io.spec_model()) is Err ==> r is Err
                && r->Err_0 == table_plan(ctx.spec_state(), self.spec_handle(), io.spec_model())->Err_0,
            table_plan(ctx.spec_state(), self.spec_handle(), io.spec_model()) is Ok ==> {
                &&& r is Ok <==> io.check_binding_spec(name@, usage, buffer.len)
                &&& r matches Err(e) ==> e == NrtError::NRT_INVALID
            },
            r matches Ok(req) ==> {
                &&& req@.0 == self.spec_handle()
                &&& req@.2 == usage
                &&& req@.3 == buffer
                &&& request_fits(req@, io.spec_model(), io@)
                &&& io@[req@.1 as int].info.name@ == name@
            },
    {
        let h = self.begin_call(ctx)?;
        if io.model() != h {
            return Err(NrtError::NRT_INVALID);
        }
        io.bind(name, usage, buffer)
    }

    /// Plans an execution: the handle when the context is initialised, the
    /// table made for this model and every input slot bound. A missing input
    /// is `NRT_EXEC_BAD_INPUT`, and no foreign execution follows any refusal.
    pub fn begin_execute(&self, ctx: &RuntimeContext, io: &IoTensors) -> (r: NrtResult<usize>)
        ensures
            r == execute_plan(ctx.spec_state(), self.spec_handle(), io.spec_model(), inputs_bound(io@)),
    {
        let h = self.begin_call(ctx)?;
        if io.model() != h {
            return Err(NrtError::NRT_INVALID);
        }
        if !io.all_inputs_bound() {
            return Err(NrtError::NRT_EXEC_BAD_INPUT);
        }
        Ok(h)
    }

    /// Completes an execution with the status the foreign runtime reported.
    /// The bindings of the round end with it, whatever the status.
    pub fn finish_execute(&self, io: &mut IoTensors, status: u32) -> (r: NrtResult<()>)
        ensures
            r == status_result((), status),
            final(io).spec_model() == old(io).spec_model(),
            final(io)@.len() == old(io)@.len(),
            forall|i: int|
                0 <= i < old(io)@.len() ==> (#[trigger] final(io)@[i]).info == old(io)@[i].info
                    && final(io)@[i].binding is None,
    {
        io.clear_bindings();
        nrt_result((), status)
    }

    /// Tears the model down. It is consumed, so no later call can name it.
    /// The result is the handle to pass to the foreign unload, or the guard's
    /// error when the runtime is not initialised (a closed runtime has torn
    /// its models down already), in which case no unload is made.
    pub fn unload(self, ctx: &RuntimeContext) -> (r: NrtResult<usize>)
        ensures
            r == call_plan(ctx.spec_state(), self.spec_handle()),
    {
        ctx.ready()?;
        Ok(self.handle)
    }
}

/// After the runtime is closed every data-path plan is refused with
/// `NRT_CLOSED`, so no foreign call follows.
pub proof fn lemma_closed_refuses(mapped: NrtResult<usize>, h: usize, io_model: usize, bound: bool)
    ensures
        ready_result(RuntimeState::Closed) == Err::<(), NrtError>(NrtError::NRT_CLOSED),
        init_plan(RuntimeState::Closed) == Err::<(), NrtError>(NrtError::NRT_CLOSED),
        load_plan(RuntimeState::Closed, mapped) == Err::<usize, NrtError>(NrtError::NRT_CLOSED),
        call_plan(RuntimeState::Closed, h) == Err::<usize, NrtError>(NrtError::NRT_CLOSED),
        table_plan(RuntimeState::Closed, h, io_model) == Err::<usize, NrtError>(NrtError::NRT_CLOSED),
        execute_plan(RuntimeState::Closed, h, io_model, bound) == Err::<usize, NrtError>(
            NrtError::NRT_CLOSED,
        ),
{
}

} // verus!
