//! Runtime-allocated tensors: storage that the runtime owns until a caller
//! buffer is bound in its place.
use vstd::prelude::*;
use crate::error::{classify, status_result, NrtError, NrtResult};
use crate::model::call_plan;
use crate::runtime::RuntimeContext;
use crate::tensor::{HostBuffer, TensorInfo, TensorPlacement};

verus! {

/// The plan of binding a caller buffer to an allocated tensor: as for any
/// call with the tensor's handle, then the buffer must hold the declared
/// size (`NRT_INVALID` otherwise).
pub open spec fn tensor_bind_plan(
    ctx: &RuntimeContext,
    h: usize,
    size: usize,
    buffer: HostBuffer,
) -> NrtResult<usize> {
    match call_plan(ctx.spec_state(), h) {
        Err(e) => Err(e),
        Ok(x) => if buffer.len < size {
            Err(NrtError::NRT_INVALID)
        } else {
            Ok(x)
        },
    }
}

/// A tensor allocated by the runtime for one declared slot. While it owns
/// its storage the runtime frees that storage with the tensor; binding a
/// caller buffer hands that responsibility to the caller for good. Freeing
/// consumes the tensor.
#[derive(Debug)]
pub struct NrtTensor {
    handle: usize,
    placement: TensorPlacement,
    nc_id: u32,
    info: TensorInfo,
    has_owned_storage: bool,
    binding: Option<HostBuffer>,
}

impl NrtTensor {
    #[verifier::type_invariant]
    closed spec fn handle_set(&self) -> bool {
        self.handle != 0
    }

    /// The foreign tensor handle.
    pub closed spec fn spec_handle(&self) -> usize {
        self.handle
    }

    /// Where the storage was allocated and on which core.
    pub closed spec fn spec_location(&self) -> (TensorPlacement, u32) {
        (self.placement, self.nc_id)
    }

    /// The declared slot the tensor was allocated for.
    pub closed spec fn spec_info(&self) -> TensorInfo {
        self.info
    }

    /// Whether the runtime still owns the tensor's storage.
    pub closed spec fn spec_owned(&self) -> bool {
        self.has_owned_storage
    }

    /// The caller buffer bound in place of the runtime's storage, if any.
    pub closed spec fn spec_binding(&self) -> Option<HostBuffer> {
        self.binding
    }

    /// Completes an allocation with the status and handle that the foreign
    /// allocator reported: on status 0 a tensor that owns its storage, else
    /// the classified error. A null handle reported with status 0 is
    /// `NRT_INVALID_HANDLE`.
    pub fn from_tensor_info_t(
        placement: TensorPlacement,
        nc_id: u32,
        info: TensorInfo,
        status: u32,
        handle: usize,
    ) -> (r: NrtResult<NrtTensor>)
        ensures
            r is Ok <==> status == 0 && handle != 0,
            r matches Ok(t) ==> {
                &&& t.spec_handle() == handle
                &&& t.spec_location() == (placement, nc_id)
                &&& t.spec_info() == info
                &&& t.spec_owned()
                &&& t.spec_binding() is None
            },
            status != 0 ==> r == Err::<NrtTensor, NrtError>(classify(status)),
            status == 0 && handle == 0 ==> r == Err::<NrtTensor, NrtError>(
                NrtError::NRT_INVALID_HANDLE,
            ),
    {
        if status != 0 {
            return Err(NrtError::from_status(status));
        }
        if handle == 0 {
            return Err(NrtError::NRT_INVALID_HANDLE);
        }
        Ok(NrtTensor { handle, placement, nc_id, info, has_owned_storage: true, binding: None })
    }

    /// The foreign tensor handle, which is never null.
    pub fn handle(&self) -> (r: usize)
        ensures
            r == self.spec_handle(),
            r != 0,
    {
        proof {
            use_type_invariant(self);
        }
        self.handle
    }

    /// Where the storage was allocated.
    pub fn placement(&self) -> (r: TensorPlacement)
        ensures
            r == self.spec_location().0,
    {
        self.placement
    }

    /// The core the storage was allocated on.
    pub fn nc_id(&self) -> (r: u32)
        ensures
            r == self.spec_location().1,
    {
        self.nc_id
    }

    /// The declared slot the tensor was allocated for.
    pub fn info(&self) -> (r: &TensorInfo)
        ensures
            *r == self.spec_info(),
    {
        &self.info
    }

    /// Whether the runtime still owns the tensor's storage.
    pub fn has_owned_storage(&self) -> (r: bool)
        ensures
            r == self.spec_owned(),
    {
        self.has_owned_storage
    }

    /// The caller buffer bound in place of the runtime's storage, if any.
    pub fn binding(&self) -> (r: Option<HostBuffer>)
        ensures
            r == self.spec_binding(),
    {
        self.binding
    }

    /// Plans binding `buffer` in place of the tensor's storage: the handle
    /// when the context is initialised and the buffer no shorter than the
    /// declared size; else the error and no handle.
    pub fn bind(&self, ctx: &RuntimeContext, buffer: HostBuffer) -> (r: NrtResult<usize>)
        ensures
            r == tensor_bind_plan(ctx, self.spec_handle(), self.spec_info().size, buffer),
    {
        ctx.ready()?;
        if buffer.len < self.info.size {
            return Err(NrtError::NRT_INVALID);
        }
        Ok(self.handle)
    }

    /// Completes a bind with the status the foreign runtime reported. On
    /// status 0 the buffer is bound and the runtime no longer owns the
    /// storage; otherwise nothing changes.
    pub fn commit_bind(&mut self, buffer: HostBuffer, status: u32) -> (r: NrtResult<()>)
        requires
            buffer.len >= old(self).spec_info().size,
        ensures
            r == status_result((), status),
            final(self).spec_handle() == old(self).spec_handle(),
            final(self).spec_location() == old(self).spec_location(),
            final(self).spec_info() == old(self).spec_info(),
            final(self).spec_owned() == (old(self).spec_owned() && status != 0),
            final(self).spec_binding() == if status == 0 {
                Some(buffer)
            } else {
                old(self).spec_binding()
            },
    {
        if status != 0 {
            return Err(NrtError::from_status(status));
        }
        proof {
            use_type_invariant(&*self);
        }
        self.has_owned_storage = false;
        self.binding = Some(buffer);
        Ok(())
    }

    /// Frees the tensor. It is consumed, so no later call can name it. The
    /// result is the handle to pass to the foreign free, or the guard's error
    /// when the runtime is not initialised, in which case no free is made.
    pub fn release(self, ctx: &RuntimeContext) -> (r: NrtResult<usize>)
        ensures
            r == call_plan(ctx.spec_state(), self.spec_handle()),
    {
        ctx.ready()?;
        Ok(self.handle)
    }
}

} // verus!
