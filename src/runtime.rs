//! The process-wide runtime context: its lifecycle state machine and the
//! version it reports.
use vstd::prelude::*;
use crate::cstr::{c_str_text, c_str_valid, decode_c_str};
use crate::error::{classify, status_result, NrtError, NrtResult};

verus! {

/// The lifecycle of the runtime: initialised once, closed once.
#[derive(Debug, Clone, Copy, PartialEq, Eq, Structural)]
pub enum RuntimeState {
    Uninitialized,
    Initialized,
    Closed,
}

/// What the data-path guard answers in a state: go ahead only when
/// initialised, else the error that names the state.
pub open spec fn ready_result(s: RuntimeState) -> NrtResult<()> {
    match s {
        RuntimeState::Initialized => Ok(()),
        RuntimeState::Uninitialized => Err(NrtError::NRT_UNINITIALIZED),
        RuntimeState::Closed => Err(NrtError::NRT_CLOSED),
    }
}

/// Whether the foreign initialisation may be made in a state: only once,
/// before the runtime was ever initialised.
pub open spec fn init_plan(s: RuntimeState) -> NrtResult<()> {
    match s {
        RuntimeState::Uninitialized => Ok(()),
        RuntimeState::Initialized => Err(NrtError::NRT_INVALID),
        RuntimeState::Closed => Err(NrtError::NRT_CLOSED),
    }
}

/// The version record as the foreign runtime fills it: four numbers and two
/// NUL-terminated text fields.
#[derive(Debug)]
pub struct RawVersion {
    pub rt_major: u64,
    pub rt_minor: u64,
    pub rt_patch: u64,
    pub rt_maintenance: u64,
    pub rt_detail: Vec<u8>,
    pub git_hash: Vec<u8>,
}

/// The runtime's version.
#[derive(Debug, PartialEq)]
pub struct NrtVersionInfo {
    pub rt_major: u64,
    pub rt_minor: u64,
    pub rt_patch: u64,
    pub rt_maintenance: u64,
    pub rt_detail: String,
    pub git_hash: String,
}

impl Clone for NrtVersionInfo {
    fn clone(&self) -> (r: NrtVersionInfo)
        ensures
            r == *self,
    {
        NrtVersionInfo {
            rt_major: self.rt_major,
            rt_minor: self.rt_minor,
            rt_patch: self.rt_patch,
            rt_maintenance: self.rt_maintenance,
            rt_detail: self.rt_detail.clone(),
            git_hash: self.git_hash.clone(),
        }
    }
}

/// Whether both text fields of a version record decode.
pub open spec fn version_decodes(raw: RawVersion) -> bool {
    c_str_valid(raw.rt_detail@) && c_str_valid(raw.git_hash@)
}

/// Whether `v` is what the version record `raw` decodes to.
pub open spec fn version_decoded_from(v: NrtVersionInfo, raw: RawVersion) -> bool {
    &&& v.rt_major == raw.rt_major
    &&& v.rt_minor == raw.rt_minor
    &&& v.rt_patch == raw.rt_patch
    &&& v.rt_maintenance == raw.rt_maintenance
    &&& v.rt_detail@ == c_str_text(raw.rt_detail@)
    &&& v.git_hash@ == c_str_text(raw.git_hash@)
}

impl NrtVersionInfo {
    /// Decodes the version record that the foreign runtime filled. Fails with
    /// `NRT_INVALID` when a text field is not UTF-8.
    pub fn from_raw(raw: &RawVersion) -> (r: NrtResult<NrtVersionInfo>)
        ensures
            r is Ok <==> version_decodes(*raw),
            r matches Ok(v) ==> version_decoded_from(v, *raw),
            r matches Err(e) ==> e == NrtError::NRT_INVALID,
    {
        let rt_detail = decode_c_str(raw.rt_detail.as_slice())?;
        let git_hash = decode_c_str(raw.git_hash.as_slice())?;
        Ok(
            NrtVersionInfo {
                rt_major: raw.rt_major,
                rt_minor: raw.rt_minor,
                rt_patch: raw.rt_patch,
                rt_maintenance: raw.rt_maintenance,
                rt_detail,
                git_hash,
            },
        )
    }
}

/// How a version request moves the cached version `before` to `after` and
/// answers `r`, given the status and record of the foreign query. A cached
/// version is answered again as it is; otherwise the query decides.
pub open spec fn version_step(
    before: Option<NrtVersionInfo>,
    status: u32,
    raw: RawVersion,
    r: NrtResult<NrtVersionInfo>,
    after: Option<NrtVersionInfo>,
) -> bool {
    match before {
        Some(v) => r == Ok::<NrtVersionInfo, NrtError>(v) && after == before,
        None => if status != 0 {
            r == Err::<NrtVersionInfo, NrtError>(classify(status)) && after is None
        } else {
            &&& r is Ok <==> version_decodes(raw)
            &&& r matches Ok(v) ==> version_decoded_from(v, raw) && after == Some(v)
            &&& r matches Err(e) ==> e == NrtError::NRT_INVALID && after is None
        },
    }
}

/// The process-wide runtime context. It answers every data-path request
/// with the error of its state unless it is initialised, and it keeps the
/// first version it reported.
#[derive(Debug)]
pub struct RuntimeContext {
    state: RuntimeState,
    version: Option<NrtVersionInfo>,
}

impl RuntimeContext {
    /// The lifecycle state.
    pub closed spec fn spec_state(&self) -> RuntimeState {
        self.state
    }

    /// The version reported so far in this session, if any.
    pub closed spec fn spec_version(&self) -> Option<NrtVersionInfo> {
        self.version
    }

    /// A context that has not been initialised.
    pub fn new() -> (r: RuntimeContext)
        ensures
            r.spec_state() == RuntimeState::Uninitialized,
            r.spec_version() is None,
    {
        RuntimeContext { state: RuntimeState::Uninitialized, version: None }
    }

    /// The lifecycle state.
    pub fn state(&self) -> (r: RuntimeState)
        ensures
            r == self.spec_state(),
    {
        self.state
    }

    /// The data-path guard: `Ok` when initialised, `NRT_UNINITIALIZED` before
    /// initialisation and `NRT_CLOSED` after closing.
    pub fn ready(&self) -> (r: NrtResult<()>)
        ensures
            r == ready_result(self.spec_state()),
    {
        match self.state {
            RuntimeState::Initialized => Ok(()),
            RuntimeState::Uninitialized => Err(NrtError::NRT_UNINITIALIZED),
            RuntimeState::Closed => Err(NrtError::NRT_CLOSED),
        }
    }

    /// Whether the foreign initialisation may be made now. Initialising twice
    /// is refused with `NRT_INVALID`, and after closing with `NRT_CLOSED`.
    pub fn begin_init(&self) -> (r: NrtResult<()>)
        ensures
            r == init_plan(self.spec_state()),
    {
        match self.state {
            RuntimeState::Uninitialized => Ok(()),
            RuntimeState::Initialized => Err(NrtError::NRT_INVALID),
            RuntimeState::Closed => Err(NrtError::NRT_CLOSED),
        }
    }

    /// Records the status of the foreign initialisation: on status 0 the
    /// context is initialised.
    pub fn finish_init(&mut self, status: u32) -> (r: NrtResult<()>)
        requires
            old(self).spec_state() == RuntimeState::Uninitialized,
        ensures
            r == status_result((), status),
            final(self).spec_state() == if status == 0 {
                RuntimeState::Initialized
            } else {
                RuntimeState::Uninitialized
            },
            final(self).spec_version() is None,
    {
        self.version = None;
        if status == 0 {
            self.state = RuntimeState::Initialized;
            Ok(())
        } else {
            Err(NrtError::from_status(status))
        }
    }

    /// Records the status of the foreign close. The context is closed
    /// whatever the status, and the classified error is reported.
    pub fn finish_close(&mut self, status: u32) -> (r: NrtResult<()>)
        requires
            old(self).spec_state() == RuntimeState::Initialized,
        ensures
            r == status_result((), status),
            final(self).spec_state() == RuntimeState::Closed,
            final(self).spec_version() is None,
    {
        self.state = RuntimeState::Closed;
        self.version = None;
        crate::error::nrt_result((), status)
    }

    /// The first step of a version request: the guard's error when not
    /// initialised, else the version already reported in this session. Only
    /// `Ok(None)` calls for the foreign query.
    pub fn cached_version(&self) -> (r: NrtResult<Option<NrtVersionInfo>>)
        ensures
            self.spec_state() != RuntimeState::Initialized ==> r == Err::<
                Option<NrtVersionInfo>,
                NrtError,
            >(ready_result(self.spec_state())->Err_0),
            self.spec_state() == RuntimeState::Initialized ==> r == Ok::<
                Option<NrtVersionInfo>,
                NrtError,
            >(self.spec_version()),
    {
        self.ready()?;
        match &self.version {
            Some(v) => Ok(Some(v.clone())),
            None => Ok(None),
        }
    }

    /// Completes a version request with the status and record of the foreign
    /// query. A version already reported in this session is answered again
    /// unchanged; otherwise the first one decoded is kept.
    pub fn finish_version(&mut self, status: u32, raw: &RawVersion) -> (r: NrtResult<NrtVersionInfo>)
        requires
            old(self).spec_state() == RuntimeState::Initialized,
        ensures
            version_step(old(self).spec_version(), status, *raw, r, final(self).spec_version()),
            final(self).spec_state() == RuntimeState::Initialized,
    {
        match &self.version {
            Some(v) => {
                return Ok(v.clone());
            },
            None => {},
        }
        if status != 0 {
            return Err(NrtError::from_status(status));
        }
        let v = NrtVersionInfo::from_raw(raw)?;
        self.version = Some(v.clone());
        Ok(v)
    }
}

/// Within one initialised session the version answered by the runtime does
/// not change: once a version request has succeeded, every later request
/// answers the same value and keeps the same cache, whatever the foreign
/// query would report.
pub proof fn lemma_version_repeats(
    c0: Option<NrtVersionInfo>,
    s1: u32,
    raw1: RawVersion,
    r1: NrtResult<NrtVersionInfo>,
    c1: Option<NrtVersionInfo>,
    s2: u32,
    raw2: RawVersion,
    r2: NrtResult<NrtVersionInfo>,
    c2: Option<NrtVersionInfo>,
)
    requires
        version_step(c0, s1, raw1, r1, c1),
        r1 is Ok,
        version_step(c1, s2, raw2, r2, c2),
    ensures
        c1 == Some(r1->Ok_0),
        r2 == r1,
        c2 == c1,
{
}

} // verus!
