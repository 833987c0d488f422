use crate::config::{BuildConfig, CreationRequest};
use crate::error::HResultError;
use vstd::prelude::*;

verus! {

/// Where a device handle stands in its lifecycle.
///
/// `Unavailable` is the only state of a handle made on a build without the
/// native backend. `Empty` is a handle of a build with the backend on which no
/// device was created. `Initialized` owns exactly one native device object.
#[derive(Debug)]
pub enum DeviceState<D> {
    Unavailable,
    Empty,
    Initialized(D),
}

/// The handle owns a native device object exactly when it is in `Initialized`.
pub open spec fn initialized<D>(s: DeviceState<D>) -> bool {
    s is Initialized
}

/// Healthy: a device is owned and the native liveness query on it succeeded.
pub open spec fn healthy<D>(s: DeviceState<D>, liveness: Result<(), HResultError>) -> bool {
    initialized(s) && liveness is Ok
}

/// The state after an exclusive borrow through which the owned object became
/// `v`: ownership is unchanged.
pub open spec fn borrowed<D>(s: DeviceState<D>, v: D) -> DeviceState<D> {
    match s {
        DeviceState::Initialized(_) => DeviceState::Initialized(v),
        _ => s,
    }
}

/// The outcome of creation under `config`, given what the native creation call
/// returned (`None` where it was not made).
///
/// Without the backend the outcome is an unavailable handle whatever was passed:
/// no native object is ever wrapped. With it, a native object is wrapped, a
/// native failure is passed on unchanged, and a call not made leaves the handle
/// empty.
pub open spec fn creation_outcome<D>(
    config: BuildConfig,
    native: Option<Result<D, HResultError>>,
) -> Result<DeviceState<D>, HResultError> {
    if !config.backend_present() {
        Ok(DeviceState::Unavailable)
    } else {
        match native {
            None => Ok(DeviceState::Empty),
            Some(Ok(d)) => Ok(DeviceState::Initialized(d)),
            Some(Err(e)) => Err(e),
        }
    }
}

/// On a build without the native backend, creation yields an unavailable handle
/// whatever the native layer would have returned: no native object is wrapped
/// and no error is raised. (`creation_request` gives no call to make there.)
pub proof fn lemma_unavailable_build_never_initializes<D>(
    config: BuildConfig,
    native: Option<Result<D, HResultError>>,
)
    requires
        !config.backend_present(),
    ensures
        creation_outcome(config, native) == Ok::<DeviceState<D>, HResultError>(
            DeviceState::Unavailable,
        ),
        !initialized(DeviceState::<D>::Unavailable),
{
}

/// A creation whose native call returned a device gives an initialized handle
/// that owns that device; no borrow changes whether a handle is initialized,
/// so it stays initialized until it is dropped.
pub proof fn lemma_successful_creation_initializes<D>(config: BuildConfig, d: D)
    requires
        config.backend_present(),
    ensures
        creation_outcome(config, Some(Ok::<D, HResultError>(d))) == Ok::<
            DeviceState<D>,
            HResultError,
        >(DeviceState::Initialized(d)),
        initialized(DeviceState::Initialized(d)),
        forall|s: DeviceState<D>, v: D| #[trigger]
            initialized(borrowed(s, v)) == initialized(s),
{
}

/// A handle made on a build without the native backend is neither initialized
/// nor healthy, whatever the liveness query would report.
pub proof fn lemma_unavailable_handle_is_inert<D>(
    config: BuildConfig,
    native: Option<Result<D, HResultError>>,
    liveness: Result<(), HResultError>,
)
    requires
        !config.backend_present(),
    ensures
        creation_outcome(config, native) matches Ok(s) && !initialized(s) && !healthy(s, liveness),
{
}

/// A native creation failure is passed on unchanged and leaves no handle behind.
pub proof fn lemma_failed_creation_reports_native_code<D>(config: BuildConfig, e: HResultError)
    requires
        config.backend_present(),
    ensures
        creation_outcome(config, Some(Err::<D, HResultError>(e))) == Err::<
            DeviceState<D>,
            HResultError,
        >(e),
{
}

/// A device-removed report turns an initialized handle unhealthy while it stays
/// initialized; a successful liveness query keeps it healthy.
pub proof fn lemma_removal_keeps_ownership<D>(d: D, removed: HResultError)
    ensures
        healthy(DeviceState::Initialized(d), Ok(())),
        !healthy(DeviceState::Initialized(d), Err(removed)),
        initialized(DeviceState::Initialized(d)),
{
}

/// Owns at most one native device object and releases it when dropped.
#[derive(Debug)]
pub struct D3D11Device<D> {
    state: DeviceState<D>,
}

impl<D> View for D3D11Device<D> {
    type V = DeviceState<D>;

    closed spec fn view(&self) -> DeviceState<D> {
        self.state
    }
}

/// The handle `r` carries the state `s`, or both are the same error.
pub open spec fn result_is<D>(
    r: Result<D3D11Device<D>, HResultError>,
    s: Result<DeviceState<D>, HResultError>,
) -> bool {
    match (r, s) {
        (Ok(h), Ok(st)) => h@ == st,
        (Err(e1), Err(e2)) => e1 == e2,
        _ => false,
    }
}

impl<D> D3D11Device<D> {
    /// The capability gate: the native backend is present on this build.
    pub fn is_available(config: &BuildConfig) -> (r: bool)
        ensures
            r == config.backend_present(),
    {
        config.windows && config.d3d11_feature
    }

    /// The native creation call to make under `config`, or `None` where the
    /// backend is absent and no native call may be attempted.
    pub fn creation_request(config: &BuildConfig) -> (r: Option<CreationRequest>)
        ensures
            r is Some <==> config.backend_present(),
            r matches Some(req) ==> req.is_request_for(*config),
    {
        if Self::is_available(config) {
            Some(CreationRequest::for_config(config))
        } else {
            None
        }
    }

    /// Creates the handle from what the native creation call returned for the
    /// request of `creation_request` (`None` where no call was made).
    pub fn new(config: &BuildConfig, native: Option<Result<D, HResultError>>) -> (r: Result<
        Self,
        HResultError,
    >)
        ensures
            result_is(r, creation_outcome(*config, native)),
    {
        if !Self::is_available(config) {
            return Ok(D3D11Device { state: DeviceState::Unavailable });
        }
        match native {
            None => Ok(D3D11Device { state: DeviceState::Empty }),
            Some(Ok(d)) => Ok(D3D11Device { state: DeviceState::Initialized(d) }),
            Some(Err(e)) => Err(e),
        }
    }

    /// A handle of a build without the native backend; it never initializes.
    pub fn unavailable() -> (r: Self)
        ensures
            r@ is Unavailable,
    {
        D3D11Device { state: DeviceState::Unavailable }
    }

    /// True exactly when the handle owns a native device object.
    pub fn is_initialized(&self) -> (r: bool)
        ensures
            r == initialized(self@),
    {
        match &self.state {
            DeviceState::Initialized(_) => true,
            _ => false,
        }
    }

    /// True exactly when a device is owned and `liveness`, the result of the
    /// native device-removed query on it, is a success.
    pub fn is_healthy(&self, liveness: Result<(), HResultError>) -> (r: bool)
        ensures
            r == healthy(self@, liveness),
    {
        self.is_initialized() && liveness.is_ok()
    }

    /// Shared access to the owned native object, for native queries on it.
    pub fn native(&self) -> (r: Option<&D>)
        ensures
            r is Some <==> initialized(self@),
            r matches Some(d) ==> self@ == DeviceState::Initialized(*d),
    {
        match &self.state {
            DeviceState::Initialized(d) => Some(d),
            _ => None,
        }
    }

    /// Exclusive, non-owning access to the native object for a native call.
    /// The handle keeps the object, and its state, whatever the call does with
    /// the borrow.
    pub fn as_ffi_ptr(&mut self) -> (r: Option<&mut D>)
        ensures
            r is Some <==> initialized(old(self)@),
            match old(self)@ {
                DeviceState::Initialized(d) => r matches Some(p) && *p == d
                    && final(self)@ == borrowed(old(self)@, *final(p)),
                _ => r is None && final(self)@ == old(self)@,
            },
    {
        match &mut self.state {
            DeviceState::Initialized(d) => Some(d),
            _ => None,
        }
    }
}

} // verus!
