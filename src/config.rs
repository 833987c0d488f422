use vstd::prelude::*;

verus! {

/// Driver selection that prefers a hardware adapter.
pub const DRIVER_TYPE_HARDWARE: i32 = 1;

/// No extra creation flags.
pub const CREATE_DEVICE_NONE: u32 = 0;

/// Creation flag that asks the native layer for its validation layer.
pub const CREATE_DEVICE_DEBUG: u32 = 2;

/// Feature level 11.0, the most capable one that is requested.
pub const FEATURE_LEVEL_11_0: i32 = 45056;

/// Feature level 10.1.
pub const FEATURE_LEVEL_10_1: i32 = 41216;

/// Feature level 10.0, the last fallback.
pub const FEATURE_LEVEL_10_0: i32 = 40960;

/// The API version constant handed to device creation.
pub const SDK_VERSION: u32 = 7;

/// What the build provides: the platform, the backend feature, and whether the
/// native validation layer is wanted (as in a debug build).
#[derive(PartialEq, Eq, Structural, Clone, Copy, Debug)]
pub struct BuildConfig {
    pub windows: bool,
    pub d3d11_feature: bool,
    pub validate: bool,
}

impl BuildConfig {
    /// The native backend is present when the platform and the feature are both there.
    pub open spec fn backend_present(self) -> bool {
        self.windows && self.d3d11_feature
    }

    /// The creation flags requested for this configuration.
    pub open spec fn flags_spec(self) -> u32 {
        if self.validate {
            CREATE_DEVICE_DEBUG
        } else {
            CREATE_DEVICE_NONE
        }
    }
}

/// The feature levels requested, most capable first.
pub open spec fn feature_level_order() -> Seq<i32> {
    seq![FEATURE_LEVEL_11_0, FEATURE_LEVEL_10_1, FEATURE_LEVEL_10_0]
}

/// The arguments of one native device-creation call.
#[derive(Clone, Debug)]
pub struct CreationRequest {
    pub driver_type: i32,
    pub flags: u32,
    pub feature_levels: Vec<i32>,
    pub sdk_version: u32,
}

impl CreationRequest {
    /// The request that device creation makes under `config`.
    pub open spec fn is_request_for(&self, config: BuildConfig) -> bool {
        &&& self.driver_type == DRIVER_TYPE_HARDWARE
        &&& self.flags == config.flags_spec()
        &&& self.feature_levels@ == feature_level_order()
        &&& self.sdk_version == SDK_VERSION
    }

    /// Builds the native creation request: hardware driver, the ordered fallback
    /// list of feature levels, and the validation flag when `config` asks for it.
    pub fn for_config(config: &BuildConfig) -> (r: CreationRequest)
        ensures
            r.is_request_for(*config),
    {
        let flags: u32 = if config.validate {
            CREATE_DEVICE_DEBUG
        } else {
            CREATE_DEVICE_NONE
        };
        let mut feature_levels: Vec<i32> = Vec::new();
        feature_levels.push(FEATURE_LEVEL_11_0);
        feature_levels.push(FEATURE_LEVEL_10_1);
        feature_levels.push(FEATURE_LEVEL_10_0);
        assert(feature_levels@ =~= feature_level_order());
        CreationRequest {
            driver_type: DRIVER_TYPE_HARDWARE,
            flags,
            feature_levels,
            sdk_version: SDK_VERSION,
        }
    }
}

} // verus!
