//! A safe handle to a Direct3D 11 device, with its lifecycle stated and proved:
//! the capability gate, creation from the native outcome, the health query and
//! the exclusive borrow handed to native texture routines.
mod config;
mod d3d11;
mod error;

pub use config::{
    BuildConfig, CreationRequest, CREATE_DEVICE_DEBUG, CREATE_DEVICE_NONE, DRIVER_TYPE_HARDWARE,
    FEATURE_LEVEL_10_0, FEATURE_LEVEL_10_1, FEATURE_LEVEL_11_0, SDK_VERSION,
};
pub use config::feature_level_order;
pub use d3d11::{
    borrowed, creation_outcome, healthy, initialized, lemma_failed_creation_reports_native_code,
    lemma_removal_keeps_ownership, lemma_successful_creation_initializes,
    lemma_unavailable_build_never_initializes, lemma_unavailable_handle_is_inert, result_is,
    D3D11Device, DeviceState,
};
pub use error::HResultError;
