//! What the platforms need decided for them.
pub mod laws;
pub mod ohos_decoder;
pub mod ohos_worker;
pub mod windows_bitrate;
pub mod windows_input;
