//! Option handling for a GVR texture encoder front end: the format catalog,
//! the validation of option combinations, the configuration of the codec's
//! encoder, and the text of the outcome report.

pub mod codec;
pub mod encoder;
pub mod formats;
pub mod report;
pub mod request;
