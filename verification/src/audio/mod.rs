//! Audio processing that is independent of the capture device and the
//! floating-point signal path: framing PCM for the codecs and the codecs'
//! stream properties.
pub mod capture;
pub mod framing;
pub mod meter;
pub mod pump;
pub mod encoder;
