use vstd::prelude::*;

verus! {

/// Every failure the program can report. Failures raised by outside
/// libraries carry their message as text.
#[derive(Debug, PartialEq, Eq)]
pub enum HideError {
    FakeCameraMissing,
    NoCameraFormats,
    IoError(String),
    ImageError(String),
    IntError,
    TensorflowError(String),
    Webcam(String),
    CacheDirError,
    ModelDownloadError(String),
    InvalidModel(String),
    ModelUnzipError(String),
    Other(String),
}

pub type HideResult<T> = Result<T, HideError>;

} // verus!
