//! The checks that guard file transcription and the export of its text, and
//! the model status reported to the settings page.
use vstd::prelude::*;
use crate::text::str_equals;

verus! {

/// Whether a transcription model is loaded, and which.
#[derive(Debug, PartialEq, Eq)]
pub struct ModelLoadStatus {
    pub is_loaded: bool,
    pub current_model: Option<String>,
}

impl ModelLoadStatus {
    pub fn new(is_loaded: bool, current_model: Option<String>) -> (r: Self)
        ensures
            r.is_loaded == is_loaded,
            r.current_model == current_model,
    {
        ModelLoadStatus { is_loaded, current_model }
    }
}

/// Why a file transcription request is refused.
#[derive(Clone, Copy, Debug, PartialEq, Eq, Structural)]
pub enum TranscriptionRequestError {
    /// Dictation is recording; it must stop first.
    RecordingInProgress,
    /// No transcription model is selected.
    NoModelSelected,
}

/// A file is transcribed only while no dictation is recording.
pub fn check_not_recording(is_recording: bool) -> (r: Result<(), TranscriptionRequestError>)
    ensures
        r == (if is_recording {
            Err(TranscriptionRequestError::RecordingInProgress)
        } else {
            Ok(())
        }),
{
    if is_recording {
        Err(TranscriptionRequestError::RecordingInProgress)
    } else {
        Ok(())
    }
}

/// A file is transcribed only when a model is selected (a non-empty name).
pub fn check_model_selected(selected_model: &str) -> (r: Result<(), TranscriptionRequestError>)
    ensures
        r == (if selected_model@.len() == 0 {
            Err(TranscriptionRequestError::NoModelSelected)
        } else {
            Ok(())
        }),
{
    if selected_model.is_empty() {
        Err(TranscriptionRequestError::NoModelSelected)
    } else {
        Ok(())
    }
}

/// Why a transcription export is refused.
#[derive(Clone, Copy, Debug, PartialEq, Eq, Structural)]
pub enum ExportError {
    /// The chosen file does not have the `.txt` extension.
    NotATextFile,
}

/// Transcriptions are exported only to files whose extension is exactly
/// `txt` (case-sensitive); `extension` is the path's extension, if any.
pub fn check_export_extension(extension: Option<&str>) -> (r: Result<(), ExportError>)
    ensures
        r == (if extension matches Some(e) && e@ == "txt"@ {
            Ok(())
        } else {
            Err(ExportError::NotATextFile)
        }),
{
    match extension {
        Some(e) => if str_equals(e, "txt") {
            Ok(())
        } else {
            Err(ExportError::NotATextFile)
        },
        None => Err(ExportError::NotATextFile),
    }
}

} // verus!
