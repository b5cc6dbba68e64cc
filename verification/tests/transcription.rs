use voice_everywhere::transcription::{
    check_export_extension, check_model_selected, check_not_recording, ExportError,
    ModelLoadStatus, TranscriptionRequestError,
};

#[test]
fn file_transcription_waits_for_dictation_and_a_model() {
    assert_eq!(check_not_recording(false), Ok(()));
    assert_eq!(
        check_not_recording(true),
        Err(TranscriptionRequestError::RecordingInProgress)
    );
    assert_eq!(check_model_selected("small"), Ok(()));
    assert_eq!(
        check_model_selected(""),
        Err(TranscriptionRequestError::NoModelSelected)
    );
}

#[test]
fn exports_need_a_txt_extension() {
    assert_eq!(check_export_extension(Some("txt")), Ok(()));
    assert_eq!(check_export_extension(Some("TXT")), Err(ExportError::NotATextFile));
    assert_eq!(check_export_extension(Some("md")), Err(ExportError::NotATextFile));
    assert_eq!(check_export_extension(None), Err(ExportError::NotATextFile));
}

#[test]
fn model_status_carries_the_model() {
    let status = ModelLoadStatus::new(true, Some("medium-q8".to_string()));
    assert!(status.is_loaded);
    assert_eq!(status.current_model.as_deref(), Some("medium-q8"));
}
