use convert_server::classify::FileCondition;
use convert_server::pipeline::{
    next_action, response_status, step, Action, ConversionOutcome, ConverterOutcome,
    DownloadError, Event, IntegrityOutcome, Stage, UploadError,
};
use convert_server::workspace::{temp_paths_for_id, ConvertTempPaths};

fn sample_workspace() -> ConvertTempPaths {
    temp_paths_for_id("/tmp/onlyoffice-convert-server", "0123456789abcdef0123456789abcdef")
}

#[test]
fn successful_run_visits_every_stage_and_returns_200() {
    let ws = sample_workspace();
    let s = Stage::WriteConfig;
    assert_eq!(
        next_action(&s, &ws),
        Action::WriteConfigFile { config_path: ws.config_path.clone() }
    );
    let s = step(s, Event::ConfigWritten { ok: true });
    assert_eq!(
        next_action(&s, &ws),
        Action::DownloadSource { input_path: ws.input_path.clone() }
    );
    let s = step(s, Event::Downloaded { result: Ok(()) });
    assert_eq!(
        next_action(&s, &ws),
        Action::RunConverter { config_path: ws.config_path.clone() }
    );
    let s = step(
        s,
        Event::ConverterRan {
            outcome: ConverterOutcome::Exited { code: Some(0), stderr: Vec::new() },
        },
    );
    assert_eq!(
        next_action(&s, &ws),
        Action::UploadOutput { output_path: ws.output_path.clone() }
    );
    let s = step(s, Event::Uploaded { result: Ok(()) });
    assert!(matches!(next_action(&s, &ws), Action::Cleanup { .. }));
    match s {
        Stage::Done(outcome) => {
            assert!(matches!(outcome, ConversionOutcome::Success));
            assert_eq!(response_status(&outcome), 200);
        }
        _ => panic!("run did not finish"),
    }
}

#[test]
fn encrypted_input_run_reports_encrypted_failure_with_500() {
    let ws = sample_workspace();
    let s = Stage::WriteConfig;
    let s = step(s, Event::ConfigWritten { ok: true });
    let s = step(s, Event::Downloaded { result: Ok(()) });
    let stderr: Vec<u8> = b"terminate: std::out_of_range".to_vec();
    let s = step(
        s,
        Event::ConverterRan {
            outcome: ConverterOutcome::Exited { code: Some(0x5b), stderr },
        },
    );
    assert!(matches!(
        next_action(&s, &ws),
        Action::ReadIntegrityPrefix { .. }
    ));
    let s = step(
        s,
        Event::IntegrityChecked { outcome: IntegrityOutcome::Checked(FileCondition::Unknown) },
    );
    assert!(matches!(next_action(&s, &ws), Action::Cleanup { .. }));
    match s {
        Stage::Done(outcome) => {
            assert_eq!(response_status(&outcome), 500);
            match outcome {
                ConversionOutcome::Failure(e) => {
                    assert_eq!(e.reason, Some("FILE_LIKELY_ENCRYPTED"));
                    assert_eq!(e.x2t_code, Some(0x5b));
                    assert_eq!(e.message, "file is encrypted");
                }
                ConversionOutcome::Success => panic!("expected a failure"),
            }
        }
        _ => panic!("run did not finish"),
    }
}

#[test]
fn missing_source_key_is_terminal_before_any_converter_action() {
    let ws = sample_workspace();
    let s = Stage::WriteConfig;
    let s = step(s, Event::ConfigWritten { ok: true });
    let s = step(
        s,
        Event::Downloaded { result: Err(DownloadError::NoSuchKey) },
    );
    assert!(matches!(next_action(&s, &ws), Action::Cleanup { .. }));
    match s {
        Stage::Done(outcome) => {
            assert_eq!(response_status(&outcome), 500);
            match outcome {
                ConversionOutcome::Failure(e) => {
                    assert_eq!(e.reason, Some("NO_SUCH_KEY"));
                    assert_eq!(e.x2t_code, None);
                    assert_eq!(e.message, "key not found in source bucket");
                }
                ConversionOutcome::Success => panic!("expected a failure"),
            }
        }
        _ => panic!("a missing key must end the run at once"),
    }
}

#[test]
fn cleanup_is_demanded_after_success_and_after_failure() {
    let ws = sample_workspace();
    let ok = Stage::Done(ConversionOutcome::Success);
    assert!(matches!(next_action(&ok, &ws), Action::Cleanup { .. }));
    let failed = step(Stage::WriteConfig, Event::ConfigWritten { ok: false });
    assert!(matches!(next_action(&failed, &ws), Action::Cleanup { .. }));
}

#[test]
fn config_write_failure_is_typed() {
    let s = step(Stage::WriteConfig, Event::ConfigWritten { ok: false });
    match s {
        Stage::Done(ConversionOutcome::Failure(e)) => {
            assert_eq!(e.reason, Some("WRITE_CONFIG_FILE"));
            assert_eq!(e.x2t_code, None);
            assert_eq!(e.message, "failed to write config file");
        }
        _ => panic!("expected a terminal failure"),
    }
}

#[test]
fn get_object_failure_carries_service_message() {
    let s = step(
        Stage::DownloadSource,
        Event::Downloaded {
            result: Err(DownloadError::GetObject("service unavailable".to_string())),
        },
    );
    match s {
        Stage::Done(ConversionOutcome::Failure(e)) => {
            assert_eq!(e.reason, Some("GET_OBJECT"));
            assert_eq!(e.x2t_code, None);
            assert_eq!(e.message, "service unavailable");
        }
        _ => panic!("expected a terminal failure"),
    }
}

#[test]
fn chunk_and_flush_failures_are_typed() {
    let r = step(
        Stage::DownloadSource,
        Event::Downloaded { result: Err(DownloadError::ReadChunk) },
    );
    match r {
        Stage::Done(ConversionOutcome::Failure(e)) => {
            assert_eq!(e.reason, Some("READ_OBJECT_CHUNK"));
            assert_eq!(e.message, "failed to read chunk");
        }
        _ => panic!("expected a terminal failure"),
    }
    let w = step(
        Stage::DownloadSource,
        Event::Downloaded { result: Err(DownloadError::WriteChunk) },
    );
    match w {
        Stage::Done(ConversionOutcome::Failure(e)) => {
            assert_eq!(e.reason, Some("WRITE_OBJECT_CHUNK"));
            assert_eq!(e.message, "failed to write chunk");
        }
        _ => panic!("expected a terminal failure"),
    }
    let f = step(
        Stage::DownloadSource,
        Event::Downloaded { result: Err(DownloadError::Flush) },
    );
    match f {
        Stage::Done(ConversionOutcome::Failure(e)) => {
            assert_eq!(e.reason, Some("FLUSH_OBJECT"));
            assert_eq!(e.message, "failed to flush object");
        }
        _ => panic!("expected a terminal failure"),
    }
}

#[test]
fn spawn_failure_is_typed() {
    let s = step(
        Stage::RunConverter,
        Event::ConverterRan { outcome: ConverterOutcome::SpawnFailed },
    );
    match s {
        Stage::Done(ConversionOutcome::Failure(e)) => {
            assert_eq!(e.reason, Some("RUN_X2T"));
            assert_eq!(e.x2t_code, None);
            assert_eq!(e.message, "failed to run x2t");
        }
        _ => panic!("expected a terminal failure"),
    }
}

#[test]
fn nonzero_exit_moves_to_integrity_check() {
    let ws = sample_workspace();
    let s = step(
        Stage::RunConverter,
        Event::ConverterRan {
            outcome: ConverterOutcome::Exited { code: Some(0x56), stderr: b"oops".to_vec() },
        },
    );
    assert!(matches!(
        next_action(&s, &ws),
        Action::ReadIntegrityPrefix { .. }
    ));
    let s = step(
        s,
        Event::IntegrityChecked {
            outcome: IntegrityOutcome::Checked(FileCondition::LikelyCorrupted),
        },
    );
    match s {
        Stage::Done(ConversionOutcome::Failure(e)) => {
            assert_eq!(e.reason, Some("FILE_LIKELY_CORRUPTED"));
            assert_eq!(e.x2t_code, Some(0x56));
            assert_eq!(e.message, "file is corrupted");
        }
        _ => panic!("expected a terminal failure"),
    }
}

#[test]
fn integrity_read_failures_are_typed() {
    let open_failed = step(
        Stage::CheckIntegrity { code: Some(1), stderr: Vec::new() },
        Event::IntegrityChecked { outcome: IntegrityOutcome::OpenFailed },
    );
    match open_failed {
        Stage::Done(ConversionOutcome::Failure(e)) => {
            assert_eq!(e.reason, Some("OPEN_FILE_INTEGRITY"));
            assert_eq!(e.x2t_code, None);
            assert_eq!(e.message, "failed to open input file for integrity check");
        }
        _ => panic!("expected a terminal failure"),
    }
    let read_failed = step(
        Stage::CheckIntegrity { code: Some(1), stderr: Vec::new() },
        Event::IntegrityChecked { outcome: IntegrityOutcome::ReadFailed },
    );
    match read_failed {
        Stage::Done(ConversionOutcome::Failure(e)) => {
            assert_eq!(e.reason, Some("READ_FILE_INTEGRITY"));
            assert_eq!(e.x2t_code, None);
            assert_eq!(e.message, "failed to read input file for integrity check");
        }
        _ => panic!("expected a terminal failure"),
    }
}

#[test]
fn upload_failures_are_typed() {
    let c = step(
        Stage::UploadOutput,
        Event::Uploaded { result: Err(UploadError::CreateStream) },
    );
    match c {
        Stage::Done(ConversionOutcome::Failure(e)) => {
            assert_eq!(e.reason, Some("CREATE_OUTPUT_STREAM"));
            assert_eq!(e.message, "failed to create output stream");
        }
        _ => panic!("expected a terminal failure"),
    }
    let u = step(
        Stage::UploadOutput,
        Event::Uploaded { result: Err(UploadError::Upload) },
    );
    match u {
        Stage::Done(ConversionOutcome::Failure(e)) => {
            assert_eq!(e.reason, Some("UPLOAD_OUTPUT_STREAM"));
            assert_eq!(e.message, "failed to upload output stream");
        }
        _ => panic!("expected a terminal failure"),
    }
}

#[test]
fn signal_terminated_converter_has_no_code() {
    let s = step(
        Stage::RunConverter,
        Event::ConverterRan {
            outcome: ConverterOutcome::Exited { code: None, stderr: Vec::new() },
        },
    );
    let s = step(
        s,
        Event::IntegrityChecked { outcome: IntegrityOutcome::Checked(FileCondition::Healthy) },
    );
    match s {
        Stage::Done(ConversionOutcome::Failure(e)) => {
            assert_eq!(e.reason, None);
            assert_eq!(e.x2t_code, None);
            assert_eq!(e.message, "unknown error occurred");
        }
        _ => panic!("expected a terminal failure"),
    }
}
