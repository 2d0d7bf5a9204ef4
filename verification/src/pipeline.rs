//! The pipeline orchestrator.
//!
//! One conversion request is a strictly linear run through five stages:
//! write the job descriptor, download the source object, run the
//! converter, (on a non-zero exit) inspect the input file and classify
//! the failure, upload the result. The run is modelled as a state
//! machine: the surrounding application performs the I/O that each stage
//! asks for and feeds the observed outcome back as an event; [`step`]
//! decides the next stage. Every terminal state demands a cleanup of the
//! workspace, so cleanup happens whichever stage failed.

use vstd::prelude::*;

use crate::classify::{classify_failure, classify_spec, FileCondition};
use crate::errors::{ErrorResponse, ErrorResponseV};
use crate::workspace::{ConvertTempPaths, ConvertTempPathsV};

verus! {

/// What the blob-store download of the source object reported, when it
/// failed. The message strings carry the underlying service error's own
/// rendering where one is available.
pub enum DownloadError {
    /// The source key does not exist in the source bucket.
    NoSuchKey,
    /// Any other failure of the object retrieval.
    GetObject(String),
    /// The local destination file could not be created.
    CreateFile(String),
    /// A chunk of the object body could not be read.
    ReadChunk,
    /// A chunk could not be written to the local file.
    WriteChunk,
    /// The local file could not be flushed.
    Flush,
}

/// What the upload of the produced output reported, when it failed.
pub enum UploadError {
    /// The local output file could not be opened for streaming.
    CreateStream,
    /// The remote write failed.
    Upload,
}

/// What happened when the converter process was launched.
pub enum ConverterOutcome {
    /// The process could not be spawned at all.
    SpawnFailed,
    /// The process ran to completion with this exit code (`None` when it
    /// was terminated by a signal) and this captured stderr.
    Exited { code: Option<i32>, stderr: Vec<u8> },
}

/// What the integrity re-read of the original input file reported.
pub enum IntegrityOutcome {
    /// The input file could not be opened.
    OpenFailed,
    /// The input file could not be read.
    ReadFailed,
    /// The byte-pattern heuristic's verdict over the captured prefix.
    Checked(FileCondition),
}

/// The event the application feeds back after performing a stage's work.
pub enum Event {
    ConfigWritten { ok: bool },
    Downloaded { result: Result<(), DownloadError> },
    ConverterRan { outcome: ConverterOutcome },
    IntegrityChecked { outcome: IntegrityOutcome },
    Uploaded { result: Result<(), UploadError> },
}

/// The terminal result of a run.
pub enum ConversionOutcome {
    /// The destination object was written.
    Success,
    /// The run failed with this typed error.
    Failure(ErrorResponse),
}

/// The stage a run is in.
pub enum Stage {
    /// Writing the job descriptor to the workspace's config path.
    WriteConfig,
    /// Streaming the source object to the workspace's input path.
    DownloadSource,
    /// Running the converter against the config path.
    RunConverter,
    /// The converter exited non-zero: re-reading the input file's prefix
    /// for the byte-pattern heuristic.
    CheckIntegrity { code: Option<i32>, stderr: Vec<u8> },
    /// Streaming the workspace's output path to the destination object.
    UploadOutput,
    /// The run is over; the workspace must now be cleaned up.
    Done(ConversionOutcome),
}

/// Mathematical model of a terminal result.
pub enum OutcomeV {
    Success,
    Failure(ErrorResponseV),
}

/// Mathematical model of a stage.
pub enum StageV {
    WriteConfig,
    DownloadSource,
    RunConverter,
    CheckIntegrity { code: Option<i32>, stderr: Seq<u8> },
    UploadOutput,
    Done(OutcomeV),
}

impl View for ConversionOutcome {
    type V = OutcomeV;

    open spec fn view(&self) -> OutcomeV {
        match self {
            ConversionOutcome::Success => OutcomeV::Success,
            ConversionOutcome::Failure(e) => OutcomeV::Failure(e@),
        }
    }
}

impl View for Stage {
    type V = StageV;

    open spec fn view(&self) -> StageV {
        match self {
            Stage::WriteConfig => StageV::WriteConfig,
            Stage::DownloadSource => StageV::DownloadSource,
            Stage::RunConverter => StageV::RunConverter,
            Stage::CheckIntegrity { code, stderr } => StageV::CheckIntegrity {
                code: *code,
                stderr: stderr@,
            },
            Stage::UploadOutput => StageV::UploadOutput,
            Stage::Done(outcome) => StageV::Done(outcome@),
        }
    }
}

/// The failure reported when the job descriptor cannot be written.
pub open spec fn write_config_failed_v() -> ErrorResponseV {
    ErrorResponseV {
        reason: Some("WRITE_CONFIG_FILE"@),
        x2t_code: None,
        message: "failed to write config file"@,
    }
}

/// The failure reported for a missing source key.
pub open spec fn no_such_key_v() -> ErrorResponseV {
    ErrorResponseV {
        reason: Some("NO_SUCH_KEY"@),
        x2t_code: None,
        message: "key not found in source bucket"@,
    }
}

/// The failure reported for each way the download can go wrong.
pub open spec fn download_error_v(e: DownloadError) -> ErrorResponseV {
    match e {
        DownloadError::NoSuchKey => no_such_key_v(),
        DownloadError::GetObject(m) => ErrorResponseV {
            reason: Some("GET_OBJECT"@),
            x2t_code: None,
            message: m@,
        },
        DownloadError::CreateFile(m) => ErrorResponseV {
            reason: Some("GET_OBJECT"@),
            x2t_code: None,
            message: m@,
        },
        DownloadError::ReadChunk => ErrorResponseV {
            reason: Some("READ_OBJECT_CHUNK"@),
            x2t_code: None,
            message: "failed to read chunk"@,
        },
        DownloadError::WriteChunk => ErrorResponseV {
            reason: Some("WRITE_OBJECT_CHUNK"@),
            x2t_code: None,
            message: "failed to write chunk"@,
        },
        DownloadError::Flush => ErrorResponseV {
            reason: Some("FLUSH_OBJECT"@),
            x2t_code: None,
            message: "failed to flush object"@,
        },
    }
}

/// The failure reported when the converter process cannot be spawned.
pub open spec fn run_converter_failed_v() -> ErrorResponseV {
    ErrorResponseV {
        reason: Some("RUN_X2T"@),
        x2t_code: None,
        message: "failed to run x2t"@,
    }
}

/// The failure reported when the input file cannot be opened for the
/// integrity check.
pub open spec fn open_integrity_failed_v() -> ErrorResponseV {
    ErrorResponseV {
        reason: Some("OPEN_FILE_INTEGRITY"@),
        x2t_code: None,
        message: "failed to open input file for integrity check"@,
    }
}

/// The failure reported when the input file cannot be read for the
/// integrity check.
pub open spec fn read_integrity_failed_v() -> ErrorResponseV {
    ErrorResponseV {
        reason: Some("READ_FILE_INTEGRITY"@),
        x2t_code: None,
        message: "failed to read input file for integrity check"@,
    }
}

/// The failure reported for each way the upload can go wrong.
pub open spec fn upload_error_v(e: UploadError) -> ErrorResponseV {
    match e {
        UploadError::CreateStream => ErrorResponseV {
            reason: Some("CREATE_OUTPUT_STREAM"@),
            x2t_code: None,
            message: "failed to create output stream"@,
        },
        UploadError::Upload => ErrorResponseV {
            reason: Some("UPLOAD_OUTPUT_STREAM"@),
            x2t_code: None,
            message: "failed to upload output stream"@,
        },
    }
}

/// The event shape each stage expects; terminal stages expect none.
pub open spec fn event_fits(s: StageV, e: Event) -> bool {
    match s {
        StageV::WriteConfig => e is ConfigWritten,
        StageV::DownloadSource => e is Downloaded,
        StageV::RunConverter => e is ConverterRan,
        StageV::CheckIntegrity { .. } => e is IntegrityChecked,
        StageV::UploadOutput => e is Uploaded,
        StageV::Done(_) => false,
    }
}

/// The full transition relation of the pipeline.
pub open spec fn step_spec(s: StageV, e: Event) -> StageV {
    match (s, e) {
        (StageV::WriteConfig, Event::ConfigWritten { ok }) => if ok {
            StageV::DownloadSource
        } else {
            StageV::Done(OutcomeV::Failure(write_config_failed_v()))
        },
        (StageV::DownloadSource, Event::Downloaded { result }) => match result {
            Ok(_) => StageV::RunConverter,
            Err(err) => StageV::Done(OutcomeV::Failure(download_error_v(err))),
        },
        (StageV::RunConverter, Event::ConverterRan { outcome }) => match outcome {
            ConverterOutcome::SpawnFailed => StageV::Done(
                OutcomeV::Failure(run_converter_failed_v()),
            ),
            ConverterOutcome::Exited { code, stderr } => if code == Some(0i32) {
                StageV::UploadOutput
            } else {
                StageV::CheckIntegrity { code, stderr: stderr@ }
            },
        },
        (StageV::CheckIntegrity { code, stderr }, Event::IntegrityChecked { outcome }) => match outcome {
            IntegrityOutcome::OpenFailed => StageV::Done(
                OutcomeV::Failure(open_integrity_failed_v()),
            ),
            IntegrityOutcome::ReadFailed => StageV::Done(
                OutcomeV::Failure(read_integrity_failed_v()),
            ),
            IntegrityOutcome::Checked(condition) => StageV::Done(
                OutcomeV::Failure(classify_spec(code, stderr, condition)),
            ),
        },
        (StageV::UploadOutput, Event::Uploaded { result }) => match result {
            Ok(_) => StageV::Done(OutcomeV::Success),
            Err(err) => StageV::Done(OutcomeV::Failure(upload_error_v(err))),
        },
        _ => s,
    }
}

/// Advance the pipeline by one stage: consume the event the application
/// observed and decide the next stage.
pub fn step(s: Stage, e: Event) -> (r: Stage)
    requires
        event_fits(s@, e),
    ensures
        r@ == step_spec(s@, e),
{
    match (s, e) {
        (Stage::WriteConfig, Event::ConfigWritten { ok }) => {
            if ok {
                Stage::DownloadSource
            } else {
                Stage::Done(
                    ConversionOutcome::Failure(
                        ErrorResponse {
                            reason: Some("WRITE_CONFIG_FILE"),
                            x2t_code: None,
                            message: "failed to write config file".to_owned(),
                        },
                    ),
                )
            }
        },
        (Stage::DownloadSource, Event::Downloaded { result }) => match result {
            Ok(_) => Stage::RunConverter,
            Err(err) => Stage::Done(ConversionOutcome::Failure(download_error(err))),
        },
        (Stage::RunConverter, Event::ConverterRan { outcome }) => match outcome {
            ConverterOutcome::SpawnFailed => Stage::Done(
                ConversionOutcome::Failure(
                    ErrorResponse {
                        reason: Some("RUN_X2T"),
                        x2t_code: None,
                        message: "failed to run x2t".to_owned(),
                    },
                ),
            ),
            ConverterOutcome::Exited { code, stderr } => {
                let success = match code {
                    Some(c) => c == 0,
                    None => false,
                };
                if success {
                    Stage::UploadOutput
                } else {
                    Stage::CheckIntegrity { code, stderr }
                }
            },
        },
        (Stage::CheckIntegrity { code, stderr }, Event::IntegrityChecked { outcome }) => match outcome {
            IntegrityOutcome::OpenFailed => Stage::Done(
                ConversionOutcome::Failure(
                    ErrorResponse {
                        reason: Some("OPEN_FILE_INTEGRITY"),
                        x2t_code: None,
                        message: "failed to open input file for integrity check".to_owned(),
                    },
                ),
            ),
            IntegrityOutcome::ReadFailed => Stage::Done(
                ConversionOutcome::Failure(
                    ErrorResponse {
                        reason: Some("READ_FILE_INTEGRITY"),
                        x2t_code: None,
                        message: "failed to read input file for integrity check".to_owned(),
                    },
                ),
            ),
            IntegrityOutcome::Checked(condition) => Stage::Done(
                ConversionOutcome::Failure(classify_failure(code, &stderr, condition)),
            ),
        },
        (Stage::UploadOutput, Event::Uploaded { result }) => match result {
            Ok(_) => Stage::Done(ConversionOutcome::Success),
            Err(err) => Stage::Done(ConversionOutcome::Failure(upload_error(err))),
        },
        (other, _) => other,
    }
}

/// Build the typed error for a failed download.
pub fn download_error(e: DownloadError) -> (r: ErrorResponse)
    ensures
        r@ == download_error_v(e),
{
    match e {
        DownloadError::NoSuchKey => ErrorResponse {
            reason: Some("NO_SUCH_KEY"),
            x2t_code: None,
            message: "key not found in source bucket".to_owned(),
        },
        DownloadError::GetObject(m) => ErrorResponse {
            reason: Some("GET_OBJECT"),
            x2t_code: None,
            message: m,
        },
        DownloadError::CreateFile(m) => ErrorResponse {
            reason: Some("GET_OBJECT"),
            x2t_code: None,
            message: m,
        },
        DownloadError::ReadChunk => ErrorResponse {
            reason: Some("READ_OBJECT_CHUNK"),
            x2t_code: None,
            message: "failed to read chunk".to_owned(),
        },
        DownloadError::WriteChunk => ErrorResponse {
            reason: Some("WRITE_OBJECT_CHUNK"),
            x2t_code: None,
            message: "failed to write chunk".to_owned(),
        },
        DownloadError::Flush => ErrorResponse {
            reason: Some("FLUSH_OBJECT"),
            x2t_code: None,
            message: "failed to flush object".to_owned(),
        },
    }
}

/// Build the typed error for a failed upload.
pub fn upload_error(e: UploadError) -> (r: ErrorResponse)
    ensures
        r@ == upload_error_v(e),
{
    match e {
        UploadError::CreateStream => ErrorResponse {
            reason: Some("CREATE_OUTPUT_STREAM"),
            x2t_code: None,
            message: "failed to create output stream".to_owned(),
        },
        UploadError::Upload => ErrorResponse {
            reason: Some("UPLOAD_OUTPUT_STREAM"),
            x2t_code: None,
            message: "failed to upload output stream".to_owned(),
        },
    }
}

/// The outside work each stage asks of the application. Every path named
/// here is the corresponding path of the run's workspace.
#[derive(Clone, PartialEq, Eq, Debug)]
pub enum Action {
    /// Write the job descriptor bytes to the config path.
    WriteConfigFile { config_path: String },
    /// Stream the source object to the input path.
    DownloadSource { input_path: String },
    /// Spawn the converter with the config path as its argument.
    RunConverter { config_path: String },
    /// Re-read a prefix of the input path and run the byte heuristic.
    ReadIntegrityPrefix { input_path: String },
    /// Stream the output path to the destination object.
    UploadOutput { output_path: String },
    /// Best-effort delete of all three workspace paths.
    Cleanup { config_path: String, input_path: String, output_path: String },
}

/// Mathematical model of an action: the demanded work with its paths as
/// character sequences.
pub enum ActionV {
    WriteConfigFile { config_path: Seq<char> },
    DownloadSource { input_path: Seq<char> },
    RunConverter { config_path: Seq<char> },
    ReadIntegrityPrefix { input_path: Seq<char> },
    UploadOutput { output_path: Seq<char> },
    Cleanup { config_path: Seq<char>, input_path: Seq<char>, output_path: Seq<char> },
}

impl View for Action {
    type V = ActionV;

    open spec fn view(&self) -> ActionV {
        match self {
            Action::WriteConfigFile { config_path } => ActionV::WriteConfigFile {
                config_path: config_path@,
            },
            Action::DownloadSource { input_path } => ActionV::DownloadSource {
                input_path: input_path@,
            },
            Action::RunConverter { config_path } => ActionV::RunConverter {
                config_path: config_path@,
            },
            Action::ReadIntegrityPrefix { input_path } => ActionV::ReadIntegrityPrefix {
                input_path: input_path@,
            },
            Action::UploadOutput { output_path } => ActionV::UploadOutput {
                output_path: output_path@,
            },
            Action::Cleanup { config_path, input_path, output_path } => ActionV::Cleanup {
                config_path: config_path@,
                input_path: input_path@,
                output_path: output_path@,
            },
        }
    }
}

/// The action each stage asks for, over the run's workspace.
pub open spec fn action_for(s: StageV, w: ConvertTempPathsV) -> ActionV {
    match s {
        StageV::WriteConfig => ActionV::WriteConfigFile { config_path: w.config_path },
        StageV::DownloadSource => ActionV::DownloadSource { input_path: w.input_path },
        StageV::RunConverter => ActionV::RunConverter { config_path: w.config_path },
        StageV::CheckIntegrity { .. } => ActionV::ReadIntegrityPrefix { input_path: w.input_path },
        StageV::UploadOutput => ActionV::UploadOutput { output_path: w.output_path },
        StageV::Done(_) => ActionV::Cleanup {
            config_path: w.config_path,
            input_path: w.input_path,
            output_path: w.output_path,
        },
    }
}

/// What the application must do next for this stage, with the exact
/// workspace paths the work concerns.
pub fn next_action(s: &Stage, workspace: &ConvertTempPaths) -> (a: Action)
    ensures
        a@ == action_for(s@, workspace@),
{
    match s {
        Stage::WriteConfig => Action::WriteConfigFile {
            config_path: workspace.config_path.clone(),
        },
        Stage::DownloadSource => Action::DownloadSource {
            input_path: workspace.input_path.clone(),
        },
        Stage::RunConverter => Action::RunConverter {
            config_path: workspace.config_path.clone(),
        },
        Stage::CheckIntegrity { .. } => Action::ReadIntegrityPrefix {
            input_path: workspace.input_path.clone(),
        },
        Stage::UploadOutput => Action::UploadOutput {
            output_path: workspace.output_path.clone(),
        },
        Stage::Done(_) => Action::Cleanup {
            config_path: workspace.config_path.clone(),
            input_path: workspace.input_path.clone(),
            output_path: workspace.output_path.clone(),
        },
    }
}

/// Law: the upload stage streams exactly the workspace's output path —
/// the same path the job descriptor declares as the converter's
/// destination — so the destination object receives the file the
/// converter was told to produce.
pub proof fn lemma_upload_streams_converter_target(w: ConvertTempPathsV)
    ensures
        action_for(StageV::UploadOutput, w) == (ActionV::UploadOutput {
            output_path: w.output_path,
        }),
{
}

/// HTTP-style status for a terminal outcome: 200 on success, 500 on
/// failure.
pub open spec fn response_status_spec(o: OutcomeV) -> u16 {
    if o is Success {
        200
    } else {
        500
    }
}

/// The status code reported to the caller for a terminal outcome.
pub fn response_status(outcome: &ConversionOutcome) -> (s: u16)
    ensures
        s == response_status_spec(outcome@),
{
    match outcome {
        ConversionOutcome::Success => 200,
        ConversionOutcome::Failure(_) => 500,
    }
}

/// How many stages a run can still pass through.
pub open spec fn rank(s: StageV) -> nat {
    match s {
        StageV::WriteConfig => 5,
        StageV::DownloadSource => 4,
        StageV::RunConverter => 3,
        StageV::CheckIntegrity { .. } => 2,
        StageV::UploadOutput => 1,
        StageV::Done(_) => 0,
    }
}

/// Law: the pipeline is strictly linear and always makes progress — each
/// step moves strictly down the stage order, so every run reaches a
/// terminal state after at most five events.
pub proof fn lemma_step_progress(s: StageV, e: Event)
    requires
        event_fits(s, e),
    ensures
        rank(step_spec(s, e)) < rank(s),
{
}

/// Law: cleanup runs whatever the outcome — every terminal state, success
/// or failure, asks the application to delete exactly the workspace's
/// three paths, and only terminal states ask for cleanup.
pub proof fn lemma_cleanup_always(s: StageV, w: ConvertTempPathsV)
    ensures
        action_for(s, w) is Cleanup <==> s is Done,
        s is Done ==> action_for(s, w) == (ActionV::Cleanup {
            config_path: w.config_path,
            input_path: w.input_path,
            output_path: w.output_path,
        }),
{
}

/// The stages a run visits from `s`, consuming events until it is
/// terminal or out of events.
pub open spec fn run_spec(s: StageV, events: Seq<Event>) -> Seq<StageV>
    decreases events.len(),
{
    if s is Done || events.len() == 0 {
        seq![s]
    } else {
        seq![s] + run_spec(step_spec(s, events[0]), events.drop_first())
    }
}

/// The events suit the stages they will be consumed by, in order.
pub open spec fn events_fit(s: StageV, events: Seq<Event>) -> bool
    decreases events.len(),
{
    s is Done || events.len() == 0 || (event_fits(s, events[0]) && events_fit(
        step_spec(s, events[0]),
        events.drop_first(),
    ))
}

/// Law: cleanup happens exactly once per run, success or failure. A run
/// supplied with enough fitting events always ends in a terminal state,
/// and the terminal state's one demand on the application is the
/// workspace cleanup.
pub proof fn lemma_run_reaches_cleanup(s: StageV, events: Seq<Event>, w: ConvertTempPathsV)
    requires
        events_fit(s, events),
        rank(s) <= events.len(),
    ensures
        run_spec(s, events).last() is Done,
        action_for(run_spec(s, events).last(), w) is Cleanup,
    decreases events.len(),
{
    if !(s is Done) {
        let s2 = step_spec(s, events[0]);
        let rest = events.drop_first();
        lemma_step_progress(s, events[0]);
        lemma_run_reaches_cleanup(s2, rest, w);
        assert(run_spec(s, events) == seq![s] + run_spec(s2, rest));
        assert(run_spec(s2, rest).len() >= 1);
        assert(run_spec(s, events).last() == run_spec(s2, rest).last());
    }
}

/// Law: a missing source key is terminal at once — the run ends with the
/// `NO_SUCH_KEY` failure, and neither the converter stage nor the upload
/// stage is ever visited, so no destination object is ever written.
pub proof fn lemma_no_such_key_never_uploads(events: Seq<Event>)
    requires
        events.len() > 0,
        events[0] == (Event::Downloaded { result: Err(DownloadError::NoSuchKey) }),
    ensures
        run_spec(StageV::DownloadSource, events) =~= seq![
            StageV::DownloadSource,
            StageV::Done(OutcomeV::Failure(no_such_key_v())),
        ],
        forall|i: int|
            0 <= i < run_spec(StageV::DownloadSource, events).len() ==> run_spec(
                StageV::DownloadSource,
                events,
            )[i] != StageV::UploadOutput && run_spec(StageV::DownloadSource, events)[i]
                != StageV::RunConverter,
{
    let terminal = step_spec(StageV::DownloadSource, events[0]);
    assert(terminal == StageV::Done(OutcomeV::Failure(no_such_key_v())));
    assert(run_spec(terminal, events.drop_first()) =~= seq![terminal]);
}

/// Law: when every stage succeeds — the descriptor is written, the source
/// downloads, the converter exits zero and the upload completes — the run
/// visits every stage in order and ends in `Success`.
pub proof fn lemma_successful_run(events: Seq<Event>, converter_stderr: Vec<u8>)
    requires
        events.len() == 4,
        events[0] == (Event::ConfigWritten { ok: true }),
        events[1] == (Event::Downloaded { result: Ok::<(), DownloadError>(()) }),
        events[2] == (Event::ConverterRan {
            outcome: ConverterOutcome::Exited { code: Some(0i32), stderr: converter_stderr },
        }),
        events[3] == (Event::Uploaded { result: Ok::<(), UploadError>(()) }),
    ensures
        run_spec(StageV::WriteConfig, events) =~= seq![
            StageV::WriteConfig,
            StageV::DownloadSource,
            StageV::RunConverter,
            StageV::UploadOutput,
            StageV::Done(OutcomeV::Success),
        ],
{
    let s0 = StageV::WriteConfig;
    let s1 = step_spec(s0, events[0]);
    assert(s1 == StageV::DownloadSource);
    let r1 = events.drop_first();
    assert(r1[0] == events[1] && r1[1] == events[2] && r1[2] == events[3]);
    let s2 = step_spec(s1, r1[0]);
    assert(s2 == StageV::RunConverter);
    let r2 = r1.drop_first();
    assert(r2[0] == events[2] && r2[1] == events[3]);
    let s3 = step_spec(s2, r2[0]);
    assert(s3 == StageV::UploadOutput);
    let r3 = r2.drop_first();
    assert(r3[0] == events[3]);
    let s4 = step_spec(s3, r3[0]);
    assert(s4 == StageV::Done(OutcomeV::Success));
    let r4 = r3.drop_first();
    assert(run_spec(s4, r4) =~= seq![s4]);
    assert(run_spec(s3, r3) =~= seq![s3] + run_spec(s4, r4));
    assert(run_spec(s2, r2) =~= seq![s2] + run_spec(s3, r3));
    assert(run_spec(s1, r1) =~= seq![s1] + run_spec(s2, r2));
    assert(run_spec(s0, events) =~= seq![s0] + run_spec(s1, r1));
}

} // verus!

