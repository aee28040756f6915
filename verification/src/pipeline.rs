//! The upload pipeline: a state machine that the host drives with what it
//! reads from the request and from disk, and that answers each event with
//! the one thing the host is to do next.
//!
//! The pipeline never touches a file itself. It says which file to create,
//! what to append to it, when to publish it and, with the final answer,
//! which scratch files to remove; the host does so and reports back. The
//! files named for removal are those that the request has created, so a
//! request that has created none leaves every file as it is.

use vstd::prelude::*;
use crate::failure::ErrorKind;
use crate::level::DEFAULT_LEVEL;
use crate::report::duration_text;
use crate::report::success_of;
use crate::report::CompressionResult;
use crate::report::ResultView;
use crate::scratch::staging_path_of;
use crate::scratch::upload_path_of;
use crate::settings::default_output_name;
use crate::settings::has_extension;
use crate::settings::lemma_default_name_has_extension;
use crate::settings::lemma_output_name_keeps_extension;
use crate::settings::kind_of;
use crate::settings::settings_after;
use crate::settings::FieldKind;
use crate::settings::SettingsView;

verus! {

/// Where a request stands.
#[derive(Clone, Copy, Debug, PartialEq, Eq, Structural)]
pub enum Phase {
    /// Between fields, or inside a field other than `file`.
    AwaitingFields,
    /// Inside the `file` field: its chunks go to the upload's scratch file.
    Draining,
    /// All fields are read; the upload is being turned into the artifact.
    Compressing,
    /// The artifact is published and the client has its answer.
    Done,
    /// The request failed and the client has been told so.
    Failed,
}

/// What the host reports to the pipeline.
#[derive(Debug, PartialEq, Eq)]
pub enum Event {
    /// A field with this name begins.
    FieldStart(String),
    /// The next chunk of the field that is open.
    Chunk(Vec<u8>),
    /// The field that is open has no more chunks.
    FieldEnd,
    /// The request has no more fields.
    EndOfFields,
    /// The multipart framing of the request could not be read.
    Malformed,
    /// Something the host was asked to do with a file failed.
    StorageError,
    /// The next chunk read back from the upload's scratch file.
    Source(Vec<u8>),
    /// The upload's scratch file has been read to its end.
    SourceEnd,
    /// The artifact is in place; compressing took so many nanoseconds.
    Published(u64),
}

/// What an [`Event`] holds.
pub enum EventView {
    FieldStart(Seq<char>),
    Chunk(Seq<u8>),
    FieldEnd,
    EndOfFields,
    Malformed,
    StorageError,
    Source(Seq<u8>),
    SourceEnd,
    Published(u64),
}

impl View for Event {
    type V = EventView;

    open spec fn view(&self) -> EventView {
        match self {
            Event::FieldStart(name) => EventView::FieldStart(name@),
            Event::Chunk(bytes) => EventView::Chunk(bytes@),
            Event::FieldEnd => EventView::FieldEnd,
            Event::EndOfFields => EventView::EndOfFields,
            Event::Malformed => EventView::Malformed,
            Event::StorageError => EventView::StorageError,
            Event::Source(bytes) => EventView::Source(bytes@),
            Event::SourceEnd => EventView::SourceEnd,
            Event::Published(nanos) => EventView::Published(*nanos),
        }
    }
}

/// What a path that may be missing holds.
pub open spec fn path_view(path: Option<String>) -> Option<Seq<char>> {
    match path {
        Some(p) => Some(p@),
        None => None,
    }
}

/// What the pipeline asks of the host.
#[derive(Debug, PartialEq, Eq)]
pub enum Action {
    /// Nothing; report the next event.
    Continue,
    /// Create the upload's scratch file at this path, empty.
    CreateUpload(String),
    /// Append these bytes to the upload's scratch file.
    AppendUpload(Vec<u8>),
    /// Flush and close the upload's scratch file.
    SealUpload,
    /// Start the clock, open `source` for reading and create `staging`,
    /// empty; then report the chunks of `source` in order.
    StartCompression { source: String, staging: String, level: u32 },
    /// Append these bytes to the staging file.
    AppendArtifact(Vec<u8>),
    /// Append `tail` to the staging file, close it, move it to `artifact`,
    /// stop the clock and report the time taken.
    Publish { tail: Vec<u8>, staging: String, artifact: String },
    /// Answer the client with this payload, and remove the upload's scratch
    /// file, which lies at `upload`.
    Respond { result: CompressionResult, upload: String },
    /// Answer the client with this failure, and remove the scratch files
    /// that are named, if they exist. Those are the ones that this request
    /// has created: a request that has created none names none, and the
    /// host then leaves every file as it is.
    Abort { kind: ErrorKind, upload: Option<String>, staging: Option<String> },
}

/// What an [`Action`] holds.
pub enum ActionView {
    Continue,
    CreateUpload(Seq<char>),
    AppendUpload(Seq<u8>),
    SealUpload,
    StartCompression { source: Seq<char>, staging: Seq<char>, level: u32 },
    AppendArtifact(Seq<u8>),
    Publish { tail: Seq<u8>, staging: Seq<char>, artifact: Seq<char> },
    Respond { result: ResultView, upload: Seq<char> },
    Abort { kind: ErrorKind, upload: Option<Seq<char>>, staging: Option<Seq<char>> },
}

impl View for Action {
    type V = ActionView;

    open spec fn view(&self) -> ActionView {
        match self {
            Action::Continue => ActionView::Continue,
            Action::CreateUpload(path) => ActionView::CreateUpload(path@),
            Action::AppendUpload(bytes) => ActionView::AppendUpload(bytes@),
            Action::SealUpload => ActionView::SealUpload,
            Action::StartCompression { source, staging, level } => ActionView::StartCompression {
                source: source@,
                staging: staging@,
                level: *level,
            },
            Action::AppendArtifact(bytes) => ActionView::AppendArtifact(bytes@),
            Action::Publish { tail, staging, artifact } => ActionView::Publish {
                tail: tail@,
                staging: staging@,
                artifact: artifact@,
            },
            Action::Respond { result, upload } => ActionView::Respond {
                result: result@,
                upload: upload@,
            },
            Action::Abort { kind, upload, staging } => ActionView::Abort {
                kind: *kind,
                upload: path_view(*upload),
                staging: path_view(*staging),
            },
        }
    }
}

/// The state of a request, as the contracts see it.
pub struct PipelineView {
    /// The request's identifier, from which its scratch paths are made.
    pub id: u64,
    pub phase: Phase,
    /// The settings in force.
    pub settings: SettingsView,
    /// The kind of the field that is open, unless it is the `file` field.
    pub open_field: Option<FieldKind>,
    /// The content gathered so far of an open `level` or `output_name` field.
    pub pending: Seq<u8>,
    /// Whether a `file` field has begun.
    pub has_file: bool,
    /// The level that the encoder works at, while it is open.
    pub stream_level: Option<u32>,
    /// All bytes of the upload that went into the encoder.
    pub consumed: Seq<u8>,
    /// All bytes that the host was told to write to the artifact.
    pub produced: Seq<u8>,
}

impl PipelineView {
    /// Whether the encoder is open.
    pub open spec fn streaming(self) -> bool {
        self.stream_level is Some
    }

    /// Whether the artifact's last byte has been handed out.
    pub open spec fn sealed(self) -> bool {
        ||| self.phase == Phase::Compressing && !self.streaming()
        ||| self.phase == Phase::Done
    }

    /// Whether the request has its final answer.
    pub open spec fn finished(self) -> bool {
        self.phase == Phase::Done || self.phase == Phase::Failed
    }
}

/// The state of a request of which nothing has been read yet.
pub open spec fn initial(id: u64) -> PipelineView {
    PipelineView {
        id,
        phase: Phase::AwaitingFields,
        settings: SettingsView { level: DEFAULT_LEVEL, output_name: default_output_name() },
        open_field: None,
        pending: Seq::empty(),
        has_file: false,
        stream_level: None,
        consumed: Seq::empty(),
        produced: Seq::empty(),
    }
}

/// The upload's scratch file, if the request has created it: it does so
/// when a `file` field begins.
pub open spec fn upload_made(v: PipelineView) -> Option<Seq<char>> {
    if v.has_file {
        Some(upload_path_of(v.id))
    } else {
        None
    }
}

/// The scratch file in which the artifact is built, if the request has
/// created it: it does so when compression starts.
pub open spec fn staging_made(v: PipelineView) -> Option<Seq<char>> {
    if v.phase == Phase::Compressing {
        Some(staging_path_of(v.id))
    } else {
        None
    }
}

/// The request fails: nothing stays open, the scratch files that it has
/// created are removed, and the client is told why.
pub open spec fn failed(v: PipelineView, kind: ErrorKind) -> (PipelineView, ActionView) {
    (
        PipelineView {
            phase: Phase::Failed,
            open_field: None,
            pending: Seq::empty(),
            stream_level: None,
            ..v
        },
        ActionView::Abort { kind, upload: upload_made(v), staging: staging_made(v) },
    )
}

/// An event that the phase has no use for. The host is out of step, which
/// is the server's fault, unless it reports that the request is malformed.
pub open spec fn misplaced(v: PipelineView, e: EventView) -> (PipelineView, ActionView) {
    if e is Malformed && v.phase != Phase::Compressing {
        failed(v, ErrorKind::MalformedRequest)
    } else {
        failed(v, ErrorKind::StorageFailure)
    }
}

/// Between fields. When the fields end and there is an upload, the encoder
/// is opened at the level then in force.
pub open spec fn next_between_fields(v: PipelineView, e: EventView) -> (PipelineView, ActionView) {
    match e {
        EventView::FieldStart(name) => match kind_of(name) {
            FieldKind::File => (
                PipelineView { phase: Phase::Draining, has_file: true, ..v },
                ActionView::CreateUpload(upload_path_of(v.id)),
            ),
            kind => (
                PipelineView { open_field: Some(kind), pending: Seq::empty(), ..v },
                ActionView::Continue,
            ),
        },
        EventView::EndOfFields => if v.has_file {
            (
                PipelineView {
                    phase: Phase::Compressing,
                    stream_level: Some(v.settings.level),
                    consumed: Seq::empty(),
                    produced: Seq::empty(),
                    ..v
                },
                ActionView::StartCompression {
                    source: upload_path_of(v.id),
                    staging: staging_path_of(v.id),
                    level: v.settings.level,
                },
            )
        } else {
            failed(v, ErrorKind::NoFileProvided)
        },
        _ => misplaced(v, e),
    }
}

/// Inside a field of the given kind, other than `file`.
pub open spec fn next_inside_field(v: PipelineView, kind: FieldKind, e: EventView) -> (
    PipelineView,
    ActionView,
) {
    match e {
        EventView::Chunk(bytes) => (
            if kind == FieldKind::Other {
                v
            } else {
                PipelineView { pending: v.pending + bytes, ..v }
            },
            ActionView::Continue,
        ),
        EventView::FieldEnd => (
            PipelineView {
                settings: settings_after(v.settings, kind, v.pending),
                open_field: None,
                pending: Seq::empty(),
                ..v
            },
            ActionView::Continue,
        ),
        _ => misplaced(v, e),
    }
}

/// Inside the `file` field.
pub open spec fn next_draining(v: PipelineView, e: EventView) -> (PipelineView, ActionView) {
    match e {
        EventView::Chunk(bytes) => (v, ActionView::AppendUpload(bytes)),
        EventView::FieldEnd => (
            PipelineView { phase: Phase::AwaitingFields, ..v },
            ActionView::SealUpload,
        ),
        _ => misplaced(v, e),
    }
}

/// While the encoder is open. `outcome` is what the encoder gave for this
/// event: the compressed bytes, or `None` where it failed.
pub open spec fn next_streaming(v: PipelineView, e: EventView, outcome: Option<Seq<u8>>) -> (
    PipelineView,
    ActionView,
) {
    match e {
        EventView::Source(chunk) => match outcome {
            Some(out) => (
                PipelineView { consumed: v.consumed + chunk, produced: v.produced + out, ..v },
                ActionView::AppendArtifact(out),
            ),
            None => failed(v, ErrorKind::StorageFailure),
        },
        EventView::SourceEnd => match outcome {
            Some(tail) => (
                PipelineView { stream_level: None, produced: v.produced + tail, ..v },
                ActionView::Publish {
                    tail,
                    staging: staging_path_of(v.id),
                    artifact: v.settings.output_name,
                },
            ),
            None => failed(v, ErrorKind::StorageFailure),
        },
        _ => misplaced(v, e),
    }
}

/// After the encoder was closed, while the host publishes the artifact.
pub open spec fn next_publishing(v: PipelineView, e: EventView) -> (PipelineView, ActionView) {
    match e {
        EventView::Published(nanos) => (
            PipelineView { phase: Phase::Done, ..v },
            ActionView::Respond {
                result: success_of(v.settings.output_name, duration_text(nanos)),
                upload: upload_path_of(v.id),
            },
        ),
        _ => misplaced(v, e),
    }
}

/// Whether the event is one that the encoder has to be asked about.
pub open spec fn asks_encoder(v: PipelineView, e: EventView) -> bool {
    v.phase == Phase::Compressing && v.streaming() && (e is Source || e is SourceEnd)
}

/// The state after an event, and the action that answers it. `outcome` is
/// what the encoder gave, and matters only where [`asks_encoder`] holds.
pub open spec fn next(v: PipelineView, e: EventView, outcome: Option<Seq<u8>>) -> (
    PipelineView,
    ActionView,
) {
    match v.phase {
        Phase::AwaitingFields => match v.open_field {
            Some(kind) => next_inside_field(v, kind, e),
            None => next_between_fields(v, e),
        },
        Phase::Draining => next_draining(v, e),
        Phase::Compressing => if v.streaming() {
            next_streaming(v, e, outcome)
        } else {
            next_publishing(v, e)
        },
        Phase::Done => (v, ActionView::Continue),
        Phase::Failed => (v, ActionView::Continue),
    }
}

/// Whether the event opens the `file` field.
pub open spec fn opens_file(e: EventView) -> bool {
    e matches EventView::FieldStart(name) && kind_of(name) == FieldKind::File
}

/// Whether the state hangs together: the artifact name ends in the
/// extension, there is an upload wherever one is drained or compressed, and
/// the encoder is open only while compressing.
pub open spec fn state_in_order(v: PipelineView) -> bool {
    &&& has_extension(v.settings.output_name)
    &&& v.phase == Phase::Draining || v.phase == Phase::Compressing || v.phase == Phase::Done
        ==> v.has_file
    &&& v.streaming() ==> v.phase == Phase::Compressing
}

/// A fresh request is in order.
pub proof fn lemma_initial_state_in_order(id: u64)
    ensures
        state_in_order(initial(id)),
{
    lemma_default_name_has_extension();
}

/// No event brings a request out of order.
pub proof fn lemma_step_keeps_state_in_order(v: PipelineView, e: EventView, outcome: Option<Seq<u8>>)
    requires
        state_in_order(v),
    ensures
        state_in_order(next(v, e, outcome).0),
{
    if v.phase == Phase::AwaitingFields {
        if let Some(kind) = v.open_field {
            lemma_output_name_keeps_extension(v.settings, kind, v.pending);
        }
    }
}

/// A field other than `file` never makes a request fail, whatever it
/// holds: when it ends, the pipeline goes on waiting for fields.
pub proof fn lemma_parameter_field_never_fails(v: PipelineView, kind: FieldKind, outcome: Option<Seq<u8>>)
    requires
        v.phase == Phase::AwaitingFields,
        v.open_field == Some(kind),
    ensures
        next(v, EventView::FieldEnd, outcome).1 == ActionView::Continue,
        next(v, EventView::FieldEnd, outcome).0.phase == Phase::AwaitingFields,
        next(v, EventView::FieldEnd, outcome).0.settings == settings_after(v.settings, kind, v.pending),
{
}

/// Where the encoder is not asked, what it might have given does not matter.
pub proof fn lemma_outcome_matters_only_to_encoder(
    v: PipelineView,
    e: EventView,
    a: Option<Seq<u8>>,
    b: Option<Seq<u8>>,
)
    requires
        !asks_encoder(v, e),
    ensures
        next(v, e, a) == next(v, e, b),
{
}

/// The upload reaches its scratch file byte for byte and in arrival order:
/// each chunk of the `file` field is answered with the request to append
/// exactly that chunk, and with nothing else.
pub proof fn lemma_upload_is_drained_unchanged(v: PipelineView, bytes: Seq<u8>, outcome: Option<Seq<u8>>)
    requires
        v.phase == Phase::Draining,
    ensures
        next(v, EventView::Chunk(bytes), outcome) == (v, ActionView::AppendUpload(bytes)),
{
}

/// The bytes that an action has the host write to the artifact.
pub open spec fn written_by(a: ActionView) -> Seq<u8> {
    match a {
        ActionView::AppendArtifact(bytes) => bytes,
        ActionView::Publish { tail, .. } => tail,
        _ => Seq::empty(),
    }
}

/// The bytes of the upload that an event hands over for compression.
pub open spec fn read_by(e: EventView) -> Seq<u8> {
    match e {
        EventView::Source(chunk) => chunk,
        _ => Seq::empty(),
    }
}

/// The pipeline keeps true books while it compresses: unless the step
/// fails, what it has on record as consumed grows by what the event handed
/// over, and what it has on record as produced grows by what the action has
/// the host write.
pub proof fn lemma_compression_is_on_record(v: PipelineView, e: EventView, outcome: Option<Seq<u8>>)
    requires
        v.phase == Phase::Compressing,
        next(v, e, outcome).0.phase != Phase::Failed,
    ensures
        next(v, e, outcome).0.consumed == v.consumed + read_by(e),
        next(v, e, outcome).0.produced == v.produced + written_by(next(v, e, outcome).1),
{
    let after = next(v, e, outcome);
    assert(after.0.consumed =~= v.consumed + read_by(e));
    assert(after.0.produced =~= v.produced + written_by(after.1));
}

/// A request is answered at most once: after its final answer, every event
/// is met with the request to continue and changes nothing.
pub proof fn lemma_finished_stays_finished(v: PipelineView, e: EventView, outcome: Option<Seq<u8>>)
    requires
        v.finished(),
    ensures
        next(v, e, outcome) == (v, ActionView::Continue),
{
}

/// The client is told of success only after the artifact was closed: a
/// response is the answer to the host's report that it has published the
/// artifact, in a state in which the encoder had been closed.
pub proof fn lemma_response_follows_publication(v: PipelineView, e: EventView, outcome: Option<Seq<u8>>)
    requires
        next(v, e, outcome).1 is Respond,
    ensures
        v.sealed(),
        v.phase == Phase::Compressing,
        e is Published,
        next(v, e, outcome).0.phase == Phase::Done,
{
}

} // verus!
