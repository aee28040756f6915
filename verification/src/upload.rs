//! The upload pipeline itself: the state of one request, stepped by events.

use vstd::prelude::*;
use vstd::string::StringExecFns;
use crate::compressor::StreamCompressor;
use crate::failure::ErrorKind;
use crate::gzip::gzip_decoded;
use crate::pipeline::asks_encoder;
use crate::pipeline::failed;
use crate::pipeline::initial;
use crate::pipeline::lemma_initial_state_in_order;
use crate::pipeline::state_in_order;
use crate::pipeline::misplaced;
use crate::pipeline::next;
use crate::pipeline::Action;
use crate::pipeline::ActionView;
use crate::pipeline::Event;
use crate::pipeline::EventView;
use crate::pipeline::Phase;
use crate::pipeline::PipelineView;
use crate::report::CompressionResult;
use crate::scratch::staging_path;
use crate::scratch::staging_path_of;
use crate::scratch::upload_path;
use crate::scratch::upload_path_of;
use crate::settings::classify_field;
use crate::settings::CompressionSettings;
use crate::settings::FieldKind;

verus! {

/// The action that answers a chunk of the upload, given what the encoder
/// made of it and where the request's two scratch files lie: the
/// compressed bytes go to the artifact, and a failure ends the request and
/// takes both scratch files away.
pub fn after_write(outcome: Result<Vec<u8>, ErrorKind>, upload: String, staging: String) -> (action:
    Action)
    ensures
        outcome matches Ok(out) ==> action@ == ActionView::AppendArtifact(out@),
        outcome is Err ==> action@ == (ActionView::Abort {
            kind: ErrorKind::StorageFailure,
            upload: Some(upload@),
            staging: Some(staging@),
        }),
{
    match outcome {
        Ok(out) => Action::AppendArtifact(out),
        Err(_) => Action::Abort {
            kind: ErrorKind::StorageFailure,
            upload: Some(upload),
            staging: Some(staging),
        },
    }
}

/// The action that answers the end of the upload, given what closing the
/// encoder gave, where the request's two scratch files lie and what the
/// artifact is to be called: the artifact is published, and a failure ends
/// the request and takes both scratch files away.
pub fn after_finish(
    outcome: Result<Vec<u8>, ErrorKind>,
    upload: String,
    staging: String,
    artifact: String,
) -> (action: Action)
    ensures
        outcome matches Ok(tail) ==> action@ == (ActionView::Publish {
            tail: tail@,
            staging: staging@,
            artifact: artifact@,
        }),
        outcome is Err ==> action@ == (ActionView::Abort {
            kind: ErrorKind::StorageFailure,
            upload: Some(upload@),
            staging: Some(staging@),
        }),
{
    match outcome {
        Ok(tail) => Action::Publish { tail, staging, artifact },
        Err(_) => Action::Abort {
            kind: ErrorKind::StorageFailure,
            upload: Some(upload),
            staging: Some(staging),
        },
    }
}

/// The state of one upload request.
pub struct UploadPipeline {
    id: u64,
    phase: Phase,
    settings: CompressionSettings,
    open_field: Option<FieldKind>,
    pending: Vec<u8>,
    has_file: bool,
    compressor: Option<StreamCompressor>,
    consumed: Ghost<Seq<u8>>,
    produced: Ghost<Seq<u8>>,
}

impl View for UploadPipeline {
    type V = PipelineView;

    closed spec fn view(&self) -> PipelineView {
        PipelineView {
            id: self.id,
            phase: self.phase,
            settings: self.settings@,
            open_field: self.open_field,
            pending: self.pending@,
            has_file: self.has_file,
            stream_level: match self.compressor {
                Some(c) => Some(c.spec_level()),
                None => None,
            },
            consumed: self.consumed@,
            produced: self.produced@,
        }
    }
}

impl UploadPipeline {
    #[verifier::type_invariant]
    spec fn well_formed(self) -> bool {
        &&& self.compressor matches Some(c) ==> {
            &&& self.phase == Phase::Compressing
            &&& !c.is_broken()
            &&& c.spec_level() == self.settings@.level
            &&& c.consumed() == self.consumed@
            &&& c.produced() == self.produced@
        }
        &&& self@.sealed() ==> gzip_decoded(self.produced@) == Some(self.consumed@)
        &&& state_in_order(self@)
    }

    /// Whether the encoder, as it stands, goes along with the event: it
    /// takes the chunk that the event hands over, or can be closed where the
    /// event ends the upload. It matters only where [`asks_encoder`] holds.
    pub closed spec fn encoder_agrees(self, e: EventView) -> bool {
        match (self.compressor, e) {
            (Some(c), EventView::Source(chunk)) => c.takes(chunk),
            (Some(c), EventView::SourceEnd) => c.closes(),
            _ => false,
        }
    }

    /// The pipeline of a request of which nothing has been read yet. The
    /// identifier must be the request's own: no two requests that are alive
    /// at the same time may share one.
    pub fn new(id: u64) -> (p: Self)
        ensures
            p@ == initial(id),
            state_in_order(p@),
    {
        proof {
            lemma_initial_state_in_order(id);
        }
        UploadPipeline {
            id,
            phase: Phase::AwaitingFields,
            settings: CompressionSettings::new(),
            open_field: None,
            pending: Vec::new(),
            has_file: false,
            compressor: None,
            consumed: Ghost(Seq::empty()),
            produced: Ghost(Seq::empty()),
        }
    }

    /// Where the request stands.
    pub fn phase(&self) -> (phase: Phase)
        ensures
            phase == self@.phase,
    {
        self.phase
    }

    /// The settings in force.
    pub fn settings(&self) -> (settings: &CompressionSettings)
        ensures
            settings@ == self@.settings,
    {
        &self.settings
    }

    /// The scratch file that holds the upload.
    pub fn upload_path(&self) -> (path: String)
        ensures
            path@ == upload_path_of(self@.id),
    {
        upload_path(self.id)
    }

    /// The scratch file in which the artifact is built.
    pub fn staging_path(&self) -> (path: String)
        ensures
            path@ == staging_path_of(self@.id),
    {
        staging_path(self.id)
    }

    fn fail(self, kind: ErrorKind) -> (r: (UploadPipeline, Action))
        ensures
            (r.0@, r.1@) == failed(self@, kind),
    {
        proof {
            use_type_invariant(&self);
        }
        let upload = if self.has_file {
            Some(upload_path(self.id))
        } else {
            None
        };
        let staging = match self.phase {
            Phase::Compressing => Some(staging_path(self.id)),
            _ => None,
        };
        (
            UploadPipeline {
                id: self.id,
                phase: Phase::Failed,
                settings: self.settings,
                open_field: None,
                pending: Vec::new(),
                has_file: self.has_file,
                compressor: None,
                consumed: self.consumed,
                produced: self.produced,
            },
            Action::Abort { kind, upload, staging },
        )
    }

    fn reject(self, event: Event) -> (r: (UploadPipeline, Action))
        ensures
            (r.0@, r.1@) == misplaced(self@, event@),
    {
        let malformed = match event {
            Event::Malformed => true,
            _ => false,
        };
        let compressing = match self.phase {
            Phase::Compressing => true,
            _ => false,
        };
        if malformed && !compressing {
            self.fail(ErrorKind::MalformedRequest)
        } else {
            self.fail(ErrorKind::StorageFailure)
        }
    }

    fn step_between_fields(self, event: Event) -> (r: (UploadPipeline, Action))
        requires
            self@.phase == Phase::AwaitingFields,
            self@.open_field is None,
        ensures
            (r.0@, r.1@) == next(self@, event@, None),
    {
        proof {
            use_type_invariant(&self);
        }
        match event {
            Event::FieldStart(name) => {
                match classify_field(name.as_str()) {
                    FieldKind::File => {
                        let path = upload_path(self.id);
                        (
                            UploadPipeline { phase: Phase::Draining, has_file: true, ..self },
                            Action::CreateUpload(path),
                        )
                    },
                    kind => (
                        UploadPipeline { open_field: Some(kind), pending: Vec::new(), ..self },
                        Action::Continue,
                    ),
                }
            },
            Event::EndOfFields => {
                if self.has_file {
                    let level = self.settings.level();
                    let source = upload_path(self.id);
                    let staging = staging_path(self.id);
                    (
                        UploadPipeline {
                            phase: Phase::Compressing,
                            compressor: Some(StreamCompressor::new(level)),
                            consumed: Ghost(Seq::empty()),
                            produced: Ghost(Seq::empty()),
                            ..self
                        },
                        Action::StartCompression { source, staging, level },
                    )
                } else {
                    self.fail(ErrorKind::NoFileProvided)
                }
            },
            other => self.reject(other),
        }
    }

    fn step_inside_field(self, kind: FieldKind, event: Event) -> (r: (UploadPipeline, Action))
        requires
            self@.phase == Phase::AwaitingFields,
            self@.open_field == Some(kind),
        ensures
            (r.0@, r.1@) == next(self@, event@, None),
    {
        proof {
            use_type_invariant(&self);
        }
        match event {
            Event::Chunk(bytes) => {
                match kind {
                    FieldKind::Other => (self, Action::Continue),
                    _ => {
                        let mut bytes = bytes;
                        let mut pending = self.pending;
                        pending.append(&mut bytes);
                        (
                            UploadPipeline {
                                id: self.id,
                                phase: self.phase,
                                settings: self.settings,
                                open_field: self.open_field,
                                pending,
                                has_file: self.has_file,
                                compressor: self.compressor,
                                consumed: self.consumed,
                                produced: self.produced,
                            },
                            Action::Continue,
                        )
                    },
                }
            },
            Event::FieldEnd => {
                let mut settings = self.settings;
                settings.apply_field(kind, self.pending);
                (
                    UploadPipeline {
                        id: self.id,
                        phase: self.phase,
                        settings,
                        open_field: None,
                        pending: Vec::new(),
                        has_file: self.has_file,
                        compressor: self.compressor,
                        consumed: self.consumed,
                        produced: self.produced,
                    },
                    Action::Continue,
                )
            },
            other => self.reject(other),
        }
    }

    fn step_draining(self, event: Event) -> (r: (UploadPipeline, Action))
        requires
            self@.phase == Phase::Draining,
        ensures
            (r.0@, r.1@) == next(self@, event@, None),
    {
        proof {
            use_type_invariant(&self);
        }
        match event {
            Event::Chunk(bytes) => (self, Action::AppendUpload(bytes)),
            Event::FieldEnd => (
                UploadPipeline { phase: Phase::AwaitingFields, ..self },
                Action::SealUpload,
            ),
            other => self.reject(other),
        }
    }

    fn step_streaming(self, event: Event) -> (r: (UploadPipeline, Action))
        requires
            self@.phase == Phase::Compressing,
            self@.streaming(),
        ensures
            exists|outcome: Option<Seq<u8>>| (r.0@, r.1@) == #[trigger] next(self@, event@, outcome),
            !asks_encoder(self@, event@) ==> (r.0@, r.1@) == next(self@, event@, None),
            asks_encoder(self@, event@) ==> (r.1@ is Abort <==> !self.encoder_agrees(event@)),
    {
        proof {
            use_type_invariant(&self);
        }
        match event {
            Event::Source(chunk) => {
                let upload = upload_path(self.id);
                let staging = staging_path(self.id);
                let UploadPipeline {
                    id,
                    phase,
                    settings,
                    open_field,
                    pending,
                    has_file,
                    compressor,
                    consumed,
                    produced,
                } = self;
                let mut compressor = compressor.unwrap();
                match compressor.write(chunk.as_slice()) {
                    Ok(out) => {
                        let ghost out_view = out@;
                        let r = (
                            UploadPipeline {
                                id,
                                phase,
                                settings,
                                open_field,
                                pending,
                                has_file,
                                compressor: Some(compressor),
                                consumed: Ghost(consumed@ + chunk@),
                                produced: Ghost(produced@ + out@),
                            },
                            after_write(Ok(out), upload, staging),
                        );
                        assert((r.0@, r.1@) == next(self@, event@, Some(out_view)));
                        r
                    },
                    Err(_) => {
                        let r = (
                            UploadPipeline {
                                id,
                                phase: Phase::Failed,
                                settings,
                                open_field: None,
                                pending: Vec::new(),
                                has_file,
                                compressor: None,
                                consumed,
                                produced,
                            },
                            after_write(Err(ErrorKind::StorageFailure), upload, staging),
                        );
                        assert((r.0@, r.1@) == next(self@, event@, None));
                        r
                    },
                }
            },
            Event::SourceEnd => {
                let upload = upload_path(self.id);
                let staging = staging_path(self.id);
                let artifact = String::from_str(self.settings.output_name());
                let UploadPipeline {
                    id,
                    phase,
                    settings,
                    open_field,
                    pending,
                    has_file,
                    compressor,
                    consumed,
                    produced,
                } = self;
                match compressor.unwrap().finish() {
                    Ok(tail) => {
                        let ghost tail_view = tail@;
                        let r = (
                            UploadPipeline {
                                id,
                                phase,
                                settings,
                                open_field,
                                pending,
                                has_file,
                                compressor: None,
                                consumed,
                                produced: Ghost(produced@ + tail@),
                            },
                            after_finish(Ok(tail), upload, staging, artifact),
                        );
                        assert((r.0@, r.1@) == next(self@, event@, Some(tail_view)));
                        r
                    },
                    Err(_) => {
                        let r = (
                            UploadPipeline {
                                id,
                                phase: Phase::Failed,
                                settings,
                                open_field: None,
                                pending: Vec::new(),
                                has_file,
                                compressor: None,
                                consumed,
                                produced,
                            },
                            after_finish(Err(ErrorKind::StorageFailure), upload, staging, artifact),
                        );
                        assert((r.0@, r.1@) == next(self@, event@, None));
                        r
                    },
                }
            },
            other => {
                let r = self.reject(other);
                assert((r.0@, r.1@) == next(self@, event@, None));
                r
            },
        }
    }

    fn step_publishing(self, event: Event) -> (r: (UploadPipeline, Action))
        requires
            self@.phase == Phase::Compressing,
            !self@.streaming(),
        ensures
            (r.0@, r.1@) == next(self@, event@, None),
    {
        proof {
            use_type_invariant(&self);
        }
        match event {
            Event::Published(nanos) => {
                let result = CompressionResult::timed(self.settings.output_name(), nanos);
                let upload = upload_path(self.id);
                (UploadPipeline { phase: Phase::Done, ..self }, Action::Respond { result, upload })
            },
            other => self.reject(other),
        }
    }

    /// Takes in one event and says what the host is to do next.
    ///
    /// The new state and the action are those that [`next`] gives. Where the
    /// event has the encoder asked, they are those that `next` gives for
    /// what the encoder answered, and the request is aborted exactly when
    /// the encoder does not go along. In every other case they are fixed by
    /// the state and the event alone.
    ///
    /// While the encoder is open it works at the level in force, and once
    /// the artifact's last byte has been handed out, everything that the
    /// host was told to write to the artifact decodes to exactly the bytes
    /// that went into the encoder.
    pub fn step(self, event: Event) -> (r: (UploadPipeline, Action))
        ensures
            exists|outcome: Option<Seq<u8>>| (r.0@, r.1@) == #[trigger] next(self@, event@, outcome),
            !asks_encoder(self@, event@) ==> (r.0@, r.1@) == next(self@, event@, None),
            asks_encoder(self@, event@) ==> (r.1@ is Abort <==> !self.encoder_agrees(event@)),
            r.0@.stream_level matches Some(level) ==> level == r.0@.settings.level,
            state_in_order(r.0@),
            r.0@.sealed() ==> gzip_decoded(r.0@.produced) == Some(r.0@.consumed),
    {
        proof {
            use_type_invariant(&self);
        }
        let r = match self.phase {
            Phase::AwaitingFields => match self.open_field {
                Some(kind) => self.step_inside_field(kind, event),
                None => self.step_between_fields(event),
            },
            Phase::Draining => self.step_draining(event),
            Phase::Compressing => if self.compressor.is_some() {
                self.step_streaming(event)
            } else {
                self.step_publishing(event)
            },
            Phase::Done => (self, Action::Continue),
            Phase::Failed => (self, Action::Continue),
        };
        proof {
            use_type_invariant(&r.0);
            if !asks_encoder(self@, event@) {
                assert((r.0@, r.1@) == next(self@, event@, None));
            }
        }
        r
    }
}

} // verus!
