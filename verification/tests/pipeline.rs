use std::collections::HashMap;
use std::io::Read;
use std::io::Write;
use upload_gzip::artifact::plan_download;
use upload_gzip::artifact::DownloadStep;
use upload_gzip::failure::ErrorKind;
use upload_gzip::pipeline::Action;
use upload_gzip::pipeline::Event;
use upload_gzip::pipeline::Phase;
use upload_gzip::report::CompressionResult;
use upload_gzip::upload::after_finish;
use upload_gzip::upload::after_write;
use upload_gzip::upload::UploadPipeline;

/// A directory held in memory.
struct Disk {
    files: HashMap<String, Vec<u8>>,
    created: Vec<String>,
    removed: Vec<String>,
}

fn disk() -> Disk {
    Disk { files: HashMap::new(), created: Vec::new(), removed: Vec::new() }
}

/// One request under way: the pipeline, and what the host keeps beside it.
struct Request {
    pipeline: Option<UploadPipeline>,
    upload: Option<String>,
    staging: Option<String>,
    answer: Option<Result<CompressionResult, ErrorKind>>,
    log: Vec<String>,
}

fn request(id: u64) -> Request {
    Request { pipeline: Some(UploadPipeline::new(id)), upload: None, staging: None, answer: None, log: Vec::new() }
}

impl Request {
    fn phase(&self) -> Phase {
        self.pipeline.as_ref().unwrap().phase()
    }

    /// Reports one event and does what the pipeline asks.
    fn feed(&mut self, disk: &mut Disk, event: Event) {
        let (pipeline, action) = self.pipeline.take().unwrap().step(event);
        self.pipeline = Some(pipeline);
        match action {
            Action::Continue => self.log.push("continue".into()),
            Action::CreateUpload(path) => {
                self.log.push(format!("create {}", path));
                disk.created.push(path.clone());
                disk.files.insert(path.clone(), Vec::new());
                self.upload = Some(path);
            }
            Action::AppendUpload(bytes) => {
                self.log.push(format!("append-upload {}", bytes.len()));
                disk.files.get_mut(self.upload.as_ref().unwrap()).unwrap().extend(bytes);
            }
            Action::SealUpload => self.log.push("seal".into()),
            Action::StartCompression { source, staging, level } => {
                self.log.push(format!("start {} {} {}", source, staging, level));
                assert_eq!(Some(&source), self.upload.as_ref());
                disk.created.push(staging.clone());
                disk.files.insert(staging.clone(), Vec::new());
                self.staging = Some(staging);
            }
            Action::AppendArtifact(bytes) => {
                self.log.push("append-artifact".into());
                disk.files.get_mut(self.staging.as_ref().unwrap()).unwrap().extend(bytes);
            }
            Action::Publish { tail, staging, artifact } => {
                self.log.push(format!("publish {} {}", staging, artifact));
                let mut bytes = disk.files.remove(&staging).unwrap();
                bytes.extend(tail);
                disk.created.push(artifact.clone());
                disk.files.insert(artifact, bytes);
            }
            Action::Respond { result, upload } => {
                self.log.push("respond".into());
                assert!(self.answer.is_none());
                self.answer = Some(Ok(result));
                disk.removed.push(upload.clone());
                disk.files.remove(&upload);
            }
            Action::Abort { kind, upload, staging } => {
                self.log.push("abort".into());
                assert!(self.answer.is_none());
                self.answer = Some(Err(kind));
                for path in [upload, staging].into_iter().flatten() {
                    disk.removed.push(path.clone());
                    disk.files.remove(&path);
                }
            }
        }
    }

    fn field(&mut self, disk: &mut Disk, name: &str, chunks: &[&[u8]]) {
        self.feed(disk, Event::FieldStart(name.to_string()));
        for chunk in chunks {
            self.feed(disk, Event::Chunk(chunk.to_vec()));
        }
        self.feed(disk, Event::FieldEnd);
    }

    /// Ends the fields and, if the pipeline asks for it, reads the upload
    /// back in pieces of `piece` bytes.
    fn finish(&mut self, disk: &mut Disk, piece: usize) {
        self.feed(disk, Event::EndOfFields);
        if self.phase() != Phase::Compressing {
            return;
        }
        let source = disk.files.get(self.upload.as_ref().unwrap()).unwrap().clone();
        for chunk in source.chunks(piece) {
            self.feed(disk, Event::Source(chunk.to_vec()));
        }
        self.feed(disk, Event::SourceEnd);
        self.feed(disk, Event::Published(1_500_000));
    }
}

fn gunzip(bytes: &[u8]) -> Vec<u8> {
    let mut plain = Vec::new();
    flate2::read::GzDecoder::new(bytes).read_to_end(&mut plain).unwrap();
    plain
}

/// Looks an artifact up as a download would.
fn download(disk: &Disk, name: &str) -> Result<Vec<u8>, ErrorKind> {
    match plan_download(name) {
        DownloadStep::Open(path) => match disk.files.get(&path) {
            Some(bytes) => Ok(bytes.clone()),
            None => Err(ErrorKind::NotFound),
        },
        DownloadStep::Refuse(kind) => Err(kind),
    }
}

#[test]
fn ten_bytes_and_no_optional_fields() {
    let mut disk = disk();
    let mut r = request(1);
    r.field(&mut disk, "file", &[b"0123456789"]);
    r.finish(&mut disk, 4);
    let answer = r.answer.take().unwrap().unwrap();
    assert_eq!(answer.status(), "success");
    assert_eq!(answer.download_url(), "/download/compressed_output.gz");
    assert_eq!(answer.elapsed_time(), "1.5ms");
    assert_eq!(r.phase(), Phase::Done);
    let name = answer.download_url().strip_prefix("/download/").unwrap().to_string();
    assert_eq!(gunzip(&download(&disk, &name).unwrap()), b"0123456789");
    assert_eq!(r.pipeline.as_ref().unwrap().settings().level(), 6);
    // nothing but the artifact is left behind
    assert_eq!(disk.files.len(), 1);
}

#[test]
fn level_nine_and_a_name() {
    let mut disk = disk();
    let mut r = request(2);
    r.field(&mut disk, "level", &[b"9"]);
    r.field(&mut disk, "output_name", &[b"report"]);
    r.field(&mut disk, "file", &[b"some ", b"content"]);
    r.finish(&mut disk, 1024);
    let answer = r.answer.take().unwrap().unwrap();
    assert_eq!(answer.download_url(), "/download/report.gz");
    assert!(r.log.contains(&"start uploads/2.tmp uploads/2.part 9".to_string()));
    assert_eq!(gunzip(&download(&disk, "report.gz").unwrap()), b"some content");
    assert_eq!(download(&disk, "compressed_output.gz"), Err(ErrorKind::NotFound));
}

#[test]
fn level_fifteen_still_succeeds() {
    let mut disk = disk();
    let mut r = request(3);
    r.field(&mut disk, "level", &[b"15"]);
    r.field(&mut disk, "file", &[b"payload"]);
    r.finish(&mut disk, 1024);
    let answer = r.answer.take().unwrap().unwrap();
    assert_eq!(answer.status(), "success");
    assert!(r.log.contains(&"start uploads/3.tmp uploads/3.part 6".to_string()));
    assert_eq!(gunzip(&download(&disk, "compressed_output.gz").unwrap()), b"payload");
}

#[test]
fn unusable_levels_fall_back_to_the_default() {
    for text in [&b"10"[..], b"-1", b"abc", b"", b"\xff\xfe", b"9.0"] {
        let mut disk = disk();
        let mut r = request(4);
        r.field(&mut disk, "file", &[b"payload"]);
        r.field(&mut disk, "level", &[text]);
        r.finish(&mut disk, 1024);
        assert!(r.answer.take().unwrap().is_ok());
        assert!(r.log.contains(&"start uploads/4.tmp uploads/4.part 6".to_string()));
    }
}

#[test]
fn a_level_may_arrive_in_pieces_and_after_the_file() {
    let mut disk = disk();
    let mut r = request(5);
    r.field(&mut disk, "file", &[b"payload"]);
    r.field(&mut disk, "level", &[b"", b"0", b"3"]);
    r.field(&mut disk, "output_name", &[b"re", b"", b"port"]);
    r.finish(&mut disk, 1024);
    assert!(r.log.contains(&"start uploads/5.tmp uploads/5.part 3".to_string()));
    assert_eq!(gunzip(&download(&disk, "report.gz").unwrap()), b"payload");
}

#[test]
fn the_last_usable_field_wins() {
    let mut disk = disk();
    let mut r = request(6);
    r.field(&mut disk, "level", &[b"2"]);
    r.field(&mut disk, "level", &[b"8"]);
    r.field(&mut disk, "level", &[b"80"]);
    r.field(&mut disk, "output_name", &[b"one"]);
    r.field(&mut disk, "output_name", &[b"two"]);
    r.field(&mut disk, "output_name", &[b"\xff"]);
    r.field(&mut disk, "file", &[b"x"]);
    r.finish(&mut disk, 1024);
    assert!(r.log.contains(&"start uploads/6.tmp uploads/6.part 8".to_string()));
    assert_eq!(r.answer.take().unwrap().unwrap().download_url(), "/download/two.gz");
}

#[test]
fn other_fields_are_read_past() {
    let mut disk = disk();
    let mut r = request(7);
    r.field(&mut disk, "comment", &[b"9", b"ignored"]);
    r.field(&mut disk, "file", &[b"x"]);
    r.field(&mut disk, "", &[b"y"]);
    r.finish(&mut disk, 1024);
    let answer = r.answer.take().unwrap().unwrap();
    assert_eq!(answer.download_url(), "/download/compressed_output.gz");
    assert!(r.log.contains(&"start uploads/7.tmp uploads/7.part 6".to_string()));
}

#[test]
fn no_file_field_is_a_client_error_and_touches_nothing() {
    let mut disk = disk();
    let mut r = request(8);
    r.field(&mut disk, "level", &[b"9"]);
    r.field(&mut disk, "output_name", &[b"report"]);
    r.field(&mut disk, "comment", &[b"hello"]);
    r.finish(&mut disk, 1024);
    assert_eq!(r.answer, Some(Err(ErrorKind::NoFileProvided)));
    assert_eq!(r.phase(), Phase::Failed);
    assert!(disk.created.is_empty());
    assert!(disk.files.is_empty());
    assert!(ErrorKind::NoFileProvided.is_client_fault());
    assert_eq!(ErrorKind::NoFileProvided.message(), "No file uploaded");
}

#[test]
fn an_empty_request_has_no_file() {
    let mut disk = disk();
    let mut r = request(9);
    r.finish(&mut disk, 1024);
    assert_eq!(r.answer, Some(Err(ErrorKind::NoFileProvided)));
    assert_eq!(r.log, vec!["abort".to_string()]);
    assert!(disk.created.is_empty());
}

#[test]
fn an_empty_file_is_still_a_file() {
    let mut disk = disk();
    let mut r = request(10);
    r.field(&mut disk, "file", &[]);
    r.finish(&mut disk, 1024);
    assert!(r.answer.take().unwrap().is_ok());
    assert_eq!(gunzip(&download(&disk, "compressed_output.gz").unwrap()), b"");
}

#[test]
fn the_upload_is_drained_in_arrival_order() {
    let mut disk = disk();
    let mut r = request(11);
    r.feed(&mut disk, Event::FieldStart("file".into()));
    assert_eq!(r.phase(), Phase::Draining);
    r.feed(&mut disk, Event::Chunk(b"abc".to_vec()));
    r.feed(&mut disk, Event::Chunk(b"".to_vec()));
    r.feed(&mut disk, Event::Chunk(b"defg".to_vec()));
    assert_eq!(disk.files["uploads/11.tmp"], b"abcdefg");
    r.feed(&mut disk, Event::FieldEnd);
    assert_eq!(r.phase(), Phase::AwaitingFields);
    assert_eq!(
        r.log,
        vec!["create uploads/11.tmp", "append-upload 3", "append-upload 0", "append-upload 4", "seal"]
    );
}

#[test]
fn a_second_file_field_starts_the_upload_afresh() {
    let mut disk = disk();
    let mut r = request(12);
    r.field(&mut disk, "file", &[b"first"]);
    r.field(&mut disk, "file", &[b"second"]);
    r.finish(&mut disk, 1024);
    assert_eq!(gunzip(&download(&disk, "compressed_output.gz").unwrap()), b"second");
}

#[test]
fn malformed_framing_is_a_client_error() {
    for after in 0..4 {
        let mut disk = disk();
        let mut r = request(13);
        let events = vec![
            Event::FieldStart("level".into()),
            Event::FieldEnd,
            Event::FieldStart("file".into()),
        ];
        for e in events.into_iter().take(after) {
            r.feed(&mut disk, e);
        }
        r.feed(&mut disk, Event::Malformed);
        assert_eq!(r.answer, Some(Err(ErrorKind::MalformedRequest)));
        assert_eq!(r.phase(), Phase::Failed);
        assert!(disk.files.is_empty());
    }
}

#[test]
fn a_storage_error_fails_the_request_in_every_phase() {
    for after in 0..7 {
        let mut disk = disk();
        let mut r = request(14);
        let events = vec![
            Event::FieldStart("file".into()),
            Event::Chunk(b"abc".to_vec()),
            Event::FieldEnd,
            Event::EndOfFields,
            Event::Source(b"abc".to_vec()),
            Event::SourceEnd,
        ];
        for e in events.into_iter().take(after) {
            r.feed(&mut disk, e);
        }
        assert!(r.answer.is_none());
        r.feed(&mut disk, Event::StorageError);
        assert_eq!(r.answer, Some(Err(ErrorKind::StorageFailure)));
        assert_eq!(r.phase(), Phase::Failed);
        assert!(!ErrorKind::StorageFailure.is_client_fault());
        // the scratch files are gone; only a published artifact may remain
        assert!(!disk.files.contains_key("uploads/14.tmp"));
        assert!(!disk.files.contains_key("uploads/14.part"));
        assert_eq!(disk.files.len(), if after == 6 { 1 } else { 0 });
    }
}

#[test]
fn events_out_of_step_fail_the_request() {
    let out_of_step = vec![
        (0, Event::Chunk(b"x".to_vec())),
        (0, Event::FieldEnd),
        (0, Event::Source(b"x".to_vec())),
        (0, Event::SourceEnd),
        (0, Event::Published(1)),
        (1, Event::FieldStart("level".into())),
        (1, Event::EndOfFields),
        (3, Event::Published(1)),
        (4, Event::Chunk(b"x".to_vec())),
        (4, Event::Published(1)),
        (4, Event::Malformed),
        (5, Event::Source(b"x".to_vec())),
        (5, Event::SourceEnd),
        (5, Event::EndOfFields),
    ];
    for (after, event) in out_of_step {
        let mut disk = disk();
        let mut r = request(15);
        let events = vec![
            Event::FieldStart("file".into()),
            Event::Chunk(b"abc".to_vec()),
            Event::FieldEnd,
            Event::EndOfFields,
            Event::SourceEnd,
        ];
        for e in events.into_iter().take(after) {
            r.feed(&mut disk, e);
        }
        r.feed(&mut disk, event);
        assert_eq!(r.answer, Some(Err(ErrorKind::StorageFailure)), "after {}", after);
        assert_eq!(r.phase(), Phase::Failed);
    }
}

#[test]
fn a_finished_request_answers_nothing_more() {
    let mut disk = disk();
    let mut r = request(16);
    r.field(&mut disk, "file", &[b"x"]);
    r.finish(&mut disk, 1024);
    let answer = r.answer.take();
    assert!(answer.unwrap().is_ok());
    let before = r.log.len();
    r.feed(&mut disk, Event::StorageError);
    r.feed(&mut disk, Event::EndOfFields);
    r.feed(&mut disk, Event::Published(5));
    assert!(r.answer.is_none());
    assert_eq!(r.phase(), Phase::Done);
    assert_eq!(&r.log[before..], &["continue", "continue", "continue"]);

    let mut failed = request(17);
    failed.finish(&mut disk, 1024);
    assert_eq!(failed.answer.take(), Some(Err(ErrorKind::NoFileProvided)));
    failed.feed(&mut disk, Event::FieldStart("file".into()));
    assert!(failed.answer.is_none());
    assert_eq!(failed.phase(), Phase::Failed);
}

#[test]
fn the_artifact_appears_only_when_published() {
    let mut disk = disk();
    let mut r = request(18);
    r.field(&mut disk, "file", &[&[7u8; 200_000][..]]);
    r.feed(&mut disk, Event::EndOfFields);
    assert_eq!(download(&disk, "compressed_output.gz"), Err(ErrorKind::NotFound));
    for _ in 0..4 {
        r.feed(&mut disk, Event::Source(vec![7u8; 50_000]));
        assert_eq!(download(&disk, "compressed_output.gz"), Err(ErrorKind::NotFound));
    }
    r.feed(&mut disk, Event::SourceEnd);
    assert!(r.answer.is_none());
    assert_eq!(gunzip(&download(&disk, "compressed_output.gz").unwrap()), vec![7u8; 200_000]);
    r.feed(&mut disk, Event::Published(10));
    assert!(r.answer.take().unwrap().is_ok());
}

#[test]
fn two_uploads_at_once_do_not_disturb_each_other() {
    let mut disk = disk();
    let mut a = request(100);
    let mut b = request(101);
    let content: Vec<u8> = (0..50_000u32).map(|i| (i * 31 % 251) as u8).collect();
    let names = [&b"same"[..]];
    a.feed(&mut disk, Event::FieldStart("file".into()));
    b.feed(&mut disk, Event::FieldStart("file".into()));
    for piece in content.chunks(777) {
        a.feed(&mut disk, Event::Chunk(piece.to_vec()));
        b.feed(&mut disk, Event::Chunk(piece.to_vec()));
    }
    a.feed(&mut disk, Event::FieldEnd);
    a.field(&mut disk, "output_name", &names);
    b.feed(&mut disk, Event::FieldEnd);
    b.field(&mut disk, "output_name", &names);
    a.feed(&mut disk, Event::EndOfFields);
    b.feed(&mut disk, Event::EndOfFields);
    assert_ne!(a.upload, b.upload);
    assert_ne!(a.staging, b.staging);
    for piece in content.chunks(1234) {
        a.feed(&mut disk, Event::Source(piece.to_vec()));
        b.feed(&mut disk, Event::Source(piece.to_vec()));
    }
    a.feed(&mut disk, Event::SourceEnd);
    assert_eq!(gunzip(&download(&disk, "same.gz").unwrap()), content);
    b.feed(&mut disk, Event::SourceEnd);
    assert_eq!(gunzip(&download(&disk, "same.gz").unwrap()), content);
    a.feed(&mut disk, Event::Published(1));
    b.feed(&mut disk, Event::Published(2));
    assert_eq!(a.answer.take().unwrap().unwrap().download_url(), "/download/same.gz");
    assert_eq!(b.answer.take().unwrap().unwrap().download_url(), "/download/same.gz");
    assert_eq!(disk.files.len(), 1);
}

#[test]
fn scratch_files_are_out_of_reach_of_downloads() {
    let mut disk = disk();
    let mut r = request(19);
    r.field(&mut disk, "file", &[b"secret"]);
    assert!(disk.files.contains_key("uploads/19.tmp"));
    assert_eq!(download(&disk, "uploads/19.tmp"), Err(ErrorKind::InvalidArtifactName));
    assert_eq!(download(&disk, "19.tmp"), Err(ErrorKind::NotFound));
}

#[test]
fn the_encoders_answer_becomes_the_action() {
    let upload = || "uploads/1.tmp".to_string();
    let staging = || "uploads/1.part".to_string();
    let abort = Action::Abort {
        kind: ErrorKind::StorageFailure,
        upload: Some(upload()),
        staging: Some(staging()),
    };
    assert_eq!(after_write(Ok(vec![1, 2, 3]), upload(), staging()), Action::AppendArtifact(vec![1, 2, 3]));
    assert_eq!(after_write(Ok(Vec::new()), upload(), staging()), Action::AppendArtifact(Vec::new()));
    assert_eq!(after_write(Err(ErrorKind::StorageFailure), upload(), staging()), abort);
    assert_eq!(
        after_finish(Ok(vec![9]), upload(), staging(), "a.gz".into()),
        Action::Publish { tail: vec![9], staging: staging(), artifact: "a.gz".into() }
    );
    assert_eq!(after_finish(Err(ErrorKind::StorageFailure), upload(), staging(), "a.gz".into()), abort);
}

#[test]
fn a_fresh_pipeline_awaits_fields_with_default_settings() {
    let p = UploadPipeline::new(5);
    assert_eq!(p.phase(), Phase::AwaitingFields);
    assert_eq!(p.settings().level(), 6);
    assert_eq!(p.settings().output_name(), "compressed_output.gz");
    assert_eq!(p.upload_path(), "uploads/5.tmp");
    assert_eq!(p.staging_path(), "uploads/5.part");
}

fn by_flate2(data: &[u8], level: flate2::Compression) -> Vec<u8> {
    let mut e = flate2::write::GzEncoder::new(Vec::new(), level);
    e.write_all(data).unwrap();
    e.finish().unwrap()
}

/// Uploads `data` with the given `level` field, if any, and returns the
/// artifact as it lies on the disk.
fn upload_at(level: Option<&[u8]>, data: &[u8]) -> Vec<u8> {
    let mut disk = disk();
    let mut r = request(30);
    r.field(&mut disk, "file", &[data]);
    if let Some(text) = level {
        r.field(&mut disk, "level", &[text]);
    }
    r.finish(&mut disk, 1 << 20);
    assert!(r.answer.take().unwrap().is_ok());
    download(&disk, "compressed_output.gz").unwrap()
}

#[test]
fn level_fifteen_is_compressed_at_the_default_level() {
    let artifact = upload_at(Some(b"15"), b"0123456789");
    assert_eq!(artifact, by_flate2(b"0123456789", flate2::Compression::default()));
    assert_eq!(artifact, by_flate2(b"0123456789", flate2::Compression::new(6)));
    assert_eq!(artifact[8], 0);
    assert_ne!(artifact, by_flate2(b"0123456789", flate2::Compression::new(9)));
}

#[test]
fn level_nine_is_compressed_at_level_nine() {
    let artifact = upload_at(Some(b"9"), b"0123456789");
    assert_eq!(artifact, by_flate2(b"0123456789", flate2::Compression::new(9)));
    assert_eq!(artifact[8], 2);
    assert_ne!(artifact, by_flate2(b"0123456789", flate2::Compression::default()));
}

#[test]
fn the_artifact_shows_the_level_in_force() {
    let data: Vec<u8> = (0..40_000u32).map(|i| (i * i % 253) as u8).collect();
    assert_eq!(upload_at(None, &data)[8], 0);
    assert_eq!(upload_at(Some(b"0"), &data)[8], 4);
    assert_eq!(upload_at(Some(b"1"), &data)[8], 4);
    assert_eq!(upload_at(Some(b"2"), &data)[8], 0);
    assert_eq!(upload_at(Some(b"8"), &data)[8], 0);
    assert_eq!(upload_at(Some(b"9"), &data)[8], 2);
    assert_eq!(upload_at(Some(b"10"), &data)[8], 0);
    assert_eq!(upload_at(Some(b"-1"), &data)[8], 0);
    assert_eq!(upload_at(Some(b"abc"), &data)[8], 0);
    for level in 0..=9u32 {
        let text = level.to_string();
        assert_eq!(
            upload_at(Some(text.as_bytes()), &data),
            by_flate2(&data, flate2::Compression::new(level)),
            "level {}",
            level
        );
    }
    assert_eq!(upload_at(Some(b"77"), &data), by_flate2(&data, flate2::Compression::default()));
}

#[test]
fn a_sound_upload_is_never_aborted() {
    let mut disk = disk();
    let mut r = request(31);
    let data: Vec<u8> = (0..300_000u32).map(|i| (i % 241) as u8).collect();
    r.field(&mut disk, "file", &[&data[..]]);
    r.finish(&mut disk, 7000);
    assert!(!r.log.contains(&"abort".to_string()));
    assert_eq!(r.log.iter().filter(|l| *l == "respond").count(), 1);
    assert_eq!(gunzip(&download(&disk, "compressed_output.gz").unwrap()), data);
}

/// A disk on which an earlier process has left files at the very paths
/// that request `id` would use, beside two artifacts.
fn stale_disk(id: u64) -> Disk {
    let mut disk = disk();
    disk.files.insert(format!("uploads/{}.tmp", id), b"left over upload".to_vec());
    disk.files.insert(format!("uploads/{}.part", id), b"left over artifact".to_vec());
    disk.files.insert("report.gz".to_string(), b"an artifact".to_vec());
    disk.files.insert("compressed_output.gz".to_string(), b"another".to_vec());
    disk
}

#[test]
fn no_file_field_leaves_a_stale_scratch_file_alone() {
    let mut disk = stale_disk(40);
    let before = disk.files.clone();
    let mut r = request(40);
    r.field(&mut disk, "level", &[b"9"]);
    r.field(&mut disk, "output_name", &[b"report"]);
    r.field(&mut disk, "comment", &[b"hello"]);
    r.finish(&mut disk, 1024);
    assert_eq!(r.answer, Some(Err(ErrorKind::NoFileProvided)));
    assert_eq!(disk.files, before);
    assert!(disk.created.is_empty());
    assert!(disk.removed.is_empty());
}

#[test]
fn no_file_field_names_no_file_for_removal() {
    let p = UploadPipeline::new(41);
    let (p, action) = p.step(Event::EndOfFields);
    assert_eq!(
        action,
        Action::Abort { kind: ErrorKind::NoFileProvided, upload: None, staging: None }
    );
    assert_eq!(p.phase(), Phase::Failed);
}

#[test]
fn a_failure_before_any_file_field_removes_nothing() {
    for event in [Event::Malformed, Event::StorageError, Event::Chunk(vec![1]), Event::SourceEnd] {
        let mut disk = stale_disk(42);
        let before = disk.files.clone();
        let mut r = request(42);
        r.field(&mut disk, "level", &[b"3"]);
        r.feed(&mut disk, event);
        assert!(r.answer.take().unwrap().is_err());
        assert_eq!(disk.files, before);
        assert!(disk.removed.is_empty());
    }
}

#[test]
fn a_failure_removes_what_the_request_has_created() {
    // while the upload is drained: the upload only
    let p = UploadPipeline::new(43);
    let (p, _) = p.step(Event::FieldStart("file".into()));
    let (_, action) = p.step(Event::StorageError);
    assert_eq!(
        action,
        Action::Abort {
            kind: ErrorKind::StorageFailure,
            upload: Some("uploads/43.tmp".into()),
            staging: None
        }
    );
    // between fields, after the upload: still the upload only
    let p = UploadPipeline::new(43);
    let (p, _) = p.step(Event::FieldStart("file".into()));
    let (p, _) = p.step(Event::FieldEnd);
    let (_, action) = p.step(Event::Malformed);
    assert_eq!(
        action,
        Action::Abort {
            kind: ErrorKind::MalformedRequest,
            upload: Some("uploads/43.tmp".into()),
            staging: None
        }
    );
    // while compressing, and while publishing: both
    for sealed in [false, true] {
        let p = UploadPipeline::new(43);
        let (p, _) = p.step(Event::FieldStart("file".into()));
        let (p, _) = p.step(Event::FieldEnd);
        let (mut p, _) = p.step(Event::EndOfFields);
        if sealed {
            p = p.step(Event::SourceEnd).0;
        }
        let (_, action) = p.step(Event::StorageError);
        assert_eq!(
            action,
            Action::Abort {
                kind: ErrorKind::StorageFailure,
                upload: Some("uploads/43.tmp".into()),
                staging: Some("uploads/43.part".into())
            }
        );
    }
}

#[test]
fn a_failed_upload_spares_the_stale_staging_file_it_never_made() {
    let mut disk = stale_disk(44);
    let mut r = request(44);
    r.field(&mut disk, "file", &[b"abc"]);
    r.feed(&mut disk, Event::Malformed);
    assert_eq!(r.answer, Some(Err(ErrorKind::MalformedRequest)));
    assert_eq!(disk.removed, vec!["uploads/44.tmp".to_string()]);
    assert!(!disk.files.contains_key("uploads/44.tmp"));
    assert_eq!(disk.files["uploads/44.part"], b"left over artifact");
    assert_eq!(disk.files["report.gz"], b"an artifact");
}

#[test]
fn a_success_removes_the_upload_and_nothing_else() {
    let mut disk = disk();
    disk.files.insert("report.gz".to_string(), b"an artifact".to_vec());
    let mut r = request(45);
    r.field(&mut disk, "file", &[b"abc"]);
    r.finish(&mut disk, 1024);
    assert!(r.answer.take().unwrap().is_ok());
    assert_eq!(disk.removed, vec!["uploads/45.tmp".to_string()]);
    assert_eq!(disk.files.len(), 2);
    assert_eq!(disk.files["report.gz"], b"an artifact");
    assert_eq!(gunzip(&disk.files["compressed_output.gz"]), b"abc");
}
