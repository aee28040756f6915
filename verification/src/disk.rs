//! The host's files, as far as the pipeline's actions decide what they hold.
//!
//! The pipeline touches no file, but each of its actions tells the host
//! exactly what to do to one. This module writes that down, and shows that
//! requests with different identifiers stay out of each other's way.

use vstd::prelude::*;
use crate::pipeline::next;
use crate::pipeline::ActionView;
use crate::pipeline::EventView;
use crate::pipeline::PipelineView;
use crate::scratch::lemma_decimal_text_nonempty;
use crate::scratch::lemma_scratch_paths_are_unique;
use crate::scratch::lemma_upload_is_not_staging;
use crate::scratch::staging_path_of;
use crate::scratch::upload_path_of;
use crate::settings::has_extension;

verus! {

/// The files by path, each with its content.
pub type Disk = Map<Seq<char>, Seq<u8>>;

/// The disk without the file at `path`, if a path is given.
pub open spec fn without(disk: Disk, path: Option<Seq<char>>) -> Disk {
    match path {
        Some(p) => disk.remove(p),
        None => disk,
    }
}

/// The disk after the host has done what the action asks, on behalf of the
/// request with identifier `id`.
pub open spec fn disk_after(disk: Disk, id: u64, a: ActionView) -> Disk {
    match a {
        ActionView::CreateUpload(path) => disk.insert(path, Seq::empty()),
        ActionView::AppendUpload(bytes) => disk.insert(
            upload_path_of(id),
            disk[upload_path_of(id)] + bytes,
        ),
        ActionView::StartCompression { source, staging, level } => disk.insert(
            staging,
            Seq::empty(),
        ),
        ActionView::AppendArtifact(bytes) => disk.insert(
            staging_path_of(id),
            disk[staging_path_of(id)] + bytes,
        ),
        ActionView::Publish { tail, staging, artifact } => disk.remove(staging).insert(
            artifact,
            disk[staging] + tail,
        ),
        ActionView::Respond { result, upload } => disk.remove(upload),
        ActionView::Abort { kind, upload, staging } => without(without(disk, upload), staging),
        _ => disk,
    }
}

/// Whether the two disks agree on the file at `path`: it is on both with
/// the same content, or on neither.
pub open spec fn same_file(before: Disk, after: Disk, path: Seq<char>) -> bool {
    &&& before.contains_key(path) == after.contains_key(path)
    &&& before.contains_key(path) ==> before[path] == after[path]
}

/// Whether the two disks agree on the scratch files of request `id`.
pub open spec fn spares(before: Disk, after: Disk, id: u64) -> bool {
    &&& same_file(before, after, upload_path_of(id))
    &&& same_file(before, after, staging_path_of(id))
}

/// No artifact lies where a scratch file lies.
pub proof fn lemma_artifact_is_no_scratch_file(name: Seq<char>, id: u64)
    requires
        has_extension(name),
    ensures
        name != upload_path_of(id),
        name != staging_path_of(id),
{
    reveal_strlit(".gz");
    reveal_strlit(".tmp");
    reveal_strlit(".part");
    reveal_strlit("uploads/");
    lemma_decimal_text_nonempty(id as nat);
    assert(name.subrange(name.len() - 3, name.len() as int)[2] == 'z');
    assert(name.last() == 'z');
    assert(upload_path_of(id).last() == 'p');
    assert(staging_path_of(id).last() == 't');
}

/// Requests stay out of each other's way: whatever a request does on any
/// event, it leaves the scratch files of every request with another
/// identifier as they were.
pub proof fn lemma_step_spares_other_requests(
    disk: Disk,
    v: PipelineView,
    e: EventView,
    outcome: Option<Seq<u8>>,
    other: u64,
)
    requires
        v.id != other,
        has_extension(v.settings.output_name),
    ensures
        spares(disk, disk_after(disk, v.id, next(v, e, outcome).1), other),
{
    lemma_scratch_paths_are_unique(v.id, other);
    lemma_upload_is_not_staging(v.id, other);
    lemma_upload_is_not_staging(other, v.id);
    lemma_artifact_is_no_scratch_file(v.settings.output_name, other);
}

/// Answering a request leaves every artifact in place: the scratch files
/// that are then removed are no artifacts.
pub proof fn lemma_answer_leaves_artifacts_alone(
    disk: Disk,
    v: PipelineView,
    e: EventView,
    outcome: Option<Seq<u8>>,
    name: Seq<char>,
)
    requires
        next(v, e, outcome).1 is Respond || next(v, e, outcome).1 is Abort,
        has_extension(name),
    ensures
        same_file(disk, disk_after(disk, v.id, next(v, e, outcome).1), name),
{
    lemma_artifact_is_no_scratch_file(name, v.id);
}

} // verus!
