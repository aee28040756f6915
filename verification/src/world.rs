//! One request among others: its pipeline, the disk that it shares with
//! every other request, and what an honest host reads back from it.
//!
//! The other requests appear here only as changes to the disk that leave
//! this request's scratch files alone, which is all that they can do.

use vstd::prelude::*;
use crate::disk::disk_after;
use crate::disk::lemma_artifact_is_no_scratch_file;
use crate::disk::lemma_step_spares_other_requests;
use crate::disk::spares;
use crate::disk::Disk;
use crate::gzip::gzip_decoded;
use crate::pipeline::initial;
use crate::pipeline::next;
use crate::pipeline::lemma_initial_state_in_order;
use crate::pipeline::lemma_step_keeps_state_in_order;
use crate::pipeline::read_by;
use crate::pipeline::state_in_order;
use crate::pipeline::ActionView;
use crate::pipeline::EventView;
use crate::pipeline::Phase;
use crate::pipeline::PipelineView;
use crate::scratch::lemma_upload_is_not_staging;
use crate::scratch::staging_path_of;
use crate::scratch::upload_path_of;
use crate::settings::has_extension;

verus! {

/// A request in its surroundings.
pub struct World {
    /// The files, shared by all requests.
    pub disk: Disk,
    /// The state of this request's pipeline.
    pub request: PipelineView,
    /// What the client has sent of the upload, in the `file` field that
    /// came last.
    pub uploaded: Seq<u8>,
    /// How much of the upload the host has read back for compression.
    pub read: nat,
}

/// What happens next.
pub enum Move {
    /// The host reports an event to this request's pipeline and does what
    /// it is told; the encoder, where asked, gives the outcome.
    Own(EventView, Option<Seq<u8>>),
    /// Other requests work on the disk, which is left as given.
    Elsewhere(Disk),
}

/// The world of a request of which nothing has been read yet.
pub open spec fn first_world(id: u64, disk: Disk) -> World {
    World { disk, request: initial(id), uploaded: Seq::empty(), read: 0 }
}

/// Whether the move is one that honest hosts make: other requests leave
/// this request's scratch files alone, and what the host hands over for
/// compression is what the upload's scratch file holds, piece after piece
/// and up to its end.
pub open spec fn honest(w: World, m: Move) -> bool {
    let upload = w.disk[upload_path_of(w.request.id)];
    match m {
        Move::Elsewhere(disk) => spares(w.disk, disk, w.request.id),
        Move::Own(EventView::Source(chunk), _) => {
            &&& w.read + chunk.len() <= upload.len()
            &&& chunk == upload.subrange(w.read as int, (w.read + chunk.len()) as int)
        },
        Move::Own(EventView::SourceEnd, _) => w.read == upload.len(),
        Move::Own(_, _) => true,
    }
}

/// The world after a move.
pub open spec fn world_after(w: World, m: Move) -> World {
    match m {
        Move::Elsewhere(disk) => World { disk, ..w },
        Move::Own(e, outcome) => {
            let (request, action) = next(w.request, e, outcome);
            World {
                disk: disk_after(w.disk, w.request.id, action),
                request,
                uploaded: match action {
                    ActionView::CreateUpload(_) => Seq::empty(),
                    ActionView::AppendUpload(bytes) => w.uploaded + bytes,
                    _ => w.uploaded,
                },
                read: match action {
                    ActionView::StartCompression { .. } => 0,
                    ActionView::AppendArtifact(_) => w.read + read_by(e).len(),
                    _ => w.read,
                },
            }
        },
    }
}

/// The world after a run of moves.
pub open spec fn world_after_all(w: World, moves: Seq<Move>) -> World
    decreases moves.len(),
{
    if moves.len() == 0 {
        w
    } else {
        world_after(world_after_all(w, moves.drop_last()), moves.last())
    }
}

/// Whether every move of the run is honest at the point at which it is made.
pub open spec fn all_honest(w: World, moves: Seq<Move>) -> bool
    decreases moves.len(),
{
    moves.len() > 0 ==> {
        &&& all_honest(w, moves.drop_last())
        &&& honest(world_after_all(w, moves.drop_last()), moves.last())
    }
}

/// Whether the upload's scratch file holds what the client has sent, for as
/// long as the request is under way.
pub open spec fn upload_in_order(w: World) -> bool {
    let upload = upload_path_of(w.request.id);
    w.request.has_file && !w.request.finished() ==> {
        &&& w.disk.contains_key(upload)
        &&& w.disk[upload] == w.uploaded
    }
}

/// Whether the artifact under construction holds what the pipeline has on
/// record as produced, and what it has on record as consumed is what the
/// host has read back of the upload: all of it, once the encoder is closed.
pub open spec fn artifact_in_order(w: World) -> bool {
    let v = w.request;
    let staging = staging_path_of(v.id);
    &&& v.phase == Phase::Compressing && v.streaming() ==> {
        &&& w.disk.contains_key(staging)
        &&& w.disk[staging] == v.produced
        &&& w.read <= w.uploaded.len()
        &&& v.consumed == w.uploaded.take(w.read as int)
    }
    &&& v.phase == Phase::Compressing && !v.streaming() ==> v.consumed == w.uploaded
}

/// Whether the request's files hold what its pipeline has on record.
pub open spec fn in_order(w: World) -> bool {
    &&& state_in_order(w.request)
    &&& upload_in_order(w)
    &&& artifact_in_order(w)
}

/// An honest move keeps the request's files in order, whatever the other
/// requests do meanwhile.
pub proof fn lemma_move_keeps_order(w: World, m: Move)
    requires
        in_order(w),
        honest(w, m),
    ensures
        in_order(world_after(w, m)),
{
    let v = w.request;
    let after = world_after(w, m);
    lemma_upload_is_not_staging(v.id, v.id);
    lemma_artifact_is_no_scratch_file(v.settings.output_name, v.id);
    match m {
        Move::Elsewhere(disk) => {
        },
        Move::Own(e, outcome) => {
            let (request, action) = next(v, e, outcome);
            lemma_step_keeps_state_in_order(v, e, outcome);
            if action is StartCompression {
                assert(after.request.consumed =~= w.uploaded.take(0));
            }
            if v.phase == Phase::Compressing && v.streaming() {
                match e {
                    EventView::Source(chunk) => {
                        if outcome is Some {
                            assert(after.request.consumed =~= w.uploaded.take(
                                after.read as int,
                            ));
                        }
                    },
                    EventView::SourceEnd => {
                        assert(w.uploaded.take(w.read as int) =~= w.uploaded);
                    },
                    _ => {},
                }
            }
        },
    }
}

/// What one request does is, to every request with another identifier, a
/// move made elsewhere, and an honest one. So two uploads that run at the
/// same time, their steps woven together in any order, are each an honest
/// run in a world of its own.
pub proof fn lemma_other_request_moves_elsewhere(
    w: World,
    other: PipelineView,
    e: EventView,
    outcome: Option<Seq<u8>>,
)
    requires
        other.id != w.request.id,
        has_extension(other.settings.output_name),
    ensures
        honest(
            w,
            Move::Elsewhere(disk_after(w.disk, other.id, next(other, e, outcome).1)),
        ),
{
    lemma_step_spares_other_requests(w.disk, other, e, outcome, w.request.id);
}

/// Publishing puts in place exactly what was produced from exactly what
/// was uploaded: when the pipeline has the host publish, the artifact that
/// then lies under the name in force holds every byte that the pipeline
/// has on record as produced, and what it has on record as consumed is the
/// whole upload. Where the one decodes to the other, as it does for every
/// stream that was closed, the artifact decodes to the upload.
pub proof fn lemma_published_artifact_is_the_upload_compressed(
    w: World,
    e: EventView,
    outcome: Option<Seq<u8>>,
)
    requires
        in_order(w),
        honest(w, Move::Own(e, outcome)),
        next(w.request, e, outcome).1 is Publish,
    ensures
        ({
            let after = world_after(w, Move::Own(e, outcome));
            let artifact = w.request.settings.output_name;
            &&& next(w.request, e, outcome).1->artifact == artifact
            &&& after.disk.contains_key(artifact)
            &&& after.disk[artifact] == after.request.produced
            &&& after.request.consumed == w.uploaded
            &&& after.request.sealed()
            &&& gzip_decoded(after.request.produced) == Some(after.request.consumed)
                ==> gzip_decoded(after.disk[artifact]) == Some(w.uploaded)
        }),
{
    assert(w.uploaded.take(w.read as int) =~= w.uploaded);
}

/// An honest run keeps the request's files in order from the first move
/// to the last, however the moves of other requests are woven into it.
pub proof fn lemma_run_keeps_order(id: u64, disk: Disk, moves: Seq<Move>)
    requires
        all_honest(first_world(id, disk), moves),
    ensures
        in_order(world_after_all(first_world(id, disk), moves)),
    decreases moves.len(),
{
    if moves.len() == 0 {
        lemma_initial_state_in_order(id);
    } else {
        lemma_run_keeps_order(id, disk, moves.drop_last());
        lemma_move_keeps_order(
            world_after_all(first_world(id, disk), moves.drop_last()),
            moves.last(),
        );
    }
}

} // verus!
