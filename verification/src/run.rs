//! Whole runs of the pipeline: what holds of a request from its first event
//! on, however many events follow.

use vstd::prelude::*;
use crate::disk::disk_after;
use crate::disk::Disk;
use crate::failure::ErrorKind;
use crate::level::requested_level;
use crate::level::DEFAULT_LEVEL;
use crate::pipeline::initial;
use crate::pipeline::next;
use crate::pipeline::opens_file;
use crate::pipeline::read_by;
use crate::pipeline::lemma_initial_state_in_order;
use crate::pipeline::lemma_step_keeps_state_in_order;
use crate::pipeline::state_in_order;
use crate::pipeline::written_by;
use crate::pipeline::ActionView;
use crate::pipeline::EventView;
use crate::pipeline::Phase;
use crate::pipeline::PipelineView;
use crate::settings::FieldKind;

verus! {

/// One step of a run: the event, and what the encoder gave for it.
pub type Step = (EventView, Option<Seq<u8>>);

/// The state that a fresh request is in after the given steps.
pub open spec fn state_after(id: u64, steps: Seq<Step>) -> PipelineView
    decreases steps.len(),
{
    if steps.len() == 0 {
        initial(id)
    } else {
        next(state_after(id, steps.drop_last()), steps.last().0, steps.last().1).0
    }
}

/// The action that answers the last of the given steps.
pub open spec fn answer_to_last(id: u64, steps: Seq<Step>) -> ActionView
    recommends
        steps.len() > 0,
{
    next(state_after(id, steps.drop_last()), steps.last().0, steps.last().1).1
}

/// Everything that the actions of a run had the host write to the artifact,
/// in order.
pub open spec fn all_written(id: u64, steps: Seq<Step>) -> Seq<u8>
    decreases steps.len(),
{
    if steps.len() == 0 {
        Seq::empty()
    } else {
        all_written(id, steps.drop_last()) + written_by(answer_to_last(id, steps))
    }
}

/// Everything of the upload that the events of a run handed over while the
/// pipeline was compressing, in order.
pub open spec fn all_read(id: u64, steps: Seq<Step>) -> Seq<u8>
    decreases steps.len(),
{
    if steps.len() == 0 {
        Seq::empty()
    } else if state_after(id, steps.drop_last()).phase == Phase::Compressing {
        all_read(id, steps.drop_last()) + read_by(steps.last().0)
    } else {
        all_read(id, steps.drop_last())
    }
}

/// Every state that a run can reach is in order.
pub proof fn lemma_state_is_in_order(id: u64, steps: Seq<Step>)
    ensures
        state_in_order(state_after(id, steps)),
    decreases steps.len(),
{
    if steps.len() == 0 {
        lemma_initial_state_in_order(id);
    } else {
        lemma_state_is_in_order(id, steps.drop_last());
        lemma_step_keeps_state_in_order(
            state_after(id, steps.drop_last()),
            steps.last().0,
            steps.last().1,
        );
    }
}

/// A request without a `file` field leaves every file as it is: as long as
/// no such field has begun, whatever the disk holds, the disk after the
/// host has done what the action asks is the disk before. No upload is on
/// record, the encoder is not open, and the request is still reading fields
/// or has failed.
pub proof fn lemma_no_file_touches_no_file(id: u64, steps: Seq<Step>, disk: Disk)
    requires
        forall|i: int| 0 <= i < steps.len() ==> !opens_file(#[trigger] steps[i].0),
    ensures
        !state_after(id, steps).has_file,
        !state_after(id, steps).streaming(),
        state_after(id, steps).phase == Phase::AwaitingFields || state_after(id, steps).phase
            == Phase::Failed,
        steps.len() > 0 ==> disk_after(disk, id, answer_to_last(id, steps)) == disk,
    decreases steps.len(),
{
    if steps.len() > 0 {
        let earlier = steps.drop_last();
        assert forall|i: int| 0 <= i < earlier.len() implies !opens_file(
            #[trigger] earlier[i].0,
        ) by {
            assert(earlier[i] == steps[i]);
        }
        lemma_no_file_touches_no_file(id, earlier, disk);
        assert(!opens_file(steps[steps.len() - 1].0));
    }
}

/// A request without a `file` field is answered with
/// [`ErrorKind::NoFileProvided`]: if no such field has begun and the fields
/// end while the pipeline is waiting for the next one, that is the answer,
/// no file is named for removal, and the request has failed.
pub proof fn lemma_no_file_is_refused(id: u64, steps: Seq<Step>, outcome: Option<Seq<u8>>)
    requires
        forall|i: int| 0 <= i < steps.len() ==> !opens_file(#[trigger] steps[i].0),
        state_after(id, steps).phase == Phase::AwaitingFields,
        state_after(id, steps).open_field is None,
    ensures
        answer_to_last(id, steps.push((EventView::EndOfFields, outcome))) == (ActionView::Abort {
            kind: ErrorKind::NoFileProvided,
            upload: None,
            staging: None,
        }),
        state_after(id, steps.push((EventView::EndOfFields, outcome))).phase == Phase::Failed,
{
    lemma_no_file_touches_no_file(id, steps, Map::empty());
    assert(steps.push((EventView::EndOfFields, outcome)).drop_last() =~= steps);
}

/// A request without a `file` field never touches a file, at any point of
/// its run and whatever the disk holds at that point.
pub proof fn lemma_no_file_never_touches_a_file(id: u64, steps: Seq<Step>, k: int, disk: Disk)
    requires
        forall|i: int| 0 <= i < steps.len() ==> !opens_file(#[trigger] steps[i].0),
        0 < k <= steps.len(),
    ensures
        disk_after(disk, id, answer_to_last(id, steps.take(k))) == disk,
        !state_after(id, steps.take(k)).has_file,
{
    let shorter = steps.take(k);
    assert forall|i: int| 0 <= i < shorter.len() implies !opens_file(#[trigger] shorter[i].0) by {
        assert(shorter[i] == steps[i]);
    }
    lemma_no_file_touches_no_file(id, shorter, disk);
}

/// An upload is on record exactly when a `file` field was opened: in a run
/// that has not failed, the pipeline holds that there is a file if and only
/// if some event of the run opened the `file` field.
pub proof fn lemma_has_file_iff_file_opened(id: u64, steps: Seq<Step>)
    requires
        state_after(id, steps).phase != Phase::Failed,
    ensures
        state_after(id, steps).has_file <==> exists|i: int|
            0 <= i < steps.len() && opens_file(#[trigger] steps[i].0),
    decreases steps.len(),
{
    if steps.len() > 0 {
        let earlier = steps.drop_last();
        let last = steps.len() - 1;
        let before = state_after(id, earlier);
        lemma_state_is_in_order(id, earlier);
        lemma_has_file_iff_file_opened(id, earlier);
        if before.has_file {
            let i = choose|i: int| 0 <= i < earlier.len() && opens_file(#[trigger] earlier[i].0);
            assert(steps[i] == earlier[i]);
        } else if state_after(id, steps).has_file {
            assert(opens_file(steps[last].0));
        } else {
            assert forall|i: int| 0 <= i < steps.len() implies !opens_file(
                #[trigger] steps[i].0,
            ) by {
                if i < last {
                    assert(steps[i] == earlier[i]);
                }
            }
        }
    }
}

/// The answer to the end of the fields is [`ErrorKind::NoFileProvided`]
/// exactly when no `file` field was opened: where the fields end while the
/// pipeline is waiting for the next one, the request is refused for want
/// of a file if and only if no event of the run opened the `file` field.
/// Otherwise compression starts.
pub proof fn lemma_refused_exactly_without_file(id: u64, steps: Seq<Step>, outcome: Option<Seq<u8>>)
    requires
        state_after(id, steps).phase == Phase::AwaitingFields,
        state_after(id, steps).open_field is None,
    ensures
        ({
            let answer = answer_to_last(id, steps.push((EventView::EndOfFields, outcome)));
            let opened = exists|i: int| 0 <= i < steps.len() && opens_file(#[trigger] steps[i].0);
            &&& !opened <==> answer == (ActionView::Abort {
                kind: ErrorKind::NoFileProvided,
                upload: None,
                staging: None,
            })
            &&& opened <==> answer is StartCompression
        }),
{
    lemma_has_file_iff_file_opened(id, steps);
    assert(steps.push((EventView::EndOfFields, outcome)).drop_last() =~= steps);
}

/// Whether the event ends a `level` field whose content is a usable level.
pub open spec fn ends_usable_level(v: PipelineView, e: EventView) -> bool {
    &&& v.phase == Phase::AwaitingFields
    &&& v.open_field == Some(FieldKind::Level)
    &&& e is FieldEnd
    &&& requested_level(v.pending) is Some
}

/// Unusable levels are passed over in silence: in a run in which no `level`
/// field ends with a usable level, however many such fields there are and
/// whatever they hold, the default level stays in force, and it is the
/// level that compression is started with.
pub proof fn lemma_unusable_levels_keep_default(id: u64, steps: Seq<Step>)
    requires
        forall|k: int|
            0 <= k < steps.len() ==> !ends_usable_level(
                state_after(id, #[trigger] steps.take(k)),
                steps[k].0,
            ),
    ensures
        state_after(id, steps).settings.level == DEFAULT_LEVEL,
        steps.len() > 0 ==> (answer_to_last(id, steps) matches ActionView::StartCompression {
            level,
            ..
        } ==> level == DEFAULT_LEVEL),
    decreases steps.len(),
{
    if steps.len() > 0 {
        let earlier = steps.drop_last();
        assert forall|k: int| 0 <= k < earlier.len() implies !ends_usable_level(
            state_after(id, #[trigger] earlier.take(k)),
            earlier[k].0,
        ) by {
            assert(earlier.take(k) =~= steps.take(k));
            assert(earlier[k] == steps[k]);
        }
        lemma_unusable_levels_keep_default(id, earlier);
        let last = steps.len() - 1;
        assert(steps.take(last) =~= earlier);
        assert(!ends_usable_level(state_after(id, steps.take(last)), steps[last].0));
    }
}

/// The encoder works at the level in force: at every point of every run at
/// which the encoder is open, its level is the level of the settings, which
/// is the level that the last usable `level` field asked for, or the default.
pub proof fn lemma_stream_works_at_level_in_force(id: u64, steps: Seq<Step>)
    ensures
        state_after(id, steps).stream_level matches Some(level) ==> level == state_after(
            id,
            steps,
        ).settings.level,
        state_after(id, steps).streaming() ==> state_after(id, steps).phase == Phase::Compressing,
    decreases steps.len(),
{
    if steps.len() > 0 {
        lemma_stream_works_at_level_in_force(id, steps.drop_last());
    }
}

/// A request that has failed stays failed.
pub proof fn lemma_failure_is_final(id: u64, steps: Seq<Step>, k: int)
    requires
        0 <= k <= steps.len(),
        state_after(id, steps.take(k)).phase == Phase::Failed,
    ensures
        state_after(id, steps).phase == Phase::Failed,
    decreases steps.len() - k,
{
    if k < steps.len() {
        assert(steps.take(k + 1).drop_last() =~= steps.take(k));
        lemma_failure_is_final(id, steps, k + 1);
    } else {
        assert(steps.take(k) =~= steps);
    }
}

/// The pipeline's books agree with its run: unless the request has failed,
/// what it has on record as produced is exactly what its actions had the host
/// write to the artifact, and what it has on record as consumed is exactly
/// what the events handed over while it was compressing. Before compression
/// begins both are empty.
pub proof fn lemma_record_matches_run(id: u64, steps: Seq<Step>)
    requires
        state_after(id, steps).phase != Phase::Failed,
    ensures
        state_after(id, steps).produced == all_written(id, steps),
        state_after(id, steps).consumed == all_read(id, steps),
        state_after(id, steps).phase == Phase::AwaitingFields || state_after(id, steps).phase
            == Phase::Draining ==> all_written(id, steps) == Seq::<u8>::empty() && all_read(
            id,
            steps,
        ) == Seq::<u8>::empty(),
    decreases steps.len(),
{
    if steps.len() > 0 {
        let earlier = steps.drop_last();
        let before = state_after(id, earlier);
        let after = next(before, steps.last().0, steps.last().1);
        assert(before.phase != Phase::Failed);
        lemma_record_matches_run(id, earlier);
        assert(after.0.produced =~= before.produced + written_by(after.1));
        if before.phase == Phase::Compressing {
            assert(after.0.consumed =~= before.consumed + read_by(steps.last().0));
        }
    }
}

} // verus!
