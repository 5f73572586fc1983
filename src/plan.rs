use crate::lifecycle::{cleared_groups, groups_cleared_by, Operation, TableGroup};
use crate::statements::StoreStep;
use vstd::prelude::*;

verus! {

/// The steps that open a run of `op`, before any per-patch work: the truncation of each
/// group that the run clears, then, for an association with intersection testing, the
/// listing of the features whose surfaces are to be exploded, then, for a run that works
/// per patch, the listing of the patches.
pub open spec fn prelude_steps(op: Operation, beam_intersection: bool) -> Seq<StoreStep> {
    cleared_groups(op).map_values(|g: TableGroup| StoreStep::Truncate(g)) + (if op
        is Associate && beam_intersection {
        seq![StoreStep::ListSurfaceFeatures]
    } else {
        Seq::empty()
    }) + (if op is Associate || op is Download {
        seq![StoreStep::ListPatches]
    } else {
        Seq::empty()
    })
}

/// The steps that associate one patch: beams, then distance matches, then, if enabled,
/// intersections.
pub open spec fn association_steps(patch_id: i32, beam_intersection: bool) -> Seq<StoreStep> {
    seq![StoreStep::InsertBeams(patch_id), StoreStep::AssociatePointModel(patch_id)] + if beam_intersection {
        seq![StoreStep::AssociateBeamModel(patch_id)]
    } else {
        Seq::empty()
    }
}

/// The steps that retrieve one patch: fill its staging rows, read them, then delete them
/// unless they are to be kept.
pub open spec fn download_steps(patch_id: i32, keep_staging: bool) -> Seq<StoreStep> {
    seq![StoreStep::MaterializeDownload(patch_id), StoreStep::LoadDownload(patch_id)] + if keep_staging {
        Seq::empty()
    } else {
        seq![StoreStep::DeleteDownload(patch_id)]
    }
}

/// The group whose tables a step fills, if it fills any.
pub open spec fn filled_group(step: StoreStep) -> Option<TableGroup> {
    match step {
        StoreStep::ExplodeFeatureGeometry(_) | StoreStep::InsertBeams(_)
        | StoreStep::AssociatePointModel(_) | StoreStep::AssociateBeamModel(_) => Some(
            TableGroup::Association,
        ),
        StoreStep::MaterializeDownload(_) => Some(TableGroup::Download),
        _ => None,
    }
}

/// The steps that open a run of `op`.
pub fn run_prelude(op: Operation, beam_intersection: bool) -> (r: Vec<StoreStep>)
    ensures
        r@ == prelude_steps(op, beam_intersection),
{
    let groups = groups_cleared_by(op);
    let mut r: Vec<StoreStep> = Vec::new();
    let mut i: usize = 0;
    while i < groups.len()
        invariant
            i <= groups@.len(),
            groups@ == cleared_groups(op),
            r@ == groups@.subrange(0, i as int).map_values(|g: TableGroup| StoreStep::Truncate(g)),
        decreases groups@.len() - i,
    {
        r.push(StoreStep::Truncate(groups[i]));
        i = i + 1;
        assert(r@ =~= groups@.subrange(0, i as int).map_values(
            |g: TableGroup| StoreStep::Truncate(g),
        ));
    }
    assert(groups@.subrange(0, groups@.len() as int) =~= groups@);
    let associate = match op {
        Operation::Associate => true,
        _ => false,
    };
    let download = match op {
        Operation::Download => true,
        _ => false,
    };
    if associate && beam_intersection {
        r.push(StoreStep::ListSurfaceFeatures);
    }
    if associate || download {
        r.push(StoreStep::ListPatches);
    }
    assert(r@ =~= prelude_steps(op, beam_intersection));
    r
}

/// The steps that associate the patch `patch_id`.
pub fn patch_association_steps(patch_id: i32, beam_intersection: bool) -> (r: Vec<StoreStep>)
    ensures
        r@ == association_steps(patch_id, beam_intersection),
{
    let mut r = vec![StoreStep::InsertBeams(patch_id), StoreStep::AssociatePointModel(patch_id)];
    if beam_intersection {
        r.push(StoreStep::AssociateBeamModel(patch_id));
    }
    assert(r@ =~= association_steps(patch_id, beam_intersection));
    r
}

/// The steps that retrieve the patch `patch_id`.
pub fn patch_download_steps(patch_id: i32, keep_staging: bool) -> (r: Vec<StoreStep>)
    ensures
        r@ == download_steps(patch_id, keep_staging),
{
    let mut r = vec![StoreStep::MaterializeDownload(patch_id), StoreStep::LoadDownload(patch_id)];
    if !keep_staging {
        r.push(StoreStep::DeleteDownload(patch_id));
    }
    assert(r@ =~= download_steps(patch_id, keep_staging));
    r
}

/// Every run clears, before its per-patch work, each group that this work fills, so a
/// run's result does not depend on what earlier runs left.
pub proof fn lemma_runs_clear_what_they_fill(patch_id: i32, beam_intersection: bool, keep_staging: bool)
    ensures
        forall|i: int|
            0 <= i < association_steps(patch_id, beam_intersection).len() ==> {
                let g = filled_group(#[trigger] association_steps(patch_id, beam_intersection)[i]);
                g is Some ==> cleared_groups(Operation::Associate).contains(g->0)
            },
        forall|i: int|
            0 <= i < download_steps(patch_id, keep_staging).len() ==> {
                let g = filled_group(#[trigger] download_steps(patch_id, keep_staging)[i]);
                g is Some ==> cleared_groups(Operation::Download).contains(g->0)
            },
        forall|i: int|
            0 <= i < cleared_groups(Operation::Associate).len() ==> #[trigger] prelude_steps(
                Operation::Associate,
                beam_intersection,
            )[i] == StoreStep::Truncate(cleared_groups(Operation::Associate)[i]),
        forall|i: int|
            0 <= i < cleared_groups(Operation::Download).len() ==> #[trigger] prelude_steps(
                Operation::Download,
                keep_staging,
            )[i] == StoreStep::Truncate(cleared_groups(Operation::Download)[i]),
{
    assert(cleared_groups(Operation::Associate)[0] == TableGroup::Association);
    assert(cleared_groups(Operation::Download)[0] == TableGroup::Download);
}

} // verus!
