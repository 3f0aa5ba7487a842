//! The render planner: the verified half of the snapshot renderer. A render
//! consumes every texture delta accumulated in the ledger since the last
//! render, strictly in insertion order, computes the target pixel size from
//! the logical screen size and the pixel density, and re-tessellates the last
//! frame's draw primitives. The GPU work itself — device, buffers, render
//! pass, readback — is the backend's, driven by the plan computed here.

use vstd::prelude::*;

use crate::harness::{Harness, TextureDelta};

verus! {

/// One GPU texture operation of a render's replay: upload (add or overwrite)
/// the image stored under an id, or free the id.
#[derive(Clone, Copy, Debug, PartialEq, Eq, Structural)]
pub enum TexOp {
    Upload(u64),
    Free(u64),
}

/// The operations one delta contributes: its updates, in order, then its
/// frees.
pub open spec fn ops_of_delta(d: TextureDelta) -> Seq<TexOp> {
    d.updates@.map_values(|id: u64| TexOp::Upload(id)) + d.frees@.map_values(
        |id: u64| TexOp::Free(id),
    )
}

/// The operations of a whole ledger: each entry's operations, with entries in
/// insertion order. Order is load-bearing: a later upload to an id supersedes
/// an earlier one, and a free must come after the uploads it releases.
pub open spec fn ops_of_ledger(ledger: Seq<TextureDelta>) -> Seq<TexOp>
    decreases ledger.len(),
{
    if ledger.len() == 0 {
        Seq::<TexOp>::empty()
    } else {
        ops_of_ledger(ledger.drop_last()) + ops_of_delta(ledger.last())
    }
}

/// The texture ids alive after replaying a sequence of operations against a
/// set of already-resident ids: an upload adds the id, a free removes it.
pub open spec fn alive_after(alive: Set<u64>, ops: Seq<TexOp>) -> Set<u64>
    decreases ops.len(),
{
    if ops.len() == 0 {
        alive
    } else {
        let rest = alive_after(alive, ops.drop_last());
        match ops.last() {
            TexOp::Upload(id) => rest.insert(id),
            TexOp::Free(id) => rest.remove(id),
        }
    }
}

/// True of an operation that mentions an id, uploading or freeing it.
pub open spec fn mentions(op: TexOp, id: u64) -> bool {
    op == TexOp::Upload(id) || op == TexOp::Free(id)
}

/// The index of the last operation that mentions an id, or -1 if none does.
pub open spec fn last_mention(ops: Seq<TexOp>, id: u64) -> int
    decreases ops.len(),
{
    if ops.len() == 0 {
        -1
    } else if mentions(ops.last(), id) {
        ops.len() - 1
    } else {
        last_mention(ops.drop_last(), id)
    }
}

/// Where the last mention sits: a valid index of a mentioning operation, with
/// no mention after it; or -1 exactly when nothing mentions the id.
pub proof fn lemma_last_mention_bounds(ops: Seq<TexOp>, id: u64)
    ensures
        (exists|i: int| 0 <= i < ops.len() && mentions(#[trigger] ops[i], id)) <==> 0
            <= last_mention(ops, id) < ops.len(),
        0 <= last_mention(ops, id) < ops.len() ==> mentions(ops[last_mention(ops, id)], id),
        !(exists|i: int| 0 <= i < ops.len() && mentions(#[trigger] ops[i], id)) ==> last_mention(
            ops,
            id,
        ) == -1,
    decreases ops.len(),
{
    if ops.len() > 0 {
        let n = ops.len() - 1;
        lemma_last_mention_bounds(ops.drop_last(), id);
        assert(ops.drop_last() =~= ops.take(n));
        if mentions(ops[n], id) {
        } else {
            assert(forall|i: int|
                0 <= i < n ==> ops.take(n)[i] == #[trigger] ops[i]);
        }
    }
}

/// Replay order decides residence: after a replay, an id is resident exactly
/// when its last mention is an upload — or when it was resident before and
/// the replay never mentions it. This is why the ledger may never be
/// reordered or coalesced.
pub proof fn lemma_last_op_wins(alive: Set<u64>, ops: Seq<TexOp>, id: u64)
    ensures
        (exists|i: int| 0 <= i < ops.len() && mentions(#[trigger] ops[i], id)) ==> (alive_after(
            alive,
            ops,
        ).contains(id) <==> ops[last_mention(ops, id)] == TexOp::Upload(id)),
        !(exists|i: int| 0 <= i < ops.len() && mentions(#[trigger] ops[i], id)) ==> (alive_after(
            alive,
            ops,
        ).contains(id) <==> alive.contains(id)),
    decreases ops.len(),
{
    if ops.len() > 0 {
        let n = ops.len() - 1;
        lemma_last_op_wins(alive, ops.drop_last(), id);
        lemma_last_mention_bounds(ops, id);
        lemma_last_mention_bounds(ops.drop_last(), id);
        assert(ops.drop_last() =~= ops.take(n));
        if mentions(ops[n], id) {
            assert(last_mention(ops, id) == n);
        } else {
            if exists|i: int| 0 <= i < n && mentions(#[trigger] ops.take(n)[i], id) {
                let last = last_mention(ops.take(n), id);
                assert(last_mention(ops, id) == last);
                assert(ops.take(n)[last] == ops[last]);
            } else {
                assert(forall|i: int|
                    0 <= i < ops.len() && mentions(#[trigger] ops[i], id) ==> i < n && mentions(
                        ops.take(n)[i],
                        id,
                    ));
            }
        }
    }
}

/// Everything a render pass needs from the harness, in replay order: the
/// texture operations of all consumed ledger entries, the target size in
/// pixels, and the draw primitives to tessellate.
pub struct RenderPlan {
    pub texture_ops: Vec<TexOp>,
    pub width_px: u64,
    pub height_px: u64,
    pub shapes: Vec<u64>,
}

/// Flatten one delta into its operations, updates first, then frees.
fn delta_ops(delta: &TextureDelta, out: &mut Vec<TexOp>)
    ensures
        final(out)@ == old(out)@ + ops_of_delta(*delta),
{
    let ghost out0 = out@;
    let mut i: usize = 0;
    while i < delta.updates.len()
        invariant
            i <= delta.updates.len(),
            out@ == out0 + delta.updates@.take(i as int).map_values(|id: u64| TexOp::Upload(id)),
        decreases delta.updates.len() - i,
    {
        let ghost before = out@;
        out.push(TexOp::Upload(delta.updates[i]));
        proof {
            assert(delta.updates@.take(i + 1) =~= delta.updates@.take(i as int).push(
                delta.updates@[i as int],
            ));
            assert(delta.updates@.take(i + 1).map_values(|id: u64| TexOp::Upload(id))
                =~= delta.updates@.take(i as int).map_values(|id: u64| TexOp::Upload(id)).push(
                TexOp::Upload(delta.updates@[i as int]),
            ));
            assert(out@ =~= out0 + delta.updates@.take(i + 1).map_values(
                |id: u64| TexOp::Upload(id),
            ));
        }
        i = i + 1;
    }
    proof {
        assert(delta.updates@.take(delta.updates@.len() as int) =~= delta.updates@);
    }
    let ghost mid = out@;
    let mut j: usize = 0;
    while j < delta.frees.len()
        invariant
            j <= delta.frees.len(),
            out@ == mid + delta.frees@.take(j as int).map_values(|id: u64| TexOp::Free(id)),
        decreases delta.frees.len() - j,
    {
        out.push(TexOp::Free(delta.frees[j]));
        proof {
            assert(delta.frees@.take(j + 1) =~= delta.frees@.take(j as int).push(
                delta.frees@[j as int],
            ));
            assert(delta.frees@.take(j + 1).map_values(|id: u64| TexOp::Free(id))
                =~= delta.frees@.take(j as int).map_values(|id: u64| TexOp::Free(id)).push(
                TexOp::Free(delta.frees@[j as int]),
            ));
            assert(out@ =~= mid + delta.frees@.take(j + 1).map_values(|id: u64| TexOp::Free(id)));
        }
        j = j + 1;
    }
    proof {
        assert(delta.frees@.take(delta.frees@.len() as int) =~= delta.frees@);
        assert(out@ =~= out0 + ops_of_delta(*delta));
    }
}

/// Flatten a ledger into its operations, entries strictly in insertion order.
pub fn ledger_ops(ledger: &Vec<TextureDelta>) -> (ops: Vec<TexOp>)
    ensures
        ops@ == ops_of_ledger(ledger@),
{
    let mut ops: Vec<TexOp> = Vec::new();
    let mut i: usize = 0;
    while i < ledger.len()
        invariant
            i <= ledger.len(),
            ops@ == ops_of_ledger(ledger@.take(i as int)),
        decreases ledger.len() - i,
    {
        delta_ops(&ledger[i], &mut ops);
        proof {
            assert(ledger@.take(i + 1).drop_last() =~= ledger@.take(i as int));
            assert(ledger@.take(i + 1).last() == ledger@[i as int]);
        }
        i = i + 1;
    }
    proof {
        assert(ledger@.take(ledger@.len() as int) =~= ledger@);
    }
    ops
}

/// Compute the plan of one render and consume the ledger: the plan replays
/// every pending delta's operations in insertion order, sizes the target to
/// the screen size times the density, rounded toward zero, and tessellates
/// the last frame's primitives; the ledger is left empty, all entries now
/// consumed. Nothing else of the harness changes.
pub fn plan_render(harness: &mut Harness) -> (plan: RenderPlan)
    requires
        old(harness).wf(),
    ensures
        plan.texture_ops@ == ops_of_ledger(old(harness).ledger@),
        plan.width_px as int == old(harness).density.scaled_spec(old(harness).screen_width),
        plan.height_px as int == old(harness).density.scaled_spec(old(harness).screen_height),
        plan.shapes@ == old(harness).output.shapes@,
        final(harness).ledger@ == Seq::<TextureDelta>::empty(),
        final(harness).batch == old(harness).batch,
        final(harness).modifiers == old(harness).modifiers,
        final(harness).last_pointer_pos == old(harness).last_pointer_pos,
        final(harness).screen_width == old(harness).screen_width,
        final(harness).screen_height == old(harness).screen_height,
        final(harness).density == old(harness).density,
        final(harness).output == old(harness).output,
{
    let texture_ops = ledger_ops(&harness.ledger);
    harness.ledger.clear();
    let width_px = harness.density.scaled(harness.screen_width);
    let height_px = harness.density.scaled(harness.screen_height);
    let mut shapes: Vec<u64> = Vec::new();
    let mut i: usize = 0;
    while i < harness.output.shapes.len()
        invariant
            i <= harness.output.shapes.len(),
            shapes@ == harness.output.shapes@.take(i as int),
        decreases harness.output.shapes.len() - i,
    {
        shapes.push(harness.output.shapes[i]);
        proof {
            assert(harness.output.shapes@.take(i + 1) =~= harness.output.shapes@.take(
                i as int,
            ).push(harness.output.shapes@[i as int]));
        }
        i = i + 1;
    }
    proof {
        assert(harness.output.shapes@.take(harness.output.shapes@.len() as int)
            =~= harness.output.shapes@);
    }
    RenderPlan { texture_ops, width_px, height_px, shapes }
}

/// One ledger entry per frame: the ledger after a run of frames, each
/// appending its delta as [`Harness::finish_frame`] does.
pub open spec fn ledger_after_frames(
    ledger: Seq<TextureDelta>,
    deltas: Seq<TextureDelta>,
) -> Seq<TextureDelta>
    decreases deltas.len(),
{
    if deltas.len() == 0 {
        ledger
    } else {
        ledger_after_frames(ledger.push(deltas[0]), deltas.drop_first())
    }
}

/// Each frame grows the ledger by exactly one entry.
pub proof fn lemma_one_entry_per_frame(ledger: Seq<TextureDelta>, deltas: Seq<TextureDelta>)
    ensures
        ledger_after_frames(ledger, deltas).len() == ledger.len() + deltas.len(),
    decreases deltas.len(),
{
    if deltas.len() > 0 {
        lemma_one_entry_per_frame(ledger.push(deltas[0]), deltas.drop_first());
    }
}

/// Counting from a just-consumed (empty) ledger, the ledger's length after N
/// frames with no render in between is exactly N; a render then empties it
/// again, whatever N was ([`plan_render`]'s contract).
pub proof fn lemma_ledger_counts_frames(deltas: Seq<TextureDelta>)
    ensures
        ledger_after_frames(Seq::<TextureDelta>::empty(), deltas).len() == deltas.len(),
{
    lemma_one_entry_per_frame(Seq::<TextureDelta>::empty(), deltas);
}

/// Rendering twice with no frame in between is idempotent on the verified
/// side: the second render replays no texture operations at all and plans the
/// same target size and the same tessellation input as the first, so the
/// rasterizer is handed identical work.
pub proof fn lemma_render_idempotent(before: Harness, after: Harness)
    requires
        after.ledger@ == Seq::<TextureDelta>::empty(),
        after.screen_width == before.screen_width,
        after.screen_height == before.screen_height,
        after.density == before.density,
        after.output == before.output,
    ensures
        ops_of_ledger(after.ledger@) == Seq::<TexOp>::empty(),
        after.density.scaled_spec(after.screen_width) == before.density.scaled_spec(
            before.screen_width,
        ),
        after.density.scaled_spec(after.screen_height) == before.density.scaled_spec(
            before.screen_height,
        ),
        after.output.shapes@ == before.output.shapes@,
{
}

} // verus!
