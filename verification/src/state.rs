//! The snapshot-able subset of style state, and the save/restore law.
//!
//! These are the fields that participate in save/restore: colour sources,
//! shadow parameters and the dash configuration.  Stroke geometry, the
//! global alpha and the compositing mode deliberately do not — they live in
//! the context's global paint and survive restore (a documented contract,
//! not an oversight).

use vstd::prelude::*;
use crate::scalar::Scalar;
use crate::paint::Rgba;
use crate::pattern::{Pattern, PatternV};
use crate::util::copy_vec;

verus! {

/// One frame of the rendering-state stack.
#[derive(PartialEq, Debug)]
pub struct Context2dRenderingState {
    pub fill_style: Pattern,
    pub stroke_style: Pattern,
    pub shadow_color: Rgba,
    pub shadow_color_string: String,
    pub shadow_blur: Scalar,
    pub shadow_offset_x: Scalar,
    pub shadow_offset_y: Scalar,
    pub line_dash_list: Vec<Scalar>,
    pub line_dash_offset: Scalar,
}

/// The mathematical value of a [`Context2dRenderingState`].
pub struct StateV {
    pub fill_style: PatternV,
    pub stroke_style: PatternV,
    pub shadow_color: Rgba,
    pub shadow_color_string: Seq<char>,
    pub shadow_blur: Scalar,
    pub shadow_offset_x: Scalar,
    pub shadow_offset_y: Scalar,
    pub line_dash_list: Seq<Scalar>,
    pub line_dash_offset: Scalar,
}

impl View for Context2dRenderingState {
    type V = StateV;

    open spec fn view(&self) -> StateV {
        StateV {
            fill_style: self.fill_style@,
            stroke_style: self.stroke_style@,
            shadow_color: self.shadow_color,
            shadow_color_string: self.shadow_color_string@,
            shadow_blur: self.shadow_blur,
            shadow_offset_x: self.shadow_offset_x,
            shadow_offset_y: self.shadow_offset_y,
            line_dash_list: self.line_dash_list@,
            line_dash_offset: self.line_dash_offset,
        }
    }
}

impl Clone for Context2dRenderingState {
    fn clone(&self) -> (res: Context2dRenderingState)
        ensures
            res@ == self@,
    {
        Context2dRenderingState {
            fill_style: self.fill_style.clone(),
            stroke_style: self.stroke_style.clone(),
            shadow_color: self.shadow_color,
            shadow_color_string: self.shadow_color_string.clone(),
            shadow_blur: self.shadow_blur,
            shadow_offset_x: self.shadow_offset_x,
            shadow_offset_y: self.shadow_offset_y,
            line_dash_list: copy_vec(&self.line_dash_list),
            line_dash_offset: self.line_dash_offset,
        }
    }
}

impl Context2dRenderingState {
    /// The default frame a fresh context starts from: opaque black colour
    /// sources, a transparent shadow, no blur, no offsets, no dash.
    pub open spec fn spec_default() -> StateV {
        StateV {
            fill_style: PatternV::Color(
                Rgba { red: 0, green: 0, blue: 0, alpha: 255 },
                "#000"@,
            ),
            stroke_style: PatternV::Color(
                Rgba { red: 0, green: 0, blue: 0, alpha: 255 },
                "#000"@,
            ),
            shadow_color: Rgba { red: 0, green: 0, blue: 0, alpha: 0 },
            shadow_color_string: "rgba(0, 0, 0, 0)"@,
            shadow_blur: Scalar { bits: 0 },
            shadow_offset_x: Scalar { bits: 0 },
            shadow_offset_y: Scalar { bits: 0 },
            line_dash_list: Seq::empty(),
            line_dash_offset: Scalar { bits: 0 },
        }
    }
}

impl Default for Context2dRenderingState {
    fn default() -> (r: Context2dRenderingState)
        ensures
            r@ == Context2dRenderingState::spec_default(),
    {
        Context2dRenderingState {
            fill_style: Pattern::Color(
                Rgba { red: 0, green: 0, blue: 0, alpha: 255 },
                "#000".to_owned(),
            ),
            stroke_style: Pattern::Color(
                Rgba { red: 0, green: 0, blue: 0, alpha: 255 },
                "#000".to_owned(),
            ),
            shadow_color: Rgba { red: 0, green: 0, blue: 0, alpha: 0 },
            shadow_color_string: "rgba(0, 0, 0, 0)".to_owned(),
            shadow_blur: Scalar { bits: 0 },
            shadow_offset_x: Scalar { bits: 0 },
            shadow_offset_y: Scalar { bits: 0 },
            line_dash_list: Vec::new(),
            line_dash_offset: Scalar { bits: 0 },
        }
    }
}

/// One operation on the rendering-state stack, as the save/restore law
/// speaks of them: a save, a restore, or a mutation of one stackable field
/// of the top frame.
pub enum StateOp {
    Save,
    Restore,
    SetFillStyle(PatternV),
    SetStrokeStyle(PatternV),
    SetShadowColor(Rgba, Seq<char>),
    SetShadowBlur(Scalar),
    SetShadowOffsetX(Scalar),
    SetShadowOffsetY(Scalar),
    SetLineDash(Seq<Scalar>),
    SetLineDashOffset(Scalar),
}

/// How a mutation rewrites a frame; saves and restores leave it alone.
pub open spec fn state_mutate(s: StateV, op: StateOp) -> StateV {
    match op {
        StateOp::Save => s,
        StateOp::Restore => s,
        StateOp::SetFillStyle(p) => StateV { fill_style: p, ..s },
        StateOp::SetStrokeStyle(p) => StateV { stroke_style: p, ..s },
        StateOp::SetShadowColor(c, text) => StateV {
            shadow_color: c,
            shadow_color_string: text,
            ..s
        },
        StateOp::SetShadowBlur(b) => StateV { shadow_blur: b, ..s },
        StateOp::SetShadowOffsetX(x) => StateV { shadow_offset_x: x, ..s },
        StateOp::SetShadowOffsetY(y) => StateV { shadow_offset_y: y, ..s },
        StateOp::SetLineDash(l) => StateV { line_dash_list: l, ..s },
        StateOp::SetLineDashOffset(o) => StateV { line_dash_offset: o, ..s },
    }
}

/// One step of the stack: save pushes a copy of the top, restore pops only
/// above depth one, and a mutation rewrites the top frame.
pub open spec fn state_step(stack: Seq<StateV>, op: StateOp) -> Seq<StateV> {
    match op {
        StateOp::Save => stack.push(stack.last()),
        StateOp::Restore => if stack.len() > 1 {
            stack.drop_last()
        } else {
            stack
        },
        _ => stack.update(stack.len() - 1, state_mutate(stack.last(), op)),
    }
}

/// A whole sequence of operations, run front to back.
pub open spec fn state_run(stack: Seq<StateV>, ops: Seq<StateOp>) -> Seq<StateV>
    decreases ops.len(),
{
    if ops.len() == 0 {
        stack
    } else {
        state_run(state_step(stack, ops[0]), ops.subrange(1, ops.len() as int))
    }
}

/// How many saves a sequence holds.
pub open spec fn n_saves(ops: Seq<StateOp>) -> int
    decreases ops.len(),
{
    if ops.len() == 0 {
        0
    } else {
        (if ops[0] is Save {
            1int
        } else {
            0int
        }) + n_saves(ops.subrange(1, ops.len() as int))
    }
}

/// How many restores a sequence holds.
pub open spec fn n_restores(ops: Seq<StateOp>) -> int
    decreases ops.len(),
{
    if ops.len() == 0 {
        0
    } else {
        (if ops[0] is Restore {
            1int
        } else {
            0int
        }) + n_restores(ops.subrange(1, ops.len() as int))
    }
}

/// Restores never exceed saves plus the given credit, in any prefix.
pub open spec fn restores_covered(ops: Seq<StateOp>, credit: int) -> bool
    decreases ops.len(),
{
    if ops.len() == 0 {
        true
    } else {
        match ops[0] {
            StateOp::Restore => credit >= 1 && restores_covered(
                ops.subrange(1, ops.len() as int),
                credit - 1,
            ),
            StateOp::Save => restores_covered(ops.subrange(1, ops.len() as int), credit + 1),
            _ => restores_covered(ops.subrange(1, ops.len() as int), credit),
        }
    }
}

/// While restores stay covered, a run can touch only the frames the credit
/// reaches: everything below stays exactly as it was, and the stack keeps
/// book of saves minus restores.
pub proof fn lemma_run_preserves_below(stack: Seq<StateV>, ops: Seq<StateOp>, credit: int)
    requires
        0 <= credit,
        credit + 1 <= stack.len(),
        restores_covered(ops, credit),
    ensures
        state_run(stack, ops).len() == stack.len() + n_saves(ops) - n_restores(ops),
        state_run(stack, ops).len() >= stack.len() - credit,
        forall|i: int|
            0 <= i < stack.len() - credit - 1 ==> state_run(stack, ops)[i] == stack[i],
    decreases ops.len(),
{
    if ops.len() == 0 {
    } else {
        let rest = ops.subrange(1, ops.len() as int);
        let stack2 = state_step(stack, ops[0]);
        assert(state_run(stack, ops) == state_run(stack2, rest));
        match ops[0] {
            StateOp::Save => {
                assert(stack2 == stack.push(stack.last()));
                lemma_run_preserves_below(stack2, rest, credit + 1);
            },
            StateOp::Restore => {
                assert(stack2 == stack.drop_last());
                lemma_run_preserves_below(stack2, rest, credit - 1);
            },
            _ => {
                assert(stack2 == stack.update(stack.len() - 1, state_mutate(stack.last(), ops[0])));
                lemma_run_preserves_below(stack2, rest, credit);
            },
        }
        assert forall|i: int| 0 <= i < stack.len() - credit - 1 implies state_run(stack, ops)[i]
            == stack[i] by {
            assert(state_run(stack2, rest)[i] == stack2[i]);
            assert(stack2[i] == stack[i]);
        }
    }
}

/// The save/restore law: around any inner run whose restores never exceed
/// its net saves and whose saves and restores balance, a save/restore
/// bracket returns the stack — every stackable field included — to exactly
/// its value at the save point.
pub proof fn lemma_save_restore_bracket(stack: Seq<StateV>, ops: Seq<StateOp>)
    requires
        stack.len() >= 1,
        restores_covered(ops, 0),
        n_saves(ops) == n_restores(ops),
    ensures
        state_run(stack, seq![StateOp::Save] + ops + seq![StateOp::Restore]) == stack,
{
    let pushed = stack.push(stack.last());
    let all = seq![StateOp::Save] + ops + seq![StateOp::Restore];
    assert(all[0] is Save);
    assert(all.subrange(1, all.len() as int) =~= ops + seq![StateOp::Restore]);
    lemma_covered_balanced_run(pushed, ops, stack);
    let after = state_run(pushed, ops);
    lemma_run_append_restore(pushed, ops);
    assert(after.len() == pushed.len());
    assert(after.drop_last() =~= stack);
}

/// Helper: after a covered, balanced run on a pushed stack, every frame of
/// the original stack is untouched and the length is back where it began.
proof fn lemma_covered_balanced_run(pushed: Seq<StateV>, ops: Seq<StateOp>, stack: Seq<StateV>)
    requires
        stack.len() >= 1,
        pushed == stack.push(stack.last()),
        restores_covered(ops, 0),
        n_saves(ops) == n_restores(ops),
    ensures
        state_run(pushed, ops).len() == pushed.len(),
        forall|i: int| 0 <= i < stack.len() ==> state_run(pushed, ops)[i] == stack[i],
{
    lemma_run_preserves_below(pushed, ops, 0);
    assert forall|i: int| 0 <= i < stack.len() implies state_run(pushed, ops)[i] == stack[i] by {
        assert(pushed[i] == stack[i]);
    }
}

/// Helper: running `ops + [Restore]` is running `ops`, then one restore.
proof fn lemma_run_append_restore(stack: Seq<StateV>, ops: Seq<StateOp>)
    ensures
        state_run(stack, ops + seq![StateOp::Restore]) == state_step(
            state_run(stack, ops),
            StateOp::Restore,
        ),
    decreases ops.len(),
{
    let one = seq![StateOp::Restore];
    if ops.len() == 0 {
        assert(ops + one =~= one);
        assert(one[0] == StateOp::Restore);
        assert(one.subrange(1, 1) =~= Seq::<StateOp>::empty());
        assert(state_run(stack, one) == state_run(state_step(stack, StateOp::Restore), one
            .subrange(1, 1)));
        assert(state_run(state_step(stack, StateOp::Restore), Seq::<StateOp>::empty())
            == state_step(stack, StateOp::Restore));
        assert(state_run(stack, ops) == stack);
    } else {
        let all = ops + one;
        let rest = ops.subrange(1, ops.len() as int);
        let stack2 = state_step(stack, ops[0]);
        assert(all[0] == ops[0]);
        assert(all.subrange(1, all.len() as int) =~= rest + one);
        lemma_run_append_restore(stack2, rest);
        assert(state_run(stack, all) == state_run(stack2, all.subrange(1, all.len() as int)));
        assert(state_run(stack, ops) == state_run(stack2, rest));
    }
}

/// Restore at depth one retains the only frame: it is an idempotent no-op
/// on the style stack (the backend's transform/clip restore still runs).
pub proof fn lemma_restore_at_depth_one(stack: Seq<StateV>)
    requires
        stack.len() == 1,
    ensures
        state_step(stack, StateOp::Restore) == stack,
{
}

} // verus!
