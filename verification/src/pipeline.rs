use vstd::prelude::*;

use crate::adjustments::{PhotoAdjustments, NEUTRAL};

verus! {

/// Which pixels an edit reaches.
#[derive(Clone, Copy, Debug, PartialEq, Eq, Structural)]
pub enum MaskType {
    Global,
    Highlights,
    Shadows,
    Whites,
    Blacks,
}

/// One entry of the edit stack: an edit, its slider value and its mask.
#[derive(Clone, Copy, Debug, PartialEq, Eq, Structural)]
pub enum EditOperation {
    Exposure(i32, MaskType),
    Contrast(i32, MaskType),
    Saturation(i32, MaskType),
    Temperature(i32, MaskType),
    Tint(i32, MaskType),
    Texture(i32, MaskType),
    Clarity(i32, MaskType),
    Dehaze(i32, MaskType),
}

/// The pixel edit that an operation names, without its value and mask.
#[derive(Clone, Copy, Debug, PartialEq, Eq, Structural)]
pub enum EditKind {
    Exposure,
    Contrast,
    Saturation,
    Temperature,
    Tint,
    Texture,
    Clarity,
    Dehaze,
}

/// An edit that the renderer runs: the edit, its slider value and the mask that weights it.
#[derive(Clone, Copy, Debug, PartialEq, Eq, Structural)]
pub struct MaskedEdit {
    pub kind: EditKind,
    pub value: i32,
    pub mask: MaskType,
}

impl EditOperation {
    pub open spec fn kind(self) -> EditKind {
        match self {
            EditOperation::Exposure(..) => EditKind::Exposure,
            EditOperation::Contrast(..) => EditKind::Contrast,
            EditOperation::Saturation(..) => EditKind::Saturation,
            EditOperation::Temperature(..) => EditKind::Temperature,
            EditOperation::Tint(..) => EditKind::Tint,
            EditOperation::Texture(..) => EditKind::Texture,
            EditOperation::Clarity(..) => EditKind::Clarity,
            EditOperation::Dehaze(..) => EditKind::Dehaze,
        }
    }

    pub open spec fn value(self) -> i32 {
        match self {
            EditOperation::Exposure(v, _) => v,
            EditOperation::Contrast(v, _) => v,
            EditOperation::Saturation(v, _) => v,
            EditOperation::Temperature(v, _) => v,
            EditOperation::Tint(v, _) => v,
            EditOperation::Texture(v, _) => v,
            EditOperation::Clarity(v, _) => v,
            EditOperation::Dehaze(v, _) => v,
        }
    }

    pub open spec fn mask(self) -> MaskType {
        match self {
            EditOperation::Exposure(_, m) => m,
            EditOperation::Contrast(_, m) => m,
            EditOperation::Saturation(_, m) => m,
            EditOperation::Temperature(_, m) => m,
            EditOperation::Tint(_, m) => m,
            EditOperation::Texture(_, m) => m,
            EditOperation::Clarity(_, m) => m,
            EditOperation::Dehaze(_, m) => m,
        }
    }

    /// The renderer runs exposure under any mask; every other edit only globally
    /// (a targeted edit of another kind is skipped).
    pub open spec fn spec_masked_edit(self) -> Option<MaskedEdit> {
        if self.kind() == EditKind::Exposure || self.mask() == MaskType::Global {
            Some(MaskedEdit { kind: self.kind(), value: self.value(), mask: self.mask() })
        } else {
            None
        }
    }
}

/// The one-entry stack `seq![op]` when the slider has left the neutral position, else the empty one.
pub open spec fn when_moved(value: i32, op: EditOperation) -> Seq<EditOperation> {
    if value != NEUTRAL {
        seq![op]
    } else {
        seq![]
    }
}

/// The edit stack for a panel state: one entry per slider that is off neutral, in
/// the fixed order exposure, highlights, shadows, whites, blacks (all exposure edits,
/// under the mask of that name), contrast, saturation, temperature, tint, texture,
/// clarity, dehaze (all global). The hue slider produces no edit.
pub open spec fn spec_edit_stack(a: PhotoAdjustments) -> Seq<EditOperation> {
    when_moved(a.exposure, EditOperation::Exposure(a.exposure, MaskType::Global))
        + when_moved(a.highlights, EditOperation::Exposure(a.highlights, MaskType::Highlights))
        + when_moved(a.shadows, EditOperation::Exposure(a.shadows, MaskType::Shadows))
        + when_moved(a.whites, EditOperation::Exposure(a.whites, MaskType::Whites))
        + when_moved(a.blacks, EditOperation::Exposure(a.blacks, MaskType::Blacks))
        + when_moved(a.contrast, EditOperation::Contrast(a.contrast, MaskType::Global))
        + when_moved(a.saturation, EditOperation::Saturation(a.saturation, MaskType::Global))
        + when_moved(a.temperature, EditOperation::Temperature(a.temperature, MaskType::Global))
        + when_moved(a.tint, EditOperation::Tint(a.tint, MaskType::Global))
        + when_moved(a.texture, EditOperation::Texture(a.texture, MaskType::Global))
        + when_moved(a.clarity, EditOperation::Clarity(a.clarity, MaskType::Global))
        + when_moved(a.dehaze, EditOperation::Dehaze(a.dehaze, MaskType::Global))
}

/// The edits the renderer runs for a stack, in stack order: each entry's
/// `spec_masked_edit`, with the skipped entries left out.
pub open spec fn spec_plan(stack: Seq<EditOperation>) -> Seq<MaskedEdit>
    decreases stack.len(),
{
    if stack.len() == 0 {
        seq![]
    } else {
        spec_plan(stack.drop_last()) + match stack.last().spec_masked_edit() {
            Some(e) => seq![e],
            None => seq![],
        }
    }
}

fn push_if_moved(stack: &mut Vec<EditOperation>, value: i32, op: EditOperation)
    ensures
        final(stack)@ == old(stack)@ + when_moved(value, op),
{
    if value != NEUTRAL {
        stack.push(op);
    } else {
        assert(old(stack)@ + when_moved(value, op) =~= old(stack)@);
    }
}

/// Builds the edit stack for the current slider state (the first step of rendering
/// an edit): an entry for each slider that is off neutral, in a fixed order.
pub fn build_edit_stack(adj: &PhotoAdjustments) -> (stack: Vec<EditOperation>)
    ensures
        stack@ == spec_edit_stack(*adj),
{
    let mut stack: Vec<EditOperation> = Vec::new();
    push_if_moved(&mut stack, adj.exposure, EditOperation::Exposure(adj.exposure, MaskType::Global));
    push_if_moved(&mut stack, adj.highlights, EditOperation::Exposure(adj.highlights, MaskType::Highlights));
    push_if_moved(&mut stack, adj.shadows, EditOperation::Exposure(adj.shadows, MaskType::Shadows));
    push_if_moved(&mut stack, adj.whites, EditOperation::Exposure(adj.whites, MaskType::Whites));
    push_if_moved(&mut stack, adj.blacks, EditOperation::Exposure(adj.blacks, MaskType::Blacks));
    push_if_moved(&mut stack, adj.contrast, EditOperation::Contrast(adj.contrast, MaskType::Global));
    push_if_moved(&mut stack, adj.saturation, EditOperation::Saturation(adj.saturation, MaskType::Global));
    push_if_moved(&mut stack, adj.temperature, EditOperation::Temperature(adj.temperature, MaskType::Global));
    push_if_moved(&mut stack, adj.tint, EditOperation::Tint(adj.tint, MaskType::Global));
    push_if_moved(&mut stack, adj.texture, EditOperation::Texture(adj.texture, MaskType::Global));
    push_if_moved(&mut stack, adj.clarity, EditOperation::Clarity(adj.clarity, MaskType::Global));
    push_if_moved(&mut stack, adj.dehaze, EditOperation::Dehaze(adj.dehaze, MaskType::Global));
    assert(stack@ =~= spec_edit_stack(*adj));
    stack
}

/// The edit the renderer runs for one stack entry: exposure under its own mask,
/// any other edit only when its mask is global (`None`: the entry is skipped).
pub fn masked_edit_for(op: &EditOperation) -> (r: Option<MaskedEdit>)
    ensures
        r == op.spec_masked_edit(),
{
    match *op {
        EditOperation::Exposure(v, m) => Some(MaskedEdit { kind: EditKind::Exposure, value: v, mask: m }),
        EditOperation::Contrast(v, m) => match m {
            MaskType::Global => Some(MaskedEdit { kind: EditKind::Contrast, value: v, mask: m }),
            _ => None,
        },
        EditOperation::Saturation(v, m) => match m {
            MaskType::Global => Some(MaskedEdit { kind: EditKind::Saturation, value: v, mask: m }),
            _ => None,
        },
        EditOperation::Temperature(v, m) => match m {
            MaskType::Global => Some(MaskedEdit { kind: EditKind::Temperature, value: v, mask: m }),
            _ => None,
        },
        EditOperation::Tint(v, m) => match m {
            MaskType::Global => Some(MaskedEdit { kind: EditKind::Tint, value: v, mask: m }),
            _ => None,
        },
        EditOperation::Texture(v, m) => match m {
            MaskType::Global => Some(MaskedEdit { kind: EditKind::Texture, value: v, mask: m }),
            _ => None,
        },
        EditOperation::Clarity(v, m) => match m {
            MaskType::Global => Some(MaskedEdit { kind: EditKind::Clarity, value: v, mask: m }),
            _ => None,
        },
        EditOperation::Dehaze(v, m) => match m {
            MaskType::Global => Some(MaskedEdit { kind: EditKind::Dehaze, value: v, mask: m }),
            _ => None,
        },
    }
}

/// The edits the renderer runs for a stack, in stack order (the second step of
/// rendering: the dispatch over the stack).
pub fn plan_edits(stack: &Vec<EditOperation>) -> (plan: Vec<MaskedEdit>)
    ensures
        plan@ == spec_plan(stack@),
{
    let mut plan: Vec<MaskedEdit> = Vec::new();
    let n: usize = stack.len();
    for i in 0..n
        invariant
            n == stack@.len(),
            plan@ == spec_plan(stack@.take(i as int)),
    {
        assert(stack@.take(i + 1).drop_last() =~= stack@.take(i as int));
        match masked_edit_for(&stack[i]) {
            Some(e) => plan.push(e),
            None => {},
        }
    }
    assert(stack@.take(n as int) =~= stack@);
    plan
}


/// The masked edit of an operation that the renderer always runs.
pub open spec fn applied(op: EditOperation) -> MaskedEdit {
    MaskedEdit { kind: op.kind(), value: op.value(), mask: op.mask() }
}

/// The plan of a concatenation is the concatenation of the plans.
pub proof fn lemma_plan_append(s1: Seq<EditOperation>, s2: Seq<EditOperation>)
    ensures
        spec_plan(s1 + s2) == spec_plan(s1) + spec_plan(s2),
    decreases s2.len(),
{
    if s2.len() == 0 {
        assert(s1 + s2 =~= s1);
        assert(spec_plan(s1) + spec_plan(s2) =~= spec_plan(s1));
    } else {
        lemma_plan_append(s1, s2.drop_last());
        assert((s1 + s2).drop_last() =~= s1 + s2.drop_last());
        assert((s1 + s2).last() == s2.last());
        let tail = match s2.last().spec_masked_edit() {
            Some(e) => seq![e],
            None => seq![],
        };
        assert(spec_plan(s1) + spec_plan(s2.drop_last()) + tail =~= spec_plan(s1) + (spec_plan(
            s2.drop_last(),
        ) + tail));
    }
}

proof fn lemma_plan_when_moved(value: i32, op: EditOperation)
    requires
        op.kind() == EditKind::Exposure || op.mask() == MaskType::Global,
    ensures
        spec_plan(when_moved(value, op)) == when_moved(value, op).map_values(|o: EditOperation| applied(o)),
{
    let s = when_moved(value, op);
    if value != NEUTRAL {
        assert(s.drop_last() =~= Seq::<EditOperation>::empty());
        assert(spec_plan(s.drop_last()) == Seq::<MaskedEdit>::empty());
        assert(s.last() == op);
        assert(op.spec_masked_edit() == Some(applied(op)));
        assert(spec_plan(s) =~= seq![applied(op)]);
        assert(s.map_values(|o: EditOperation| applied(o)) =~= seq![applied(op)]);
    } else {
        assert(s.map_values(|o: EditOperation| applied(o)) =~= seq![]);
    }
}

proof fn lemma_plan_join(acc: Seq<EditOperation>, w: Seq<EditOperation>)
    requires
        spec_plan(acc) == acc.map_values(|o: EditOperation| applied(o)),
        spec_plan(w) == w.map_values(|o: EditOperation| applied(o)),
    ensures
        spec_plan(acc + w) == (acc + w).map_values(|o: EditOperation| applied(o)),
{
    lemma_plan_append(acc, w);
    assert((acc + w).map_values(|o: EditOperation| applied(o)) =~= acc.map_values(
        |o: EditOperation| applied(o),
    ) + w.map_values(|o: EditOperation| applied(o)));
}

/// Every entry of a stack built from the sliders is rendered: the renderer's plan for
/// `build_edit_stack(a)` holds exactly one masked edit per stack entry, same edit, same
/// value, same mask, same order. (The renderer skips targeted non-exposure edits, but the
/// slider panel never produces one.)
pub proof fn lemma_built_stack_is_fully_rendered(a: PhotoAdjustments)
    ensures
        spec_plan(spec_edit_stack(a)) == spec_edit_stack(a).map_values(|o: EditOperation| applied(o)),
{
    let w1 = when_moved(a.exposure, EditOperation::Exposure(a.exposure, MaskType::Global));
    let w2 = when_moved(a.highlights, EditOperation::Exposure(a.highlights, MaskType::Highlights));
    let w3 = when_moved(a.shadows, EditOperation::Exposure(a.shadows, MaskType::Shadows));
    let w4 = when_moved(a.whites, EditOperation::Exposure(a.whites, MaskType::Whites));
    let w5 = when_moved(a.blacks, EditOperation::Exposure(a.blacks, MaskType::Blacks));
    let w6 = when_moved(a.contrast, EditOperation::Contrast(a.contrast, MaskType::Global));
    let w7 = when_moved(a.saturation, EditOperation::Saturation(a.saturation, MaskType::Global));
    let w8 = when_moved(a.temperature, EditOperation::Temperature(a.temperature, MaskType::Global));
    let w9 = when_moved(a.tint, EditOperation::Tint(a.tint, MaskType::Global));
    let w10 = when_moved(a.texture, EditOperation::Texture(a.texture, MaskType::Global));
    let w11 = when_moved(a.clarity, EditOperation::Clarity(a.clarity, MaskType::Global));
    let w12 = when_moved(a.dehaze, EditOperation::Dehaze(a.dehaze, MaskType::Global));
    lemma_plan_when_moved(a.exposure, EditOperation::Exposure(a.exposure, MaskType::Global));
    lemma_plan_when_moved(a.highlights, EditOperation::Exposure(a.highlights, MaskType::Highlights));
    lemma_plan_when_moved(a.shadows, EditOperation::Exposure(a.shadows, MaskType::Shadows));
    lemma_plan_when_moved(a.whites, EditOperation::Exposure(a.whites, MaskType::Whites));
    lemma_plan_when_moved(a.blacks, EditOperation::Exposure(a.blacks, MaskType::Blacks));
    lemma_plan_when_moved(a.contrast, EditOperation::Contrast(a.contrast, MaskType::Global));
    lemma_plan_when_moved(a.saturation, EditOperation::Saturation(a.saturation, MaskType::Global));
    lemma_plan_when_moved(a.temperature, EditOperation::Temperature(a.temperature, MaskType::Global));
    lemma_plan_when_moved(a.tint, EditOperation::Tint(a.tint, MaskType::Global));
    lemma_plan_when_moved(a.texture, EditOperation::Texture(a.texture, MaskType::Global));
    lemma_plan_when_moved(a.clarity, EditOperation::Clarity(a.clarity, MaskType::Global));
    lemma_plan_when_moved(a.dehaze, EditOperation::Dehaze(a.dehaze, MaskType::Global));
    lemma_plan_join(w1, w2);
    lemma_plan_join(w1 + w2, w3);
    lemma_plan_join(w1 + w2 + w3, w4);
    lemma_plan_join(w1 + w2 + w3 + w4, w5);
    lemma_plan_join(w1 + w2 + w3 + w4 + w5, w6);
    lemma_plan_join(w1 + w2 + w3 + w4 + w5 + w6, w7);
    lemma_plan_join(w1 + w2 + w3 + w4 + w5 + w6 + w7, w8);
    lemma_plan_join(w1 + w2 + w3 + w4 + w5 + w6 + w7 + w8, w9);
    lemma_plan_join(w1 + w2 + w3 + w4 + w5 + w6 + w7 + w8 + w9, w10);
    lemma_plan_join(w1 + w2 + w3 + w4 + w5 + w6 + w7 + w8 + w9 + w10, w11);
    lemma_plan_join(w1 + w2 + w3 + w4 + w5 + w6 + w7 + w8 + w9 + w10 + w11, w12);
}

/// With every slider but hue at the neutral position there is nothing to render:
/// the edit stack is empty exactly then.
pub proof fn lemma_stack_empty_iff_neutral(a: PhotoAdjustments)
    ensures
        (spec_edit_stack(a).len() == 0) <==> (a.exposure == NEUTRAL && a.highlights == NEUTRAL
            && a.shadows == NEUTRAL && a.whites == NEUTRAL && a.blacks == NEUTRAL && a.contrast
            == NEUTRAL && a.saturation == NEUTRAL && a.temperature == NEUTRAL && a.tint == NEUTRAL
            && a.texture == NEUTRAL && a.clarity == NEUTRAL && a.dehaze == NEUTRAL),
{
}


/// The position of an edit in the fixed render order: exposure under the global, highlights,
/// shadows, whites and blacks masks (0 to 4), then global contrast, saturation, temperature,
/// tint, texture, clarity and dehaze (5 to 11); 12 for an edit the slider panel never makes.
pub open spec fn render_rank(op: EditOperation) -> int {
    match op {
        EditOperation::Exposure(_, m) => match m {
            MaskType::Global => 0,
            MaskType::Highlights => 1,
            MaskType::Shadows => 2,
            MaskType::Whites => 3,
            MaskType::Blacks => 4,
        },
        EditOperation::Contrast(_, m) => if m == MaskType::Global { 5 } else { 12 },
        EditOperation::Saturation(_, m) => if m == MaskType::Global { 6 } else { 12 },
        EditOperation::Temperature(_, m) => if m == MaskType::Global { 7 } else { 12 },
        EditOperation::Tint(_, m) => if m == MaskType::Global { 8 } else { 12 },
        EditOperation::Texture(_, m) => if m == MaskType::Global { 9 } else { 12 },
        EditOperation::Clarity(_, m) => if m == MaskType::Global { 10 } else { 12 },
        EditOperation::Dehaze(_, m) => if m == MaskType::Global { 11 } else { 12 },
    }
}

/// The slider that drives an edit: the exposure slider for global exposure, the highlights,
/// shadows, whites and blacks sliders for exposure under those masks, and the slider of the
/// same name for every other edit.
pub open spec fn driving_slider(a: PhotoAdjustments, op: EditOperation) -> i32 {
    match op {
        EditOperation::Exposure(_, m) => match m {
            MaskType::Global => a.exposure,
            MaskType::Highlights => a.highlights,
            MaskType::Shadows => a.shadows,
            MaskType::Whites => a.whites,
            MaskType::Blacks => a.blacks,
        },
        EditOperation::Contrast(..) => a.contrast,
        EditOperation::Saturation(..) => a.saturation,
        EditOperation::Temperature(..) => a.temperature,
        EditOperation::Tint(..) => a.tint,
        EditOperation::Texture(..) => a.texture,
        EditOperation::Clarity(..) => a.clarity,
        EditOperation::Dehaze(..) => a.dehaze,
    }
}

/// An entry the panel may put on the stack: an edit of the render order, carrying the value
/// of the slider that drives it, that slider being off neutral.
pub open spec fn stack_entry_ok(a: PhotoAdjustments, op: EditOperation) -> bool {
    &&& render_rank(op) < 12
    &&& op.value() == driving_slider(a, op)
    &&& op.value() != NEUTRAL
}

/// Every entry of `p` is a stack entry of rank below `r`, in strictly increasing rank.
#[verifier::opaque]
pub open spec fn ranked_entries(a: PhotoAdjustments, p: Seq<EditOperation>, r: int) -> bool {
    &&& forall|i: int| 0 <= i < p.len() ==> stack_entry_ok(a, #[trigger] p[i]) && render_rank(p[i]) < r
    &&& forall|i: int, j: int| 0 <= i < j < p.len() ==> render_rank(#[trigger] p[i]) < render_rank(#[trigger] p[j])
}

/// Everything `p` holds, `q` holds too.
#[verifier::opaque]
pub open spec fn holds_all_of(q: Seq<EditOperation>, p: Seq<EditOperation>) -> bool {
    forall|x: EditOperation| p.contains(x) ==> q.contains(x)
}

proof fn lemma_holds_all_of_trans(p: Seq<EditOperation>, q: Seq<EditOperation>, s: Seq<EditOperation>)
    requires
        holds_all_of(q, p),
        holds_all_of(s, q),
    ensures
        holds_all_of(s, p),
{
    reveal(holds_all_of);
}

proof fn lemma_stack_step(
    a: PhotoAdjustments,
    p: Seq<EditOperation>,
    value: i32,
    op: EditOperation,
    r: int,
)
    requires
        render_rank(op) == r,
        r < 12,
        op.value() == value,
        driving_slider(a, op) == value,
        ranked_entries(a, p, r),
    ensures
        ranked_entries(a, p + when_moved(value, op), r + 1),
        value != NEUTRAL ==> (p + when_moved(value, op)).contains(op),
        holds_all_of(p + when_moved(value, op), p),
{
    reveal(ranked_entries);
    reveal(holds_all_of);
    let q = p + when_moved(value, op);
    if value != NEUTRAL {
        assert(q[p.len() as int] == op);
    }
    assert forall|x: EditOperation| p.contains(x) implies q.contains(x) by {
        let k = choose|k: int| 0 <= k < p.len() && p[k] == x;
        assert(q[k] == x);
    }
}

/// What the edit stack is, in terms of the sliders alone: every slider off neutral (hue
/// aside) puts its own edit, with its own value, on the stack, whatever the other sliders
/// are; every entry is the edit of a slider off neutral carrying that slider's value; and the
/// entries follow the fixed render order, so no edit appears twice.
pub proof fn lemma_stack_entries_follow_their_sliders(a: PhotoAdjustments)
    ensures
        a.exposure != NEUTRAL ==> spec_edit_stack(a).contains(EditOperation::Exposure(a.exposure, MaskType::Global)),
        a.highlights != NEUTRAL ==> spec_edit_stack(a).contains(EditOperation::Exposure(a.highlights, MaskType::Highlights)),
        a.shadows != NEUTRAL ==> spec_edit_stack(a).contains(EditOperation::Exposure(a.shadows, MaskType::Shadows)),
        a.whites != NEUTRAL ==> spec_edit_stack(a).contains(EditOperation::Exposure(a.whites, MaskType::Whites)),
        a.blacks != NEUTRAL ==> spec_edit_stack(a).contains(EditOperation::Exposure(a.blacks, MaskType::Blacks)),
        a.contrast != NEUTRAL ==> spec_edit_stack(a).contains(EditOperation::Contrast(a.contrast, MaskType::Global)),
        a.saturation != NEUTRAL ==> spec_edit_stack(a).contains(EditOperation::Saturation(a.saturation, MaskType::Global)),
        a.temperature != NEUTRAL ==> spec_edit_stack(a).contains(EditOperation::Temperature(a.temperature, MaskType::Global)),
        a.tint != NEUTRAL ==> spec_edit_stack(a).contains(EditOperation::Tint(a.tint, MaskType::Global)),
        a.texture != NEUTRAL ==> spec_edit_stack(a).contains(EditOperation::Texture(a.texture, MaskType::Global)),
        a.clarity != NEUTRAL ==> spec_edit_stack(a).contains(EditOperation::Clarity(a.clarity, MaskType::Global)),
        a.dehaze != NEUTRAL ==> spec_edit_stack(a).contains(EditOperation::Dehaze(a.dehaze, MaskType::Global)),
        forall|i: int| 0 <= i < spec_edit_stack(a).len() ==> stack_entry_ok(a, #[trigger] spec_edit_stack(a)[i]),
        forall|i: int, j: int|
            0 <= i < j < spec_edit_stack(a).len() ==> render_rank(#[trigger] spec_edit_stack(a)[i]) < render_rank(
                #[trigger] spec_edit_stack(a)[j],
            ),
{
    let o1 = EditOperation::Exposure(a.exposure, MaskType::Global);
    let o2 = EditOperation::Exposure(a.highlights, MaskType::Highlights);
    let o3 = EditOperation::Exposure(a.shadows, MaskType::Shadows);
    let o4 = EditOperation::Exposure(a.whites, MaskType::Whites);
    let o5 = EditOperation::Exposure(a.blacks, MaskType::Blacks);
    let o6 = EditOperation::Contrast(a.contrast, MaskType::Global);
    let o7 = EditOperation::Saturation(a.saturation, MaskType::Global);
    let o8 = EditOperation::Temperature(a.temperature, MaskType::Global);
    let o9 = EditOperation::Tint(a.tint, MaskType::Global);
    let o10 = EditOperation::Texture(a.texture, MaskType::Global);
    let o11 = EditOperation::Clarity(a.clarity, MaskType::Global);
    let o12 = EditOperation::Dehaze(a.dehaze, MaskType::Global);
    let p0: Seq<EditOperation> = seq![];
    assert(ranked_entries(a, p0, 0)) by {
        reveal(ranked_entries);
    }
    lemma_stack_step(a, p0, a.exposure, o1, 0);
    let p1 = p0 + when_moved(a.exposure, o1);
    lemma_stack_step(a, p1, a.highlights, o2, 1);
    let p2 = p1 + when_moved(a.highlights, o2);
    lemma_stack_step(a, p2, a.shadows, o3, 2);
    let p3 = p2 + when_moved(a.shadows, o3);
    lemma_stack_step(a, p3, a.whites, o4, 3);
    let p4 = p3 + when_moved(a.whites, o4);
    lemma_stack_step(a, p4, a.blacks, o5, 4);
    let p5 = p4 + when_moved(a.blacks, o5);
    lemma_stack_step(a, p5, a.contrast, o6, 5);
    let p6 = p5 + when_moved(a.contrast, o6);
    lemma_stack_step(a, p6, a.saturation, o7, 6);
    let p7 = p6 + when_moved(a.saturation, o7);
    lemma_stack_step(a, p7, a.temperature, o8, 7);
    let p8 = p7 + when_moved(a.temperature, o8);
    lemma_stack_step(a, p8, a.tint, o9, 8);
    let p9 = p8 + when_moved(a.tint, o9);
    lemma_stack_step(a, p9, a.texture, o10, 9);
    let p10 = p9 + when_moved(a.texture, o10);
    lemma_stack_step(a, p10, a.clarity, o11, 10);
    let p11 = p10 + when_moved(a.clarity, o11);
    lemma_stack_step(a, p11, a.dehaze, o12, 11);
    let p12 = p11 + when_moved(a.dehaze, o12);
    lemma_holds_all_of_trans(p10, p11, p12);
    lemma_holds_all_of_trans(p9, p10, p12);
    lemma_holds_all_of_trans(p8, p9, p12);
    lemma_holds_all_of_trans(p7, p8, p12);
    lemma_holds_all_of_trans(p6, p7, p12);
    lemma_holds_all_of_trans(p5, p6, p12);
    lemma_holds_all_of_trans(p4, p5, p12);
    lemma_holds_all_of_trans(p3, p4, p12);
    lemma_holds_all_of_trans(p2, p3, p12);
    lemma_holds_all_of_trans(p1, p2, p12);
    assert(p12 =~= spec_edit_stack(a)) by {
        assert(p1 =~= when_moved(a.exposure, o1));
    }
    reveal(holds_all_of);
    reveal(ranked_entries);
}


/// How the renderer routes each edit: exposure runs under whatever mask it carries; every
/// other edit runs when global and is skipped under any other mask; a routed edit keeps its
/// value and mask.
pub proof fn lemma_routing(v: i32, m: MaskType)
    ensures
        EditOperation::Exposure(v, m).spec_masked_edit() == Some(MaskedEdit { kind: EditKind::Exposure, value: v, mask: m }),
        EditOperation::Contrast(v, m).spec_masked_edit() == (if m == MaskType::Global {
            Some(MaskedEdit { kind: EditKind::Contrast, value: v, mask: m })
        } else {
            None
        }),
        EditOperation::Saturation(v, m).spec_masked_edit() == (if m == MaskType::Global {
            Some(MaskedEdit { kind: EditKind::Saturation, value: v, mask: m })
        } else {
            None
        }),
        EditOperation::Temperature(v, m).spec_masked_edit() == (if m == MaskType::Global {
            Some(MaskedEdit { kind: EditKind::Temperature, value: v, mask: m })
        } else {
            None
        }),
        EditOperation::Tint(v, m).spec_masked_edit() == (if m == MaskType::Global {
            Some(MaskedEdit { kind: EditKind::Tint, value: v, mask: m })
        } else {
            None
        }),
        EditOperation::Texture(v, m).spec_masked_edit() == (if m == MaskType::Global {
            Some(MaskedEdit { kind: EditKind::Texture, value: v, mask: m })
        } else {
            None
        }),
        EditOperation::Clarity(v, m).spec_masked_edit() == (if m == MaskType::Global {
            Some(MaskedEdit { kind: EditKind::Clarity, value: v, mask: m })
        } else {
            None
        }),
        EditOperation::Dehaze(v, m).spec_masked_edit() == (if m == MaskType::Global {
            Some(MaskedEdit { kind: EditKind::Dehaze, value: v, mask: m })
        } else {
            None
        }),
{
}

} // verus!
