use vstd::prelude::*;

verus! {

/// The kinds of AST node at which a visitor may hook in.
#[derive(Clone, Copy, Debug, PartialEq, Eq, Structural)]
pub enum NodeKind {
    Query,
    Relation,
    TableFactor,
    Expr,
    Statement,
    Value,
}

/// Whether a hook runs before a node's children are walked, or after.
#[derive(Clone, Copy, Debug, PartialEq, Eq, Structural)]
pub enum Phase {
    Pre,
    Post,
}

/// What a hook handed back, as far as the traversal cares.
#[derive(Clone, Copy, Debug, PartialEq, Eq, Structural)]
pub enum HookReply {
    /// No value at all (`undefined` or `null`).
    Nothing,
    /// A boolean.
    Bool(bool),
    /// Any other value; it becomes the payload of a break.
    Other,
}

/// The control signal a hook's reply turns into.
#[derive(Clone, Copy, Debug, PartialEq, Eq, Structural)]
pub enum Flow {
    Continue,
    Break,
}

/// What the driver must do when the traversal reaches a hook slot.
#[derive(Clone, Copy, Debug, PartialEq, Eq, Structural)]
pub enum HookStep {
    /// The slot is empty: continue without calling anything.
    Skip,
    /// Call the hook, then hand its reply to `after_hook`.
    Invoke,
    /// A hook has already broken off the traversal: call nothing, break.
    Halted,
}

pub open spec fn spec_kind_name(kind: NodeKind) -> Seq<char> {
    match kind {
        NodeKind::Query => "query"@,
        NodeKind::Relation => "relation"@,
        NodeKind::TableFactor => "table_factor"@,
        NodeKind::Expr => "expr"@,
        NodeKind::Statement => "statement"@,
        NodeKind::Value => "value"@,
    }
}

/// The configuration key of a hook slot, such as `pre_visit_expr`.
pub open spec fn spec_hook_name(kind: NodeKind, phase: Phase) -> Seq<char> {
    match phase {
        Phase::Pre => "pre_visit_"@ + spec_kind_name(kind),
        Phase::Post => "post_visit_"@ + spec_kind_name(kind),
    }
}

/// A reply continues the traversal when it is empty or `true`; anything
/// else breaks it off.
pub open spec fn spec_break_or_continue(reply: HookReply) -> Flow {
    match reply {
        HookReply::Nothing => Flow::Continue,
        HookReply::Bool(true) => Flow::Continue,
        _ => Flow::Break,
    }
}

/// Position of a hook slot among the twelve.
pub open spec fn slot_index(kind: NodeKind, phase: Phase) -> int {
    let k = match kind {
        NodeKind::Query => 0int,
        NodeKind::Relation => 1,
        NodeKind::TableFactor => 2,
        NodeKind::Expr => 3,
        NodeKind::Statement => 4,
        NodeKind::Value => 5,
    };
    match phase {
        Phase::Pre => 2 * k,
        Phase::Post => 2 * k + 1,
    }
}

fn slot_index_exec(kind: NodeKind, phase: Phase) -> (r: usize)
    ensures
        r as int == slot_index(kind, phase),
        r < 12,
{
    let k: usize = match kind {
        NodeKind::Query => 0,
        NodeKind::Relation => 1,
        NodeKind::TableFactor => 2,
        NodeKind::Expr => 3,
        NodeKind::Statement => 4,
        NodeKind::Value => 5,
    };
    match phase {
        Phase::Pre => 2 * k,
        Phase::Post => 2 * k + 1,
    }
}

/// The configuration key of a hook slot, such as `pre_visit_expr`.
pub fn hook_name(kind: NodeKind, phase: Phase) -> (r: String)
    ensures
        r@ == spec_hook_name(kind, phase),
{
    let mut r = match phase {
        Phase::Pre => String::from_str("pre_visit_"),
        Phase::Post => String::from_str("post_visit_"),
    };
    let k = match kind {
        NodeKind::Query => "query",
        NodeKind::Relation => "relation",
        NodeKind::TableFactor => "table_factor",
        NodeKind::Expr => "expr",
        NodeKind::Statement => "statement",
        NodeKind::Value => "value",
    };
    r.append(k);
    r
}

/// All twelve hook slots, each node kind's `Pre` slot before its `Post` slot.
pub fn hook_slots() -> (r: Vec<(NodeKind, Phase)>)
    ensures
        r@.len() == 12,
        forall|i: int| 0 <= i < 12 ==> slot_index((#[trigger] r@[i]).0, r@[i].1) == i,
{
    vec![
        (NodeKind::Query, Phase::Pre),
        (NodeKind::Query, Phase::Post),
        (NodeKind::Relation, Phase::Pre),
        (NodeKind::Relation, Phase::Post),
        (NodeKind::TableFactor, Phase::Pre),
        (NodeKind::TableFactor, Phase::Post),
        (NodeKind::Expr, Phase::Pre),
        (NodeKind::Expr, Phase::Post),
        (NodeKind::Statement, Phase::Pre),
        (NodeKind::Statement, Phase::Post),
        (NodeKind::Value, Phase::Pre),
        (NodeKind::Value, Phase::Post),
    ]
}

/// Turns a hook's reply into the traversal's control signal.
pub fn break_or_continue(reply: HookReply) -> (r: Flow)
    ensures
        r == spec_break_or_continue(reply),
{
    match reply {
        HookReply::Nothing => Flow::Continue,
        HookReply::Bool(true) => Flow::Continue,
        _ => Flow::Break,
    }
}

/// The decisions of one traversal: which hook slots are filled, and whether
/// a hook has broken the traversal off.
pub struct VisitSession {
    configured: Vec<bool>,
    halted: bool,
}

impl VisitSession {
    pub closed spec fn wf(&self) -> bool {
        self.configured@.len() == 12
    }

    /// Whether the slot holds a hook.
    pub closed spec fn has_hook(&self, kind: NodeKind, phase: Phase) -> bool {
        self.configured@[slot_index(kind, phase)]
    }

    /// Whether a hook has answered with a break.
    pub closed spec fn is_halted(&self) -> bool {
        self.halted
    }

    /// The step `before_hook` prescribes.
    pub open spec fn spec_step(&self, kind: NodeKind, phase: Phase) -> HookStep {
        if self.is_halted() {
            HookStep::Halted
        } else if self.has_hook(kind, phase) {
            HookStep::Invoke
        } else {
            HookStep::Skip
        }
    }

    /// A session with every slot empty, not halted.
    pub fn new() -> (r: Self)
        ensures
            r.wf(),
            !r.is_halted(),
            forall|k: NodeKind, p: Phase| !r.has_hook(k, p),
    {
        let r = VisitSession { configured: vec![false; 12], halted: false };
        assert forall|k: NodeKind, p: Phase| !r.has_hook(k, p) by {
            assert(0 <= slot_index(k, p) < 12);
        }
        r
    }

    /// Marks a slot as holding a hook.
    pub fn add_hook(&mut self, kind: NodeKind, phase: Phase)
        requires
            old(self).wf(),
        ensures
            final(self).wf(),
            final(self).is_halted() == old(self).is_halted(),
            final(self).has_hook(kind, phase),
            forall|k: NodeKind, p: Phase|
                k != kind || p != phase ==> final(self).has_hook(k, p) == old(self).has_hook(k, p),
    {
        let i = slot_index_exec(kind, phase);
        self.configured.set(i, true);
    }

    /// What to do on reaching the slot of `kind` in `phase`.
    pub fn before_hook(&self, kind: NodeKind, phase: Phase) -> (r: HookStep)
        requires
            self.wf(),
        ensures
            r == self.spec_step(kind, phase),
    {
        if self.halted {
            HookStep::Halted
        } else if self.configured[slot_index_exec(kind, phase)] {
            HookStep::Invoke
        } else {
            HookStep::Skip
        }
    }

    /// Records a hook's reply and says whether the traversal goes on; a
    /// break halts the session for good.
    pub fn after_hook(&mut self, reply: HookReply) -> (r: Flow)
        requires
            old(self).wf(),
        ensures
            final(self).wf(),
            r == spec_break_or_continue(reply),
            final(self).is_halted() == (old(self).is_halted() || r == Flow::Break),
            forall|k: NodeKind, p: Phase| final(self).has_hook(k, p) == old(self).has_hook(k, p),
    {
        let r = break_or_continue(reply);
        if r == Flow::Break {
            self.halted = true;
        }
        r
    }
}

/// A break is final: once a hook has answered with a break, the session
/// invokes no further hook, before or after any node, so neither the
/// pending post-visit hooks of enclosing nodes nor any later sibling run.
pub proof fn lemma_break_halts_traversal(
    before: VisitSession,
    after: VisitSession,
    reply: HookReply,
    kind: NodeKind,
    phase: Phase,
)
    requires
        spec_break_or_continue(reply) == Flow::Break,
        after.is_halted() == (before.is_halted() || spec_break_or_continue(reply) == Flow::Break),
    ensures
        after.spec_step(kind, phase) == HookStep::Halted,
{
}

} // verus!
