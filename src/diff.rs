//! The difference between two consecutive snapshots.

use crate::register::Register;
use crate::snapshot::{
    variables_view, DebugInfo, DebugInfoView, Frame, FrameView, Variable, VariableView,
};
use vstd::prelude::*;

verus! {

/// What changed from one snapshot to the next: the new registers at the
/// positions whose value changed, the new frame if it differs, and the whole
/// new variable list if any part of it differs.
#[derive(Debug)]
pub struct DiffInfo {
    pub changed_regs: Vec<Register>,
    pub frame: Option<Frame>,
    pub variables: Option<Vec<Variable>>,
}

/// A difference as mathematical values.
pub struct DiffInfoView {
    pub changed_regs: Seq<Register>,
    pub frame: Option<FrameView>,
    pub variables: Option<Seq<VariableView>>,
}

impl DiffInfoView {
    /// Nothing changed: no register, no frame, no variables.
    pub open spec fn is_empty(self) -> bool {
        &&& self.changed_regs.len() == 0
        &&& self.frame is None
        &&& self.variables is None
    }
}

impl View for DiffInfo {
    type V = DiffInfoView;

    open spec fn view(&self) -> DiffInfoView {
        DiffInfoView {
            changed_regs: self.changed_regs@,
            frame: match self.frame {
                Some(f) => Some(f@),
                None => None,
            },
            variables: match self.variables {
                Some(vs) => Some(variables_view(vs@)),
                None => None,
            },
        }
    }
}

/// The number of positions that two register sequences share.
pub open spec fn common_len(old: Seq<Register>, new: Seq<Register>) -> nat {
    if old.len() <= new.len() {
        old.len()
    } else {
        new.len()
    }
}

/// The registers of `new`, in order, at the positions below `n` where `old`
/// holds a different register.
pub open spec fn changed_prefix(old: Seq<Register>, new: Seq<Register>, n: nat) -> Seq<Register>
    decreases n,
{
    if n == 0 {
        seq![]
    } else {
        let rest = changed_prefix(old, new, (n - 1) as nat);
        if old[n - 1] == new[n - 1] {
            rest
        } else {
            rest.push(new[n - 1])
        }
    }
}

/// The registers of `new` whose position holds another register in `old`,
/// comparing only the positions that both sequences have.
pub open spec fn changed_regs(old: Seq<Register>, new: Seq<Register>) -> Seq<Register> {
    changed_prefix(old, new, common_len(old, new))
}

/// The difference from snapshot `old` to snapshot `new`.
pub open spec fn diff_of(old: DebugInfoView, new: DebugInfoView) -> DiffInfoView {
    DiffInfoView {
        changed_regs: changed_regs(old.regs, new.regs),
        frame: if old.frame == new.frame {
            None
        } else {
            Some(new.frame)
        },
        variables: if old.variables == new.variables {
            None
        } else {
            Some(new.variables)
        },
    }
}

impl DiffInfo {
    /// Whether nothing changed, so that nothing needs to be shown again.
    pub fn is_empty(&self) -> (r: bool)
        ensures
            r == self@.is_empty(),
    {
        self.changed_regs.len() == 0 && self.frame.is_none() && self.variables.is_none()
    }
}

/// Whether two variable lists of the same length differ at some position.
fn variables_differ(old: &Vec<Variable>, new: &Vec<Variable>) -> (r: bool)
    requires
        old@.len() == new@.len(),
    ensures
        r == (variables_view(old@) != variables_view(new@)),
{
    let mut j: usize = 0;
    while j < new.len()
        invariant
            old@.len() == new@.len(),
            j <= new@.len(),
            forall|k: int| 0 <= k < j ==> old@[k]@ == new@[k]@,
        decreases new@.len() - j,
    {
        if !new[j].eq(&old[j]) {
            assert(variables_view(old@)[j as int] != variables_view(new@)[j as int]);
            return true;
        }
        j += 1;
    }
    assert(variables_view(old@) =~= variables_view(new@));
    false
}

/// Compares two snapshots: registers position by position up to the shorter
/// list, the frame as a whole, and the variable list as a whole.
///
/// Registers are matched by position, not by number: a backend that reorders
/// its registers between two stops shows spurious changes, and registers past
/// the shorter list are never compared.
pub fn diff_debug_info(old_debug_info: &DebugInfo, new_debug_info: &DebugInfo) -> (r: DiffInfo)
    ensures
        r@ == diff_of(old_debug_info@, new_debug_info@),
{
    let old_regs = &old_debug_info.regs;
    let new_regs = &new_debug_info.regs;
    let n: usize = if old_regs.len() <= new_regs.len() {
        old_regs.len()
    } else {
        new_regs.len()
    };
    let mut changed_regs: Vec<Register> = Vec::new();
    let mut i: usize = 0;
    while i < n
        invariant
            n == common_len(old_regs@, new_regs@),
            n <= old_regs@.len(),
            n <= new_regs@.len(),
            i <= n,
            changed_regs@ == changed_prefix(old_regs@, new_regs@, i as nat),
        decreases n - i,
    {
        if new_regs[i] != old_regs[i] {
            changed_regs.push(new_regs[i]);
        }
        i += 1;
    }

    let changed_frame = if new_debug_info.frame.eq(&old_debug_info.frame) {
        None
    } else {
        Some(new_debug_info.frame.clone())
    };

    let changed = if new_debug_info.variables.len() != old_debug_info.variables.len() {
        assert(variables_view(old_debug_info.variables@).len() != variables_view(
            new_debug_info.variables@,
        ).len());
        true
    } else {
        variables_differ(&old_debug_info.variables, &new_debug_info.variables)
    };
    let changed_variables = if changed {
        let vs = new_debug_info.variables.clone();
        assert(vs@ =~= new_debug_info.variables@);
        Some(vs)
    } else {
        None
    };

    DiffInfo { changed_regs, frame: changed_frame, variables: changed_variables }
}

/// Comparing a register sequence with itself finds no change below `n`.
proof fn lemma_changed_prefix_same(regs: Seq<Register>, n: nat)
    ensures
        changed_prefix(regs, regs, n) == Seq::<Register>::empty(),
    decreases n,
{
    if n > 0 {
        lemma_changed_prefix_same(regs, (n - 1) as nat);
    }
}

/// Where two register sequences differ below `n` only at position `p`, the
/// change found below `n` is the new register at `p`, once `n` passes `p`.
proof fn lemma_changed_prefix_single(old: Seq<Register>, new: Seq<Register>, p: int, n: nat)
    requires
        n <= old.len(),
        n <= new.len(),
        0 <= p,
        p < n ==> old[p] != new[p],
        forall|i: int| 0 <= i < n && i != p ==> old[i] == new[i],
    ensures
        changed_prefix(old, new, n) == (if n <= p {
            Seq::<Register>::empty()
        } else {
            seq![new[p]]
        }),
    decreases n,
{
    if n > 0 {
        lemma_changed_prefix_single(old, new, p, (n - 1) as nat);
    }
}

/// The change found below `n` depends only on the positions below `n`.
proof fn lemma_changed_prefix_below(
    old: Seq<Register>,
    new: Seq<Register>,
    old2: Seq<Register>,
    new2: Seq<Register>,
    n: nat,
)
    requires
        n <= old.len(),
        n <= new.len(),
        n <= old2.len(),
        n <= new2.len(),
        forall|i: int| 0 <= i < n ==> old[i] == old2[i] && new[i] == new2[i],
    ensures
        changed_prefix(old, new, n) == changed_prefix(old2, new2, n),
    decreases n,
{
    if n > 0 {
        lemma_changed_prefix_below(old, new, old2, new2, (n - 1) as nat);
    }
}

/// A snapshot compared with itself gives an empty difference.
pub proof fn lemma_diff_self_empty(s: DebugInfoView)
    ensures
        diff_of(s, s).is_empty(),
{
    lemma_changed_prefix_same(s.regs, common_len(s.regs, s.regs));
}

/// Where two snapshots differ only in the register at one position, the
/// difference holds that new register alone, and neither frame nor variables.
pub proof fn lemma_diff_one_register(old: DebugInfoView, new: DebugInfoView, p: int)
    requires
        old.regs.len() == new.regs.len(),
        0 <= p < new.regs.len(),
        old.regs[p] != new.regs[p],
        forall|i: int| 0 <= i < new.regs.len() && i != p ==> old.regs[i] == new.regs[i],
        old.frame == new.frame,
        old.variables == new.variables,
    ensures
        diff_of(old, new).changed_regs == seq![new.regs[p]],
        diff_of(old, new).frame is None,
        diff_of(old, new).variables is None,
{
    lemma_changed_prefix_single(old.regs, new.regs, p, new.regs.len());
}

/// Where two snapshots differ only in their frame, the difference holds the
/// new frame, no register and no variables.
pub proof fn lemma_diff_frame_only(old: DebugInfoView, new: DebugInfoView)
    requires
        old.regs == new.regs,
        old.frame != new.frame,
        old.variables == new.variables,
    ensures
        diff_of(old, new).changed_regs.len() == 0,
        diff_of(old, new).frame == Some(new.frame),
        diff_of(old, new).variables is None,
{
    lemma_changed_prefix_same(new.regs, common_len(new.regs, new.regs));
}

/// Where the number of variables changes, the difference holds the whole new
/// variable list.
pub proof fn lemma_diff_variable_count(old: DebugInfoView, new: DebugInfoView)
    requires
        old.variables.len() != new.variables.len(),
    ensures
        diff_of(old, new).variables == Some(new.variables),
{
}

/// Where the number of variables stays and one of them changes, the
/// difference holds the whole new variable list, not only that variable.
pub proof fn lemma_diff_variable_changed(old: DebugInfoView, new: DebugInfoView, p: int)
    requires
        old.variables.len() == new.variables.len(),
        0 <= p < new.variables.len(),
        old.variables[p] != new.variables[p],
    ensures
        diff_of(old, new).variables == Some(new.variables),
{
}

/// Registers past the shorter of the two sequences never show in the
/// difference: cutting both sequences to their common length changes nothing.
pub proof fn lemma_diff_ignores_excess_registers(old: Seq<Register>, new: Seq<Register>)
    ensures
        changed_regs(old, new) == changed_regs(
            old.take(common_len(old, new) as int),
            new.take(common_len(old, new) as int),
        ),
{
    let c = common_len(old, new);
    let old2 = old.take(c as int);
    let new2 = new.take(c as int);
    assert(common_len(old2, new2) == c);
    lemma_changed_prefix_below(old, new, old2, new2, c);
}

} // verus!
