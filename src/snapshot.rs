//! Point-in-time debugger state: registers, the selected frame and the
//! variables in scope at it.

use crate::register::Register;
use vstd::prelude::*;

verus! {

/// An optional text, as a sequence of characters.
pub open spec fn text_of(t: Option<String>) -> Option<Seq<char>> {
    match t {
        Some(s) => Some(s@),
        None => None,
    }
}

/// Whether two optional texts hold the same characters.
fn same_text(a: &Option<String>, b: &Option<String>) -> (r: bool)
    ensures
        r == (text_of(*a) == text_of(*b)),
{
    match (a, b) {
        (Some(x), Some(y)) => x.eq(y),
        (None, None) => true,
        _ => false,
    }
}

/// Clones an optional text.
fn copy_text(t: &Option<String>) -> (r: Option<String>)
    ensures
        r == *t,
{
    match t {
        Some(s) => Some(s.clone()),
        None => None,
    }
}

/// One stack frame. `level` 0 is the innermost frame; the symbol fields are
/// absent where no debug information covers the frame.
#[derive(Debug)]
pub struct Frame {
    pub level: u32,
    pub address: u64,
    pub function: Option<String>,
    pub file: Option<String>,
    pub line: Option<u32>,
}

/// A frame with its texts as character sequences.
pub struct FrameView {
    pub level: u32,
    pub address: u64,
    pub function: Option<Seq<char>>,
    pub file: Option<Seq<char>>,
    pub line: Option<u32>,
}

impl View for Frame {
    type V = FrameView;

    open spec fn view(&self) -> FrameView {
        FrameView {
            level: self.level,
            address: self.address,
            function: text_of(self.function),
            file: text_of(self.file),
            line: self.line,
        }
    }
}

impl PartialEq for Frame {
    fn eq(&self, other: &Frame) -> (r: bool) {
        self.level == other.level && self.address == other.address && same_text(
            &self.function,
            &other.function,
        ) && same_text(&self.file, &other.file) && match (self.line, other.line) {
            (Some(x), Some(y)) => x == y,
            (None, None) => true,
            _ => false,
        }
    }
}

impl vstd::std_specs::cmp::PartialEqSpecImpl for Frame {
    open spec fn obeys_eq_spec() -> bool {
        true
    }

    open spec fn eq_spec(&self, other: &Frame) -> bool {
        self@ == other@
    }
}

impl Clone for Frame {
    fn clone(&self) -> (r: Self)
        ensures
            r == *self,
    {
        Frame {
            level: self.level,
            address: self.address,
            function: copy_text(&self.function),
            file: copy_text(&self.file),
            line: self.line,
        }
    }
}

/// One named value in scope at a frame. `value` is absent where the debugger
/// could not evaluate it; `is_arg` marks a parameter of the function.
#[derive(Debug)]
pub struct Variable {
    pub name: String,
    pub var_type: String,
    pub value: Option<String>,
    pub is_arg: bool,
}

/// A variable with its texts as character sequences.
pub struct VariableView {
    pub name: Seq<char>,
    pub var_type: Seq<char>,
    pub value: Option<Seq<char>>,
    pub is_arg: bool,
}

impl View for Variable {
    type V = VariableView;

    open spec fn view(&self) -> VariableView {
        VariableView {
            name: self.name@,
            var_type: self.var_type@,
            value: text_of(self.value),
            is_arg: self.is_arg,
        }
    }
}

impl PartialEq for Variable {
    fn eq(&self, other: &Variable) -> (r: bool) {
        self.name == other.name && self.var_type == other.var_type && same_text(
            &self.value,
            &other.value,
        ) && self.is_arg == other.is_arg
    }
}

impl vstd::std_specs::cmp::PartialEqSpecImpl for Variable {
    open spec fn obeys_eq_spec() -> bool {
        true
    }

    open spec fn eq_spec(&self, other: &Variable) -> bool {
        self@ == other@
    }
}

impl Clone for Variable {
    fn clone(&self) -> (r: Self)
        ensures
            r == *self,
    {
        Variable {
            name: self.name.clone(),
            var_type: self.var_type.clone(),
            value: copy_text(&self.value),
            is_arg: self.is_arg,
        }
    }
}

/// The views of a sequence of variables.
pub open spec fn variables_view(vs: Seq<Variable>) -> Seq<VariableView> {
    vs.map_values(|v: Variable| v@)
}

/// One snapshot: the registers in the order they were reported, the selected
/// frame and the variables in scope at it.
#[derive(Debug)]
pub struct DebugInfo {
    pub regs: Vec<Register>,
    pub frame: Frame,
    pub variables: Vec<Variable>,
}

/// A snapshot as mathematical values.
pub struct DebugInfoView {
    pub regs: Seq<Register>,
    pub frame: FrameView,
    pub variables: Seq<VariableView>,
}

impl View for DebugInfo {
    type V = DebugInfoView;

    open spec fn view(&self) -> DebugInfoView {
        DebugInfoView {
            regs: self.regs@,
            frame: self.frame@,
            variables: variables_view(self.variables@),
        }
    }
}

/// Whether two register sequences are equal, position by position.
fn same_registers(a: &Vec<Register>, b: &Vec<Register>) -> (r: bool)
    ensures
        r == (a@ == b@),
{
    if a.len() != b.len() {
        return false;
    }
    let mut i: usize = 0;
    while i < a.len()
        invariant
            a@.len() == b@.len(),
            i <= a@.len(),
            forall|k: int| 0 <= k < i ==> a@[k] == b@[k],
        decreases a@.len() - i,
    {
        if a[i] != b[i] {
            return false;
        }
        i += 1;
    }
    assert(a@ =~= b@);
    true
}

impl PartialEq for DebugInfo {
    fn eq(&self, other: &DebugInfo) -> (r: bool) {
        let same_regs = same_registers(&self.regs, &other.regs);
        let same_variables = self.variables == other.variables;
        proof {
            if same_variables {
                assert(variables_view(self.variables@) =~= variables_view(other.variables@));
            } else if self.variables@.len() == other.variables@.len() {
                let k = choose|k: int|
                    0 <= k < self.variables@.len() && !(self.variables@[k]@ == other.variables@[k]@);
                assert(variables_view(self.variables@)[k] != variables_view(other.variables@)[k]);
            } else {
                assert(variables_view(self.variables@).len() != variables_view(
                    other.variables@,
                ).len());
            }
        }
        same_regs && self.frame.eq(&other.frame) && same_variables
    }
}

impl vstd::std_specs::cmp::PartialEqSpecImpl for DebugInfo {
    open spec fn obeys_eq_spec() -> bool {
        true
    }

    open spec fn eq_spec(&self, other: &DebugInfo) -> bool {
        self@ == other@
    }
}

impl Clone for DebugInfo {
    fn clone(&self) -> (r: Self)
        ensures
            r@ == self@,
    {
        let regs = self.regs.clone();
        let variables = self.variables.clone();
        assert(regs@ =~= self.regs@);
        assert(variables@ =~= self.variables@);
        DebugInfo { regs, frame: self.frame.clone(), variables }
    }
}

} // verus!
