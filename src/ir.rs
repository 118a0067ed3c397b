use vstd::prelude::*;

use crate::text::{decimal, decimal_text};

verus! {

/// Element type of a memory reference.
#[derive(Clone, Copy, PartialEq, Eq, Structural, Debug)]
pub enum ElementType {
    F32,
    Index,
}

/// A ranked, statically shaped memory reference type such as `memref<4x8xf32>`.
pub struct MemRefType {
    pub shape: Vec<u64>,
    pub element: ElementType,
}

pub struct MemRefModel {
    pub shape: Seq<u64>,
    pub element: ElementType,
}

impl View for MemRefType {
    type V = MemRefModel;

    open spec fn view(&self) -> MemRefModel {
        MemRefModel { shape: self.shape@, element: self.element }
    }
}

/// One operation of a function body: its qualified name, and its operands as
/// indices into the arguments of the function's entry block.
pub struct OpDesc {
    pub name: String,
    pub operands: Vec<usize>,
}

pub struct OpModel {
    pub name: Seq<char>,
    pub operands: Seq<usize>,
}

impl View for OpDesc {
    type V = OpModel;

    open spec fn view(&self) -> OpModel {
        OpModel { name: self.name@, operands: self.operands@ }
    }
}

/// A function definition with a single entry block whose arguments are the inputs.
pub struct FuncDesc {
    pub name: String,
    pub inputs: Vec<MemRefType>,
    pub results: Vec<MemRefType>,
    pub body: Vec<OpDesc>,
}

pub struct FuncModel {
    pub name: Seq<char>,
    pub inputs: Seq<MemRefModel>,
    pub results: Seq<MemRefModel>,
    pub body: Seq<OpModel>,
}

impl View for FuncDesc {
    type V = FuncModel;

    open spec fn view(&self) -> FuncModel {
        FuncModel {
            name: self.name@,
            inputs: self.inputs@.map_values(|t: MemRefType| t@),
            results: self.results@.map_values(|t: MemRefType| t@),
            body: self.body@.map_values(|o: OpDesc| o@),
        }
    }
}

/// A top-level module: a list of function definitions.
pub struct ModuleDesc {
    pub functions: Vec<FuncDesc>,
}

pub struct ModuleModel {
    pub functions: Seq<FuncModel>,
}

impl View for ModuleDesc {
    type V = ModuleModel;

    open spec fn view(&self) -> ModuleModel {
        ModuleModel { functions: self.functions@.map_values(|f: FuncDesc| f@) }
    }
}

pub open spec fn element_text(e: ElementType) -> Seq<char> {
    match e {
        ElementType::F32 => "f32"@,
        ElementType::Index => "index"@,
    }
}

/// Each dimension in decimal followed by `x`, as in `4x8x`.
pub open spec fn shape_text(shape: Seq<u64>) -> Seq<char>
    decreases shape.len(),
{
    if shape.len() == 0 {
        Seq::empty()
    } else {
        shape_text(shape.drop_last()) + decimal(shape.last() as nat) + "x"@
    }
}

/// The textual form of a memory reference type, as the IR parser reads it.
pub open spec fn memref_text(t: MemRefModel) -> Seq<char> {
    "memref<"@ + shape_text(t.shape) + element_text(t.element) + ">"@
}

/// Every operand of every operation names an argument of the entry block.
pub open spec fn wf_function(f: FuncModel) -> bool {
    forall|i: int, j: int|
        0 <= i < f.body.len() && 0 <= j < f.body[i].operands.len()
            ==> f.body[i].operands[j] < f.inputs.len()
}

pub open spec fn wf_module(m: ModuleModel) -> bool {
    forall|k: int| 0 <= k < m.functions.len() ==> wf_function(#[trigger] m.functions[k])
}

fn element_str(e: ElementType) -> (r: &'static str)
    ensures
        r@ == element_text(e),
{
    match e {
        ElementType::F32 => "f32",
        ElementType::Index => "index",
    }
}

impl MemRefType {
    /// A two-dimensional `rows x cols` memory reference.
    pub fn matrix(rows: u64, cols: u64, element: ElementType) -> (r: MemRefType)
        ensures
            r@ == (MemRefModel { shape: seq![rows, cols], element }),
    {
        let shape = vec![rows, cols];
        MemRefType { shape, element }
    }

    /// The textual form of this type, e.g. `memref<1024x1024xf32>`.
    pub fn type_text(&self) -> (r: String)
        ensures
            r@ == memref_text(self@),
    {
        let mut s = String::from_str("memref<");
        let mut i: usize = 0;
        while i < self.shape.len()
            invariant
                i <= self.shape@.len(),
                s@ == "memref<"@ + shape_text(self.shape@.subrange(0, i as int)),
            decreases self.shape@.len() - i,
        {
            let d = decimal_text(self.shape[i]);
            s.append(d.as_str());
            s.append("x");
            proof {
                let prefix = self.shape@.subrange(0, i + 1);
                assert(prefix.drop_last() =~= self.shape@.subrange(0, i as int));
                assert(prefix.last() == self.shape@[i as int]);
                assert(s@ =~= "memref<"@ + shape_text(prefix));
            }
            i += 1;
        }
        assert(self.shape@.subrange(0, i as int) =~= self.shape@);
        s.append(element_str(self.element));
        s.append(">");
        s
    }
}

impl FuncDesc {
    /// Whether every operand index names an argument of the entry block.
    pub fn is_well_formed(&self) -> (r: bool)
        ensures
            r == wf_function(self@),
    {
        let n = self.inputs.len();
        let mut i: usize = 0;
        while i < self.body.len()
            invariant
                i <= self.body@.len(),
                n == self@.inputs.len(),
                forall|a: int, b: int|
                    0 <= a < i && 0 <= b < self@.body[a].operands.len()
                        ==> self@.body[a].operands[b] < n,
            decreases self.body@.len() - i,
        {
            let ops = &self.body[i].operands;
            let mut j: usize = 0;
            while j < ops.len()
                invariant
                    i < self.body@.len(),
                    ops == &self.body@[i as int].operands,
                    j <= ops@.len(),
                    n == self@.inputs.len(),
                    forall|b: int| 0 <= b < j ==> self@.body[i as int].operands[b] < n,
                decreases ops@.len() - j,
            {
                if ops[j] >= n {
                    assert(self@.body[i as int].operands[j as int] >= n);
                    return false;
                }
                j += 1;
            }
            i += 1;
        }
        true
    }
}

impl ModuleDesc {
    /// Whether every function of the module is well formed.
    pub fn is_well_formed(&self) -> (r: bool)
        ensures
            r == wf_module(self@),
    {
        let mut k: usize = 0;
        while k < self.functions.len()
            invariant
                k <= self.functions@.len(),
                forall|a: int| 0 <= a < k ==> wf_function(#[trigger] self@.functions[a]),
            decreases self.functions@.len() - k,
        {
            if !self.functions[k].is_well_formed() {
                assert(!wf_function(self@.functions[k as int]));
                return false;
            }
            k += 1;
        }
        true
    }
}

} // verus!
