use vstd::prelude::*;

use crate::ir::{
    wf_module, ElementType, FuncDesc, FuncModel, MemRefModel, MemRefType, ModuleDesc, ModuleModel,
    OpDesc, OpModel,
};

verus! {

/// Rows and columns of each matrix of the kernel.
pub const MATRIX_DIM: u64 = 1024;

/// `memref<1024x1024xf32>`.
pub open spec fn matrix_model() -> MemRefModel {
    MemRefModel { shape: seq![MATRIX_DIM, MATRIX_DIM], element: ElementType::F32 }
}

/// The matrix multiply over the three entry-block arguments `A`, `B`, `C`.
pub open spec fn matmul_op_model() -> OpModel {
    OpModel { name: "linalg.matmul"@, operands: seq![0usize, 1usize, 2usize] }
}

/// The return without values that ends the function.
pub open spec fn return_op_model() -> OpModel {
    OpModel { name: "func.return"@, operands: Seq::empty() }
}

/// The single function `matmul_1024(A, B, C)` with no results.
pub open spec fn matmul_function_model() -> FuncModel {
    FuncModel {
        name: "matmul_1024"@,
        inputs: seq![matrix_model(), matrix_model(), matrix_model()],
        results: Seq::empty(),
        body: seq![matmul_op_model(), return_op_model()],
    }
}

pub open spec fn matmul_module() -> ModuleModel {
    ModuleModel { functions: seq![matmul_function_model()] }
}

/// The type of each matrix: `1024 x 1024` of `f32`.
pub fn matrix_type() -> (r: MemRefType)
    ensures
        r@ == matrix_model(),
{
    MemRefType::matrix(MATRIX_DIM, MATRIX_DIM, ElementType::F32)
}

/// Builds the module holding one fixed-size matrix-multiply function:
/// three matrix parameters, no results, and a body of a matrix multiply over
/// all three parameters followed by a return without values.
pub fn build_matmul_module() -> (r: ModuleDesc)
    ensures
        r@ == matmul_module(),
        wf_module(r@),
        r@.functions.len() == 1,
        r@.functions[0].name == "matmul_1024"@,
        r@.functions[0].inputs.len() == 3,
        forall|i: int| 0 <= i < 3 ==> r@.functions[0].inputs[i] == matrix_model(),
        r@.functions[0].results.len() == 0,
        r@.functions[0].body.len() == 2,
        r@.functions[0].body[0] == matmul_op_model(),
        r@.functions[0].body[1] == return_op_model(),
{
    let inputs = vec![matrix_type(), matrix_type(), matrix_type()];
    let results: Vec<MemRefType> = Vec::new();
    let matmul = OpDesc { name: String::from_str("linalg.matmul"), operands: vec![0usize, 1usize, 2usize] };
    let ret = OpDesc { name: String::from_str("func.return"), operands: Vec::new() };
    let body = vec![matmul, ret];
    let func = FuncDesc { name: String::from_str("matmul_1024"), inputs, results, body };
    let functions = vec![func];
    let r = ModuleDesc { functions };
    proof {
        let f = r@.functions[0];
        assert(f.inputs =~= matmul_function_model().inputs);
        assert(f.results =~= matmul_function_model().results);
        assert(f.body[0].operands =~= matmul_op_model().operands);
        assert(f.body[1].operands =~= return_op_model().operands);
        assert(f.body =~= matmul_function_model().body);
        assert(r@.functions =~= matmul_module().functions);
    }
    r
}

} // verus!
