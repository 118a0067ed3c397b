use vstd::prelude::*;

use crate::ir::ModuleDesc;
use crate::matmul::matmul_module;
use crate::pipeline::{gpu_pass_names, lower_to_gpu, numbered, pipeline_lines};

verus! {

pub open spec fn generated_header() -> Seq<char> {
    "=== Generated MLIR (Linalg) ==="@
}

pub open spec fn lowered_header() -> Seq<char> {
    "\n=== After GPU Lowering ==="@
}

/// What a run prints, line by line, given the printed text of its module:
/// the module, the pipeline documentation, then the module after lowering.
/// Lowering runs no pass, so the module text after it is the text before it.
pub open spec fn output_lines(module_text: Seq<char>) -> Seq<Seq<char>> {
    seq![generated_header(), module_text] + pipeline_lines() + seq![lowered_header(), module_text]
}

/// The lines of a run over `module`, whose printed form is `module_text`.
pub fn program_output(module: &ModuleDesc, module_text: &str) -> (r: Vec<String>)
    ensures
        r.deep_view() == output_lines(module_text@),
{
    let mut lines: Vec<String> = Vec::new();
    lines.push(String::from_str("=== Generated MLIR (Linalg) ==="));
    lines.push(module_text.to_owned());
    let notes = lower_to_gpu(module);
    let ghost head = lines.deep_view();
    assert(head =~= seq![generated_header(), module_text@]);
    let mut i: usize = 0;
    while i < notes.len()
        invariant
            i <= notes@.len(),
            notes.deep_view() == pipeline_lines(),
            lines.deep_view() =~= head + pipeline_lines().subrange(0, i as int),
        decreases notes@.len() - i,
    {
        let ghost before = lines.deep_view();
        lines.push(notes[i].clone());
        assert(lines.deep_view() =~= before.push(notes@[i as int]@));
        assert(notes@[i as int]@ == pipeline_lines()[i as int]);
        i += 1;
    }
    assert(pipeline_lines().subrange(0, i as int) =~= pipeline_lines());
    lines.push(String::from_str("\n=== After GPU Lowering ==="));
    lines.push(module_text.to_owned());
    assert(lines.deep_view() =~= output_lines(module_text@));
    lines
}

/// The module is printed twice, before and after lowering, and both prints
/// are the same text.
pub proof fn lemma_lowering_keeps_module_text(module_text: Seq<char>)
    ensures
        output_lines(module_text)[1] == module_text,
        output_lines(module_text)[output_lines(module_text).len() - 1] == module_text,
{
    assert(pipeline_lines().len() == 7);
}

/// The five pass lines are printed in the same order and at the same place,
/// whatever the module text.
pub proof fn lemma_pass_lines_fixed(module_text: Seq<char>)
    ensures
        output_lines(module_text).len() == 11,
        gpu_pass_names().len() == 5,
        forall|i: int|
            0 <= i < 5 ==> output_lines(module_text)[4 + i] == numbered(
                (i + 1) as nat,
                gpu_pass_names()[i],
            ),
{
    assert(pipeline_lines().len() == 7);
}

/// Two runs agree: both build the same module, and given the same printed
/// module text they print the same lines.
pub proof fn lemma_runs_agree(
    first: ModuleDesc,
    second: ModuleDesc,
    first_text: Seq<char>,
    second_text: Seq<char>,
)
    requires
        first@ == matmul_module(),
        second@ == matmul_module(),
        first_text == second_text,
    ensures
        first@ == second@,
        output_lines(first_text) == output_lines(second_text),
{
}

} // verus!
