use vstd::prelude::*;

use crate::ir::ModuleDesc;
use crate::text::{decimal, decimal_text};

verus! {

/// The passes that would lower the matrix multiply to a GPU target, in order.
pub open spec fn gpu_pass_names() -> Seq<Seq<char>> {
    seq![
        "-convert-linalg-to-loops"@,
        "-gpu-map-parallel-loops"@,
        "-convert-parallel-loops-to-gpu"@,
        "-gpu-kernel-outlining"@,
        "-convert-gpu-to-nvvm"@,
    ]
}

pub open spec fn pipeline_note() -> Seq<char> {
    "\nNote: Full GPU lowering pipeline requires additional pass configuration"@
}

pub open spec fn pipeline_intro() -> Seq<char> {
    "The linalg.matmul operation is ready for GPU lowering with passes like:"@
}

/// `  <position>. <pass>`, positions counted from one.
pub open spec fn numbered(position: nat, pass: Seq<char>) -> Seq<char> {
    "  "@ + decimal(position) + ". "@ + pass
}

/// The numbered pass lines, one per pass of `passes`.
pub open spec fn numbered_lines(passes: Seq<Seq<char>>) -> Seq<Seq<char>> {
    Seq::new(passes.len(), |i: int| numbered((i + 1) as nat, passes[i]))
}

/// The lines that document the lowering pipeline: a note, an introduction,
/// then each pass on a numbered line.
pub open spec fn pipeline_lines() -> Seq<Seq<char>> {
    seq![pipeline_note(), pipeline_intro()] + numbered_lines(gpu_pass_names())
}

/// The names of the lowering passes, in pipeline order.
pub fn gpu_passes() -> (r: Vec<String>)
    ensures
        r.deep_view() == gpu_pass_names(),
{
    let r = vec![
        String::from_str("-convert-linalg-to-loops"),
        String::from_str("-gpu-map-parallel-loops"),
        String::from_str("-convert-parallel-loops-to-gpu"),
        String::from_str("-gpu-kernel-outlining"),
        String::from_str("-convert-gpu-to-nvvm"),
    ];
    assert(r.deep_view() =~= gpu_pass_names());
    r
}

/// One numbered line of the pipeline listing.
pub fn numbered_line(position: u64, pass: &str) -> (r: String)
    ensures
        r@ == numbered(position as nat, pass@),
{
    let mut s = String::from_str("  ");
    let d = decimal_text(position);
    s.append(d.as_str());
    s.append(". ");
    s.append(pass);
    s
}

/// Describes the GPU lowering of `module` without running any pass: the
/// module is only borrowed and stays as it was, and the result is the fixed
/// documentation of the pipeline.
pub fn lower_to_gpu(_module: &ModuleDesc) -> (r: Vec<String>)
    ensures
        r.deep_view() == pipeline_lines(),
{
    let passes = gpu_passes();
    let mut lines: Vec<String> = Vec::new();
    lines.push(String::from_str("\nNote: Full GPU lowering pipeline requires additional pass configuration"));
    lines.push(String::from_str("The linalg.matmul operation is ready for GPU lowering with passes like:"));
    let ghost head = seq![pipeline_note(), pipeline_intro()];
    assert(lines.deep_view() =~= head);
    let mut i: usize = 0;
    while i < passes.len()
        invariant
            i <= passes@.len(),
            passes.deep_view() == gpu_pass_names(),
            lines.deep_view() =~= head + numbered_lines(gpu_pass_names().subrange(0, i as int)),
        decreases passes@.len() - i,
    {
        let line = numbered_line((i + 1) as u64, passes[i].as_str());
        let ghost before = lines.deep_view();
        lines.push(line);
        proof {
            assert(lines.deep_view() =~= before.push(line@));
            assert(passes@[i as int]@ == gpu_pass_names()[i as int]);
            assert(numbered_lines(gpu_pass_names().subrange(0, i + 1)) =~= numbered_lines(
                gpu_pass_names().subrange(0, i as int),
            ).push(numbered((i + 1) as nat, gpu_pass_names()[i as int])));
        }
        i += 1;
    }
    assert(gpu_pass_names().subrange(0, i as int) =~= gpu_pass_names());
    lines
}

} // verus!
