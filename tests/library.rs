use matmul_gpu::ir::{ElementType, FuncDesc, MemRefType, ModuleDesc, OpDesc};
use matmul_gpu::matmul::{build_matmul_module, matrix_type, MATRIX_DIM};
use matmul_gpu::pipeline::{gpu_passes, lower_to_gpu, numbered_line};
use matmul_gpu::report::program_output;
use matmul_gpu::text::decimal_text;

const PIPELINE: [&str; 7] = [
    "\nNote: Full GPU lowering pipeline requires additional pass configuration",
    "The linalg.matmul operation is ready for GPU lowering with passes like:",
    "  1. -convert-linalg-to-loops",
    "  2. -gpu-map-parallel-loops",
    "  3. -convert-parallel-loops-to-gpu",
    "  4. -gpu-kernel-outlining",
    "  5. -convert-gpu-to-nvvm",
];

#[test]
fn module_has_one_function_with_three_matrix_parameters() {
    let m = build_matmul_module();
    assert_eq!(m.functions.len(), 1);
    let f = &m.functions[0];
    assert_eq!(f.name, "matmul_1024");
    assert_eq!(f.inputs.len(), 3);
    for t in &f.inputs {
        assert_eq!(t.shape, vec![1024u64, 1024u64]);
        assert_eq!(t.element, ElementType::F32);
        assert_eq!(t.type_text(), "memref<1024x1024xf32>");
    }
    assert!(f.results.is_empty());
}

#[test]
fn body_is_matmul_then_return() {
    let m = build_matmul_module();
    let body = &m.functions[0].body;
    assert_eq!(body.len(), 2);
    assert_eq!(body[0].name, "linalg.matmul");
    assert_eq!(body[0].operands, vec![0usize, 1, 2]);
    assert_eq!(body[1].name, "func.return");
    assert!(body[1].operands.is_empty());
}

#[test]
fn built_module_is_well_formed() {
    assert!(build_matmul_module().is_well_formed());
}

#[test]
fn operand_past_the_arguments_is_rejected() {
    let f = FuncDesc {
        name: "f".to_string(),
        inputs: vec![matrix_type()],
        results: Vec::new(),
        body: vec![OpDesc { name: "linalg.matmul".to_string(), operands: vec![0, 1] }],
    };
    assert!(!f.is_well_formed());
    let m = ModuleDesc { functions: vec![f] };
    assert!(!m.is_well_formed());
    assert!(ModuleDesc { functions: Vec::new() }.is_well_formed());
}

#[test]
fn matrix_type_text() {
    assert_eq!(MATRIX_DIM, 1024);
    assert_eq!(matrix_type().type_text(), "memref<1024x1024xf32>");
    assert_eq!(MemRefType::matrix(2, 3, ElementType::Index).type_text(), "memref<2x3xindex>");
}

#[test]
fn type_text_of_other_ranks() {
    let scalar = MemRefType { shape: Vec::new(), element: ElementType::F32 };
    assert_eq!(scalar.type_text(), "memref<f32>");
    let three = MemRefType { shape: vec![3, 0, 70], element: ElementType::F32 };
    assert_eq!(three.type_text(), "memref<3x0x70xf32>");
}

#[test]
fn decimal_text_values() {
    assert_eq!(decimal_text(0), "0");
    assert_eq!(decimal_text(9), "9");
    assert_eq!(decimal_text(10), "10");
    assert_eq!(decimal_text(1024), "1024");
    assert_eq!(decimal_text(u64::MAX), "18446744073709551615");
}

#[test]
fn passes_in_pipeline_order() {
    assert_eq!(
        gpu_passes(),
        vec![
            "-convert-linalg-to-loops",
            "-gpu-map-parallel-loops",
            "-convert-parallel-loops-to-gpu",
            "-gpu-kernel-outlining",
            "-convert-gpu-to-nvvm",
        ]
    );
}

#[test]
fn numbered_line_format() {
    assert_eq!(numbered_line(1, "-a"), "  1. -a");
    assert_eq!(numbered_line(12, "-pass"), "  12. -pass");
}

#[test]
fn lowering_prints_the_fixed_pipeline() {
    let m = build_matmul_module();
    assert_eq!(lower_to_gpu(&m), PIPELINE.to_vec());
    let empty = ModuleDesc { functions: Vec::new() };
    assert_eq!(lower_to_gpu(&empty), PIPELINE.to_vec());
}

#[test]
fn module_text_identical_before_and_after_lowering() {
    let m = build_matmul_module();
    let text = "module {\n}";
    let out = program_output(&m, text);
    assert_eq!(out.len(), 11);
    assert_eq!(out[0], "=== Generated MLIR (Linalg) ===");
    assert_eq!(out[1], text);
    assert_eq!(out[9], "\n=== After GPU Lowering ===");
    assert_eq!(out[10], text);
    assert_eq!(out[1], out[10]);
}

#[test]
fn pipeline_lines_fixed_whatever_the_module() {
    let m = build_matmul_module();
    let a = program_output(&m, "module {\n}");
    let b = program_output(&m, "");
    assert_eq!(a[2..9].to_vec(), PIPELINE.to_vec());
    assert_eq!(b[2..9].to_vec(), PIPELINE.to_vec());
}

#[test]
fn two_runs_print_the_same() {
    let first = build_matmul_module();
    let second = build_matmul_module();
    let text = "module {\n  func.func @matmul_1024() {\n  }\n}";
    assert_eq!(program_output(&first, text), program_output(&second, text));
    assert_eq!(first.functions[0].name, second.functions[0].name);
    assert_eq!(first.functions[0].body[0].operands, second.functions[0].body[0].operands);
}
