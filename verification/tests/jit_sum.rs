use jitsum::builder::Builder;
use jitsum::codegen::CodeGen;
use jitsum::engine::build_scalar_sum;
use jitsum::engine::build_vector_sum;
use jitsum::engine::ExecutionEngine;
use jitsum::eval::run_function;
use jitsum::eval::RtVal;
use jitsum::ir::Module;
use jitsum::ir::Operand;
use jitsum::ir::ScalarKind;
use jitsum::ir::Signature;
use jitsum::ir::Ty;
use jitsum::lane_add;

#[test]
fn sum_four_lanes() {
    let c = build_vector_sum(4).expect("width four compiles");
    let x: Vec<i64> = vec![1, 2, 3, 4];
    let y: Vec<i64> = vec![1, 2, 3, 4];
    let mut out: Vec<i64> = vec![0, 0, 0, 0];
    let r = c.call(&x, &y, &mut out);
    assert_eq!(out, vec![2, 4, 6, 8]);
    assert_eq!(r, 8);
}

#[test]
fn sum_mixed_signs() {
    let c = build_vector_sum(4).expect("width four compiles");
    let x: Vec<i64> = vec![0, 0, 0, 0];
    let y: Vec<i64> = vec![5, -5, 5, -5];
    let mut out: Vec<i64> = vec![0, 0, 0, 0];
    let r = c.call(&x, &y, &mut out);
    assert_eq!(out, vec![5, -5, 5, -5]);
    assert_eq!(r, -5);
}

#[test]
fn width_one_matches_scalar_add() {
    let c = build_vector_sum(1).expect("width one compiles");
    let x: Vec<i64> = vec![7];
    let y: Vec<i64> = vec![35];
    let mut out: Vec<i64> = vec![0];
    let r = c.call(&x, &y, &mut out);
    assert_eq!(out, vec![7 + 35]);
    assert_eq!(r, 7 + 35);
    assert_eq!(r, lane_add(7, 35));
}

#[test]
fn repeated_calls_identical() {
    let c = build_vector_sum(4).expect("width four compiles");
    let x: Vec<i64> = vec![10, 20, 30, 40];
    let y: Vec<i64> = vec![-1, -2, -3, -4];
    let mut out_a: Vec<i64> = vec![0, 0, 0, 0];
    let mut out_b: Vec<i64> = vec![0, 0, 0, 0];
    let ra = c.call(&x, &y, &mut out_a);
    let rb = c.call(&x, &y, &mut out_b);
    assert_eq!(out_a, out_b);
    assert_eq!(ra, rb);
    assert_eq!(out_a, vec![9, 18, 27, 36]);
}

#[test]
fn out_buffer_tail_untouched() {
    let c = build_vector_sum(2).expect("width two compiles");
    let x: Vec<i64> = vec![1, 2];
    let y: Vec<i64> = vec![10, 20];
    let mut out: Vec<i64> = vec![7, 7, 7, 7];
    let r = c.call(&x, &y, &mut out);
    assert_eq!(out, vec![11, 22, 7, 7]);
    assert_eq!(r, 22);
}

#[test]
fn resolve_unknown_symbol_returns_none() {
    let module = Module::create("empty");
    let engine = ExecutionEngine::create_jit(module);
    assert!(engine.get_function("sum").is_none());

    let mut codegen = CodeGen::create("sum");
    codegen.sum().expect("fresh module accepts the declaration");
    let engine = ExecutionEngine::create_jit(codegen.module);
    assert!(engine.get_function("sum").is_some());
    assert!(engine.get_function("product").is_none());
}

#[test]
fn duplicate_declaration_refused() {
    let mut codegen = CodeGen::create("sum");
    assert!(codegen.sum().is_some());
    assert!(codegen.sum().is_none());
    assert!(codegen.jit_compile_sum().is_none());
}

#[test]
fn nth_param_out_of_range_is_none() {
    let mut codegen = CodeGen::create("sum");
    let func = codegen.sum().expect("fresh module accepts the declaration");
    let f = &codegen.module.functions[func];
    assert!(f.get_nth_param(0).is_some());
    assert!(f.get_nth_param(2).is_some());
    assert!(f.get_nth_param(3).is_none());
}

#[test]
fn scalar_sum_of_three() {
    let c = build_scalar_sum().expect("fresh module accepts the declaration");
    assert_eq!(c.call(1, 2, 3), 6);
    assert_eq!(c.call(-10, 4, 6), 0);
}

#[test]
fn lane_add_wraps_around() {
    assert_eq!(lane_add(i64::MAX, 1), i64::MIN);
    assert_eq!(lane_add(i64::MIN, -1), i64::MAX);
    let c = build_scalar_sum().expect("fresh module accepts the declaration");
    assert_eq!(c.call(i64::MAX, 1, 0), i64::MIN);
}

#[test]
fn missing_terminator_is_rejected() {
    let mut module = Module::create("sum");
    let params = vec![Ty::Scalar(ScalarKind::Int64), Ty::Scalar(ScalarKind::Int64)];
    let sig = Signature { params, ret: Ty::Scalar(ScalarKind::Int64) };
    let func = module.add_function("sum", sig).expect("fresh name");
    let block = module.append_basic_block(func);
    let mut builder = Builder::create();
    builder.position_at_end(&module, func, block);
    // an addition is emitted but the block is never terminated
    let _ = builder.build_add(&mut module, Operand::Param(0), Operand::Param(1));
    let args = vec![RtVal::Scalar(3), RtVal::Scalar(4)];
    let mut mem: Vec<Vec<i64>> = Vec::new();
    assert!(run_function(&module.functions[func], &args, &mut mem).is_none());
}

#[test]
fn ill_typed_body_is_rejected() {
    let mut module = Module::create("sum");
    let params = vec![Ty::Ptr { elem: ScalarKind::Float64 }];
    let sig = Signature { params, ret: Ty::Scalar(ScalarKind::Float64) };
    let func = module.add_function("sum", sig).expect("fresh name");
    let block = module.append_basic_block(func);
    let mut builder = Builder::create();
    builder.position_at_end(&module, func, block);
    // adding two pointers is malformed, so evaluation must trap
    let bad = builder.build_add(&mut module, Operand::Param(0), Operand::Param(0));
    builder.build_return(&mut module, bad);
    let args = vec![RtVal::Ptr { buf: 0, off: 0 }];
    let mut mem: Vec<Vec<i64>> = vec![vec![1, 2]];
    assert!(run_function(&module.functions[func], &args, &mut mem).is_none());
    // the buffer is frozen at the point of the trap
    assert_eq!(mem, vec![vec![1, 2]]);
}

#[test]
fn lane_index_out_of_range_is_rejected() {
    let mut module = Module::create("sum");
    let params = vec![Ty::Scalar(ScalarKind::Float64)];
    let sig = Signature { params, ret: Ty::Scalar(ScalarKind::Float64) };
    let func = module.add_function("sum", sig).expect("fresh name");
    let block = module.append_basic_block(func);
    let mut builder = Builder::create();
    builder.position_at_end(&module, func, block);
    let zero = Operand::ZeroVector { elem: ScalarKind::Float64, width: 2 };
    // lane 2 of a width-two vector does not exist
    let bad = builder.build_insert_element(
        &mut module,
        zero,
        Operand::Param(0),
        Operand::ConstInt(2),
    );
    let out = builder.build_extract_element(&mut module, bad, Operand::ConstInt(0));
    builder.build_return(&mut module, out);
    let args = vec![RtVal::Scalar(9)];
    let mut mem: Vec<Vec<i64>> = Vec::new();
    assert!(run_function(&module.functions[func], &args, &mut mem).is_none());
}

/// Builds a width-four sum by hand whose lane insertions, extractions and
/// stores all happen in scrambled orders, with the lane indices kept correct.
#[test]
fn scrambled_lane_order_same_result() {
    let width: usize = 4;
    let mut module = Module::create("sum");
    let ptr = Ty::Ptr { elem: ScalarKind::Float64 };
    let sig = Signature { params: vec![ptr, ptr, ptr], ret: Ty::Scalar(ScalarKind::Float64) };
    let func = module.add_function("sum", sig).expect("fresh name");
    let block = module.append_basic_block(func);
    let mut builder = Builder::create();
    builder.position_at_end(&module, func, block);

    let mut x_vals: Vec<Operand> = Vec::new();
    let mut y_vals: Vec<Operand> = Vec::new();
    for i in 0..width {
        let idx = Operand::ConstInt(i as i64);
        let x_ptr = builder.build_gep(&mut module, Operand::Param(0), idx);
        x_vals.push(builder.build_load(&mut module, x_ptr));
        let y_ptr = builder.build_gep(&mut module, Operand::Param(1), idx);
        y_vals.push(builder.build_load(&mut module, y_ptr));
    }

    let insert_order_x = [2usize, 0, 3, 1];
    let insert_order_y = [1usize, 3, 0, 2];
    let mut z_x = Operand::ZeroVector { elem: ScalarKind::Float64, width };
    for &lane in insert_order_x.iter() {
        z_x = builder.build_insert_element(
            &mut module,
            z_x,
            x_vals[lane],
            Operand::ConstInt(lane as i64),
        );
    }
    let mut z_y = Operand::ZeroVector { elem: ScalarKind::Float64, width };
    for &lane in insert_order_y.iter() {
        z_y = builder.build_insert_element(&mut module, z_y, y_vals[lane], Operand::ConstInt(
            lane as i64,
        ));
    }

    let add = builder.build_add(&mut module, z_x, z_y);

    let extract_order = [3usize, 1, 2, 0];
    for &lane in extract_order.iter() {
        let val = builder.build_extract_element(&mut module, add, Operand::ConstInt(lane as i64));
        let ptr = builder.build_gep(&mut module, Operand::Param(2), Operand::ConstInt(lane as i64));
        builder.build_store(&mut module, ptr, val);
    }
    let last = builder.build_extract_element(&mut module, add, Operand::ConstInt(3));
    builder.build_return(&mut module, last);

    let args = vec![
        RtVal::Ptr { buf: 0, off: 0 },
        RtVal::Ptr { buf: 1, off: 0 },
        RtVal::Ptr { buf: 2, off: 0 },
    ];
    let mut mem: Vec<Vec<i64>> = vec![vec![1, 2, 3, 4], vec![1, 2, 3, 4], vec![0, 0, 0, 0]];
    let r = run_function(&module.functions[func], &args, &mut mem).expect("well-formed body");
    assert_eq!(mem[2], vec![2, 4, 6, 8]);
    assert_eq!(r, 8);

    // the canonical emission order gives the very same output
    let c = build_vector_sum(4).expect("width four compiles");
    let mut out: Vec<i64> = vec![0, 0, 0, 0];
    let rc = c.call(&vec![1, 2, 3, 4], &vec![1, 2, 3, 4], &mut out);
    assert_eq!(out, mem[2]);
    assert_eq!(rc, r);
}

#[test]
fn module_keeps_its_name() {
    let codegen = CodeGen::create("sum");
    assert_eq!(codegen.module.name, "sum");
    assert!(codegen.module.functions.is_empty());
}
