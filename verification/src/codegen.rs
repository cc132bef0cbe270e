use vstd::prelude::*;

use crate::builder::Builder;
use crate::builder::insts_at;
use crate::builder::same_but_insts;
use crate::eval::SVal;
use crate::eval::init_state;
use crate::eval::run_entry;
use crate::eval::run_insts;
use crate::eval::step;
use crate::ir::Inst;
use crate::ir::Module;
use crate::ir::Operand;
use crate::ir::ScalarKind;
use crate::ir::Signature;
use crate::ir::Ty;
use crate::vecsum::MAX_WIDTH;
use crate::vecsum::extract_insts;
use crate::vecsum::insert_insts;
use crate::vecsum::is_vector_sum_function;
use crate::vecsum::lemma_run2;
use crate::vecsum::load_insts;
use crate::vecsum::store_insts;
use crate::vecsum::vector_sum_insts;
use crate::wadd;

verus! {

broadcast use
    crate::vecsum::lemma_load_insts_len,
    crate::vecsum::lemma_insert_insts_len,
    crate::vecsum::lemma_extract_insts_len,
    crate::vecsum::lemma_store_insts_len,
;

/// The body of the plain scalar sum: add the first two parameters, add the
/// third to that, return the result.
pub open spec fn scalar_sum_insts() -> Seq<Inst> {
    seq![
        Inst::Add { lhs: Operand::Param(0), rhs: Operand::Param(1) },
        Inst::Add { lhs: Operand::Inst(0), rhs: Operand::Param(2) },
        Inst::Ret { val: Operand::Inst(1) },
    ]
}

/// A function whose one basic block is exactly the scalar three-way sum.
pub open spec fn is_scalar_sum_function(f: crate::ir::Function) -> bool {
    &&& f.sig.params@.len() == 3
    &&& (forall|i: int| 0 <= i < 3 ==> f.sig.params@[i] == Ty::Scalar(ScalarKind::Int64))
    &&& f.sig.ret == Ty::Scalar(ScalarKind::Int64)
    &&& f.blocks@.len() == 1
    &&& f.blocks@[0].insts@ == scalar_sum_insts()
}

/// Correctness of the scalar sum: on three scalar arguments it returns their
/// wrap-around sum and leaves every buffer untouched.
pub proof fn lemma_scalar_sum_correct(
    f: crate::ir::Function,
    a: i64,
    b: i64,
    c: i64,
    mem: Seq<Seq<i64>>,
)
    requires
        is_scalar_sum_function(f),
    ensures
        ({
            let end = run_entry(f, seq![SVal::Scalar(a), SVal::Scalar(b), SVal::Scalar(c)], mem);
            &&& !end.trap
            &&& end.ret == Some(wadd(wadd(a, b), c))
            &&& end.mem == mem
        }),
{
    let st0 = init_state(seq![SVal::Scalar(a), SVal::Scalar(b), SVal::Scalar(c)], mem);
    let s = scalar_sum_insts();
    assert(s.drop_last() =~= seq![s[0], s[1]]);
    lemma_run2(s[0], s[1], st0);
    let st1 = step(st0, s[0]);
    let st2 = step(st1, s[1]);
    assert(st2.vals[1] == SVal::Scalar(wadd(wadd(a, b), c)));
    assert(run_insts(s, st0) == step(st2, s[2]));
}

/// The code generator: it owns the module being populated and the cursor used
/// to emit into it. Type descriptors are plain values here, so no separate
/// type-interning context is needed.
pub struct CodeGen {
    pub module: Module,
    pub builder: Builder,
}

impl CodeGen {
    /// A code generator over a fresh module of the given name.
    pub fn create(module_name: &str) -> (r: CodeGen)
        ensures
            r.module.name@ == module_name@,
            r.module.functions@ =~= Seq::<crate::ir::Function>::empty(),
            r.builder.pos.is_none(),
    {
        CodeGen { module: Module::create(module_name), builder: Builder::create() }
    }

    /// Declare and emit the plain scalar sum under the name `sum`: three
    /// 64-bit integers in, their sum out. Returns the function's index, or
    /// nothing when the name is already taken.
    pub fn jit_compile_sum(&mut self) -> (r: Option<usize>)
        ensures
            match r {
                Some(i) => {
                    &&& !old(self).module.declares("sum"@)
                    &&& i == old(self).module.functions@.len()
                    &&& final(self).module.functions@.len() == old(self).module.functions@.len()
                        + 1
                    &&& final(self).module.functions@.take(i as int) == old(self).module.functions@
                    &&& is_scalar_sum_function(final(self).module.functions@[i as int])
                    &&& final(self).module.functions@[i as int].name@ == "sum"@
                    &&& final(self).module.name == old(self).module.name
                },
                None => {
                    &&& old(self).module.declares("sum"@)
                    &&& final(self).module == old(self).module
                },
            },
    {
        let i64_type = Ty::Scalar(ScalarKind::Int64);
        let mut params: Vec<Ty> = Vec::new();
        params.push(i64_type);
        params.push(i64_type);
        params.push(i64_type);
        let fn_type = Signature { params, ret: i64_type };
        let function = match self.module.add_function("sum", fn_type) {
            Some(f) => f,
            None => {
                return None;
            },
        };
        let basic_block = self.module.append_basic_block(function);
        self.builder.position_at_end(&self.module, function, basic_block);

        let x = match self.module.functions[function].get_nth_param(0) {
            Some(p) => p,
            None => {
                proof {
                    assert(false);
                }
                return None;
            },
        };
        let y = match self.module.functions[function].get_nth_param(1) {
            Some(p) => p,
            None => {
                proof {
                    assert(false);
                }
                return None;
            },
        };
        let z = match self.module.functions[function].get_nth_param(2) {
            Some(p) => p,
            None => {
                proof {
                    assert(false);
                }
                return None;
            },
        };

        let sum = self.builder.build_add(&mut self.module, x, y);
        let sum = self.builder.build_add(&mut self.module, sum, z);
        self.builder.build_return(&mut self.module, sum);

        proof {
            assert(insts_at(self.module, function as int, basic_block as int)
                =~= scalar_sum_insts());
        }
        Some(function)
    }

    /// Declare and emit the width-`width` vectorized sum under the name
    /// `sum`: load each lane of the two input pointers, pack the lanes into
    /// two vectors, add them in one vector instruction, extract every lane of
    /// the sum, store the lanes through the output pointer, and return the
    /// last lane. Returns the function's index, or nothing when the name is
    /// already taken.
    pub fn emit_vector_sum(&mut self, width: usize) -> (r: Option<usize>)
        requires
            1 <= width <= MAX_WIDTH,
        ensures
            match r {
                Some(i) => {
                    &&& !old(self).module.declares("sum"@)
                    &&& i == old(self).module.functions@.len()
                    &&& final(self).module.functions@.len() == old(self).module.functions@.len()
                        + 1
                    &&& final(self).module.functions@.take(i as int) == old(self).module.functions@
                    &&& is_vector_sum_function(final(self).module.functions@[i as int], width as nat)
                    &&& final(self).module.functions@[i as int].name@ == "sum"@
                    &&& final(self).module.name == old(self).module.name
                },
                None => {
                    &&& old(self).module.declares("sum"@)
                    &&& final(self).module == old(self).module
                },
            },
    {
        let f64_ptr_ty = Ty::Ptr { elem: ScalarKind::Float64 };
        let mut params: Vec<Ty> = Vec::new();
        params.push(f64_ptr_ty);
        params.push(f64_ptr_ty);
        params.push(f64_ptr_ty);
        let fn_type = Signature { params, ret: Ty::Scalar(ScalarKind::Float64) };
        let function = match self.module.add_function("sum", fn_type) {
            Some(f) => f,
            None => {
                return None;
            },
        };
        let basic_block = self.module.append_basic_block(function);
        self.builder.position_at_end(&self.module, function, basic_block);

        let x = match self.module.functions[function].get_nth_param(0) {
            Some(p) => p,
            None => {
                proof {
                    assert(false);
                }
                return None;
            },
        };
        let y = match self.module.functions[function].get_nth_param(1) {
            Some(p) => p,
            None => {
                proof {
                    assert(false);
                }
                return None;
            },
        };
        let z = match self.module.functions[function].get_nth_param(2) {
            Some(p) => p,
            None => {
                proof {
                    assert(false);
                }
                return None;
            },
        };

        let ghost base = self.module;
        let ghost fi = function as int;
        let ghost bi = basic_block as int;
        let w = width;

        // lane loads from both inputs
        let mut x_vals: Vec<Operand> = Vec::new();
        let mut y_vals: Vec<Operand> = Vec::new();
        let mut i: usize = 0;
        while i < w
            invariant
                1 <= w <= MAX_WIDTH,
                i <= w,
                x == Operand::Param(0usize),
                y == Operand::Param(1usize),
                self.builder.pos == Some((function, basic_block)),
                fi == function as int,
                bi == basic_block as int,
                self.builder.pos_valid(self.module),
                same_but_insts(base, self.module, fi, bi),
                insts_at(self.module, fi, bi) == load_insts(i as nat),
                insts_at(base, fi, bi).len() == 0,
                x_vals@.len() == i,
                y_vals@.len() == i,
                forall|k: int| 0 <= k < i ==> x_vals@[k] == Operand::Inst((4 * k + 1) as usize),
                forall|k: int| 0 <= k < i ==> y_vals@[k] == Operand::Inst((4 * k + 3) as usize),
            decreases w - i,
        {
            let idx = Operand::ConstInt(i as i64);
            let x_ptr = self.builder.build_gep(&mut self.module, x, idx);
            let x_val = self.builder.build_load(&mut self.module, x_ptr);
            let y_ptr = self.builder.build_gep(&mut self.module, y, idx);
            let y_val = self.builder.build_load(&mut self.module, y_ptr);
            x_vals.push(x_val);
            y_vals.push(y_val);
            proof {
                assert(insts_at(self.module, fi, bi) =~= load_insts((i + 1) as nat));
            }
            i += 1;
        }

        // pack the first input's lanes into a vector
        let mut z_x = Operand::ZeroVector { elem: ScalarKind::Float64, width: w };
        let mut i: usize = 0;
        while i < w
            invariant
                1 <= w <= MAX_WIDTH,
                i <= w,
                self.builder.pos == Some((function, basic_block)),
                fi == function as int,
                bi == basic_block as int,
                self.builder.pos_valid(self.module),
                same_but_insts(base, self.module, fi, bi),
                insts_at(self.module, fi, bi) == load_insts(w as nat) + insert_insts(
                    w as nat,
                    0,
                    i as nat,
                ),
                insts_at(base, fi, bi).len() == 0,
                x_vals@.len() == w,
                y_vals@.len() == w,
                forall|k: int| 0 <= k < w ==> x_vals@[k] == Operand::Inst((4 * k + 1) as usize),
                forall|k: int| 0 <= k < w ==> y_vals@[k] == Operand::Inst((4 * k + 3) as usize),
                z_x == (if i == 0 {
                    Operand::ZeroVector { elem: ScalarKind::Float64, width: w }
                } else {
                    Operand::Inst((4 * w + i - 1) as usize)
                }),
            decreases w - i,
        {
            let idx = Operand::ConstInt(i as i64);
            z_x = self.builder.build_insert_element(&mut self.module, z_x, x_vals[i], idx);
            proof {
                assert(insts_at(self.module, fi, bi) =~= load_insts(w as nat) + insert_insts(
                    w as nat,
                    0,
                    (i + 1) as nat,
                ));
            }
            i += 1;
        }

        // pack the second input's lanes into a vector
        let mut z_y = Operand::ZeroVector { elem: ScalarKind::Float64, width: w };
        let mut i: usize = 0;
        while i < w
            invariant
                1 <= w <= MAX_WIDTH,
                i <= w,
                self.builder.pos == Some((function, basic_block)),
                fi == function as int,
                bi == basic_block as int,
                self.builder.pos_valid(self.module),
                same_but_insts(base, self.module, fi, bi),
                insts_at(self.module, fi, bi) == load_insts(w as nat) + insert_insts(
                    w as nat,
                    0,
                    w as nat,
                ) + insert_insts(w as nat, 1, i as nat),
                insts_at(base, fi, bi).len() == 0,
                y_vals@.len() == w,
                forall|k: int| 0 <= k < w ==> y_vals@[k] == Operand::Inst((4 * k + 3) as usize),
                z_x == Operand::Inst((5 * w - 1) as usize),
                z_y == (if i == 0 {
                    Operand::ZeroVector { elem: ScalarKind::Float64, width: w }
                } else {
                    Operand::Inst((5 * w + i - 1) as usize)
                }),
            decreases w - i,
        {
            let idx = Operand::ConstInt(i as i64);
            z_y = self.builder.build_insert_element(&mut self.module, z_y, y_vals[i], idx);
            proof {
                assert(insts_at(self.module, fi, bi) =~= load_insts(w as nat) + insert_insts(
                    w as nat,
                    0,
                    w as nat,
                ) + insert_insts(w as nat, 1, (i + 1) as nat));
            }
            i += 1;
        }

        // one vector addition
        let add = self.builder.build_add(&mut self.module, z_x, z_y);
        let ghost through_add = load_insts(w as nat) + insert_insts(w as nat, 0, w as nat)
            + insert_insts(w as nat, 1, w as nat) + seq![
            Inst::Add {
                lhs: Operand::Inst((5 * w as nat - 1) as usize),
                rhs: Operand::Inst((6 * w as nat - 1) as usize),
            },
        ];
        proof {
            assert(insts_at(self.module, fi, bi) =~= through_add);
        }

        // unpack every lane of the sum; the last one becomes the return value
        let mut add_elems: Vec<Operand> = Vec::new();
        let mut a: Option<Operand> = None;
        let mut i: usize = 0;
        while i < w
            invariant
                1 <= w <= MAX_WIDTH,
                i <= w,
                self.builder.pos == Some((function, basic_block)),
                fi == function as int,
                bi == basic_block as int,
                self.builder.pos_valid(self.module),
                same_but_insts(base, self.module, fi, bi),
                insts_at(self.module, fi, bi) == through_add + extract_insts(w as nat, i as nat),
                insts_at(base, fi, bi).len() == 0,
                through_add.len() == 6 * w + 1,
                add == Operand::Inst((6 * w) as usize),
                add_elems@.len() == i,
                forall|k: int| 0 <= k < i ==> add_elems@[k] == Operand::Inst((6 * (w as int) + 1 + k) as usize),
                a == (if i == 0 {
                    None::<Operand>
                } else {
                    Some(Operand::Inst((6 * w + i) as usize))
                }),
            decreases w - i,
        {
            let idx = Operand::ConstInt(i as i64);
            let val = self.builder.build_extract_element(&mut self.module, add, idx);
            a = Some(val);
            add_elems.push(val);
            proof {
                assert(insts_at(self.module, fi, bi) =~= through_add + extract_insts(
                    w as nat,
                    (i + 1) as nat,
                ));
            }
            i += 1;
        }

        // store every lane through the output pointer
        let mut i: usize = 0;
        while i < w
            invariant
                1 <= w <= MAX_WIDTH,
                i <= w,
                z == Operand::Param(2usize),
                self.builder.pos == Some((function, basic_block)),
                fi == function as int,
                bi == basic_block as int,
                self.builder.pos_valid(self.module),
                same_but_insts(base, self.module, fi, bi),
                insts_at(self.module, fi, bi) == through_add + extract_insts(w as nat, w as nat)
                    + store_insts(w as nat, i as nat),
                insts_at(base, fi, bi).len() == 0,
                through_add.len() == 6 * w + 1,
                add_elems@.len() == w,
                forall|k: int| 0 <= k < w ==> add_elems@[k] == Operand::Inst((6 * (w as int) + 1 + k) as usize),
            decreases w - i,
        {
            let idx = Operand::ConstInt(i as i64);
            let ptr = self.builder.build_gep(&mut self.module, z, idx);
            self.builder.build_store(&mut self.module, ptr, add_elems[i]);
            proof {
                assert(insts_at(self.module, fi, bi) =~= through_add + extract_insts(
                    w as nat,
                    w as nat,
                ) + store_insts(w as nat, (i + 1) as nat));
            }
            i += 1;
        }

        let ret_val = match a {
            Some(v) => v,
            None => {
                proof {
                    assert(false);
                }
                return None;
            },
        };
        self.builder.build_return(&mut self.module, ret_val);
        proof {
            assert(insts_at(self.module, fi, bi) =~= vector_sum_insts(w as nat));
        }
        Some(function)
    }

    /// Declare and emit the vectorized sum at the reference width of four
    /// lanes. Returns the function's index, or nothing when the name `sum` is
    /// already taken.
    pub fn sum(&mut self) -> (r: Option<usize>)
        ensures
            match r {
                Some(i) => {
                    &&& !old(self).module.declares("sum"@)
                    &&& i == old(self).module.functions@.len()
                    &&& final(self).module.functions@.len() == old(self).module.functions@.len()
                        + 1
                    &&& final(self).module.functions@.take(i as int) == old(self).module.functions@
                    &&& is_vector_sum_function(final(self).module.functions@[i as int], 4)
                    &&& final(self).module.functions@[i as int].name@ == "sum"@
                    &&& final(self).module.name == old(self).module.name
                },
                None => {
                    &&& old(self).module.declares("sum"@)
                    &&& final(self).module == old(self).module
                },
            },
    {
        let width: usize = 4;
        self.emit_vector_sum(width)
    }
}

} // verus!
