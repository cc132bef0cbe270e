use vstd::prelude::*;

use crate::ir::Function;
use crate::ir::Inst;
use crate::ir::Operand;
use crate::wadd;

verus! {

/// A value of the evaluation model: the unit result of an instruction without
/// a result, a 64-bit scalar word, a vector of scalar words, or a pointer
/// into one of the caller's buffers (buffer number and element offset).
pub ghost enum SVal {
    Unit,
    Scalar(i64),
    Vector(Seq<i64>),
    Ptr { buf: int, off: int },
}

/// The state of one evaluation of a basic block: the values bound to the
/// formal parameters, the result of each instruction executed so far, the
/// caller's buffers, the returned scalar once a `Ret` has executed, and a
/// trap flag that is raised by malformed code and never lowered again.
pub ghost struct EvalState {
    pub args: Seq<SVal>,
    pub vals: Seq<SVal>,
    pub mem: Seq<Seq<i64>>,
    pub ret: Option<i64>,
    pub trap: bool,
}

/// The all-zero vector of width `w`.
pub open spec fn zero_vec(w: nat) -> Seq<i64> {
    Seq::new(w, |i: int| 0i64)
}

/// Lane-wise wrap-around addition of two vectors of equal width.
pub open spec fn vec_add(a: Seq<i64>, b: Seq<i64>) -> Seq<i64> {
    Seq::new(a.len(), |i: int| wadd(a[i], b[i]))
}

/// The value an operand denotes, given the parameter bindings and the results
/// of the instructions already executed; nothing when the operand addresses a
/// parameter or instruction that does not exist.
pub open spec fn eval_operand(args: Seq<SVal>, vals: Seq<SVal>, op: Operand) -> Option<SVal> {
    match op {
        Operand::Param(n) => if n < args.len() {
            Some(args[n as int])
        } else {
            None
        },
        Operand::Inst(k) => if k < vals.len() {
            Some(vals[k as int])
        } else {
            None
        },
        Operand::ConstInt(c) => Some(SVal::Scalar(c)),
        Operand::ZeroVector { elem, width } => Some(SVal::Vector(zero_vec(width as nat))),
    }
}

/// `st` with the trap flag raised; everything else is frozen as it was.
pub open spec fn trapped(st: EvalState) -> EvalState {
    EvalState { trap: true, ..st }
}

/// `st` with one more instruction result recorded.
pub open spec fn push_val(st: EvalState, v: SVal) -> EvalState {
    EvalState { vals: st.vals.push(v), ..st }
}

/// One step of evaluation. Every instruction records exactly one result, so
/// the result of the instruction at position `k` sits at `vals[k]`. A step on
/// ill-typed operands, an out-of-range lane or offset, or after a terminator
/// traps; a trapped state never changes again.
pub open spec fn step(st: EvalState, inst: Inst) -> EvalState {
    if st.trap || st.ret.is_some() {
        trapped(st)
    } else {
        match inst {
            Inst::Gep { base, index } => match (
                eval_operand(st.args, st.vals, base),
                eval_operand(st.args, st.vals, index),
            ) {
                (Some(SVal::Ptr { buf, off }), Some(SVal::Scalar(i))) => if 0 <= off + i
                    <= usize::MAX {
                    push_val(st, SVal::Ptr { buf, off: off + i })
                } else {
                    trapped(st)
                },
                _ => trapped(st),
            },
            Inst::Load { ptr } => match eval_operand(st.args, st.vals, ptr) {
                Some(SVal::Ptr { buf, off }) => if 0 <= buf < st.mem.len() && 0 <= off
                    < st.mem[buf].len() {
                    push_val(st, SVal::Scalar(st.mem[buf][off]))
                } else {
                    trapped(st)
                },
                _ => trapped(st),
            },
            Inst::InsertElement { vec, val, lane } => match (
                eval_operand(st.args, st.vals, vec),
                eval_operand(st.args, st.vals, val),
                eval_operand(st.args, st.vals, lane),
            ) {
                (Some(SVal::Vector(v)), Some(SVal::Scalar(x)), Some(SVal::Scalar(i))) => if 0 <= i
                    < v.len() {
                    push_val(st, SVal::Vector(v.update(i as int, x)))
                } else {
                    trapped(st)
                },
                _ => trapped(st),
            },
            Inst::ExtractElement { vec, lane } => match (
                eval_operand(st.args, st.vals, vec),
                eval_operand(st.args, st.vals, lane),
            ) {
                (Some(SVal::Vector(v)), Some(SVal::Scalar(i))) => if 0 <= i < v.len() {
                    push_val(st, SVal::Scalar(v[i as int]))
                } else {
                    trapped(st)
                },
                _ => trapped(st),
            },
            Inst::Add { lhs, rhs } => match (
                eval_operand(st.args, st.vals, lhs),
                eval_operand(st.args, st.vals, rhs),
            ) {
                (Some(SVal::Scalar(a)), Some(SVal::Scalar(b))) => push_val(
                    st,
                    SVal::Scalar(wadd(a, b)),
                ),
                (Some(SVal::Vector(a)), Some(SVal::Vector(b))) => if a.len() == b.len() {
                    push_val(st, SVal::Vector(vec_add(a, b)))
                } else {
                    trapped(st)
                },
                _ => trapped(st),
            },
            Inst::Store { ptr, val } => match (
                eval_operand(st.args, st.vals, ptr),
                eval_operand(st.args, st.vals, val),
            ) {
                (Some(SVal::Ptr { buf, off }), Some(SVal::Scalar(x))) => if 0 <= buf < st.mem.len()
                    && 0 <= off < st.mem[buf].len() {
                    EvalState {
                        vals: st.vals.push(SVal::Unit),
                        mem: st.mem.update(buf, st.mem[buf].update(off, x)),
                        ..st
                    }
                } else {
                    trapped(st)
                },
                _ => trapped(st),
            },
            Inst::Ret { val } => match eval_operand(st.args, st.vals, val) {
                Some(SVal::Scalar(x)) => EvalState {
                    vals: st.vals.push(SVal::Unit),
                    ret: Some(x),
                    ..st
                },
                _ => trapped(st),
            },
        }
    }
}

/// Evaluation of a whole instruction sequence, one `step` per instruction.
pub open spec fn run_insts(insts: Seq<Inst>, st: EvalState) -> EvalState
    decreases insts.len(),
{
    if insts.len() == 0 {
        st
    } else {
        step(run_insts(insts.drop_last(), st), insts.last())
    }
}

/// The state in which evaluation of a function begins.
pub open spec fn init_state(args: Seq<SVal>, mem: Seq<Seq<i64>>) -> EvalState {
    EvalState { args, vals: Seq::empty(), mem, ret: None, trap: false }
}

/// Evaluation of a function: its entry block is run from the initial state;
/// a function that has no block at all traps at once.
pub open spec fn run_entry(f: Function, args: Seq<SVal>, mem: Seq<Seq<i64>>) -> EvalState {
    if f.blocks@.len() == 0 {
        trapped(init_state(args, mem))
    } else {
        run_insts(f.blocks@[0].insts@, init_state(args, mem))
    }
}

/// A trapped state is final: no instruction changes it.
pub proof fn lemma_run_insts_trapped(insts: Seq<Inst>, st: EvalState)
    requires
        st.trap,
    ensures
        run_insts(insts, st) == st,
    decreases insts.len(),
{
    if insts.len() > 0 {
        lemma_run_insts_trapped(insts.drop_last(), st);
        assert(trapped(st) == st);
    }
}

/// Instructions standing after a terminator only trap: the memory and the
/// returned value stay what they were when the `Ret` executed.
pub proof fn lemma_run_insts_after_ret(insts: Seq<Inst>, st: EvalState)
    requires
        !st.trap,
        st.ret.is_some(),
        insts.len() > 0,
    ensures
        run_insts(insts, st) == trapped(st),
    decreases insts.len(),
{
    if insts.len() == 1 {
        assert(run_insts(insts.drop_last(), st) == st);
    } else {
        lemma_run_insts_after_ret(insts.drop_last(), st);
        assert(trapped(trapped(st)) == trapped(st));
    }
}

/// Running a concatenation is running the first part, then the second.
pub proof fn lemma_run_insts_concat(a: Seq<Inst>, b: Seq<Inst>, st: EvalState)
    ensures
        run_insts(a + b, st) == run_insts(b, run_insts(a, st)),
    decreases b.len(),
{
    if b.len() == 0 {
        assert(a + b =~= a);
    } else {
        lemma_run_insts_concat(a, b.drop_last(), st);
        assert((a + b).drop_last() =~= a + b.drop_last());
        assert((a + b).last() == b.last());
    }
}

/// A run-time value of the executable interpreter, mirroring `SVal`.
pub enum RtVal {
    Unit,
    Scalar(i64),
    Vector(Vec<i64>),
    Ptr { buf: usize, off: usize },
}

/// The model value that a run-time value stands for.
pub open spec fn rt_view(v: RtVal) -> SVal {
    match v {
        RtVal::Unit => SVal::Unit,
        RtVal::Scalar(x) => SVal::Scalar(x),
        RtVal::Vector(l) => SVal::Vector(l@),
        RtVal::Ptr { buf, off } => SVal::Ptr { buf: buf as int, off: off as int },
    }
}

/// The model values of a sequence of run-time values.
pub open spec fn vals_view(s: Seq<RtVal>) -> Seq<SVal> {
    s.map_values(|v: RtVal| rt_view(v))
}

/// The contents of a list of buffers.
pub open spec fn mem_view(m: Seq<Vec<i64>>) -> Seq<Seq<i64>> {
    m.map_values(|b: Vec<i64>| b@)
}

/// The model value of an optional run-time value.
pub open spec fn rt_opt_view(r: Option<RtVal>) -> Option<SVal> {
    match r {
        Some(v) => Some(rt_view(v)),
        None => None,
    }
}

/// An element-for-element copy of a buffer.
pub(crate) fn copy_lanes(v: &Vec<i64>) -> (r: Vec<i64>)
    ensures
        r@ == v@,
{
    let n: usize = v.len();
    let mut r: Vec<i64> = Vec::new();
    let mut i: usize = 0;
    while i < n
        invariant
            n == v@.len(),
            i <= n,
            r@ =~= v@.take(i as int),
        decreases n - i,
    {
        r.push(v[i]);
        i += 1;
    }
    proof {
        assert(v@.take(n as int) =~= v@);
    }
    r
}

/// The all-zero buffer of width `w`.
fn make_zero_vec(w: usize) -> (r: Vec<i64>)
    ensures
        r@ == zero_vec(w as nat),
{
    let mut r: Vec<i64> = Vec::new();
    let mut i: usize = 0;
    while i < w
        invariant
            i <= w,
            r@ =~= zero_vec(i as nat),
        decreases w - i,
    {
        r.push(0i64);
        i += 1;
    }
    r
}

impl RtVal {
    /// A copy of this value that stands for the same model value.
    pub fn duplicate(&self) -> (r: RtVal)
        ensures
            rt_view(r) == rt_view(*self),
    {
        match self {
            RtVal::Unit => RtVal::Unit,
            RtVal::Scalar(x) => RtVal::Scalar(*x),
            RtVal::Vector(l) => RtVal::Vector(copy_lanes(l)),
            RtVal::Ptr { buf, off } => RtVal::Ptr { buf: *buf, off: *off },
        }
    }
}

/// The value an operand denotes at run time, exactly as `eval_operand` says.
fn eval_op(args: &Vec<RtVal>, vals: &Vec<RtVal>, op: &Operand) -> (r: Option<RtVal>)
    ensures
        rt_opt_view(r) == eval_operand(vals_view(args@), vals_view(vals@), *op),
{
    match op {
        Operand::Param(n) => {
            if *n < args.len() {
                Some(args[*n].duplicate())
            } else {
                None
            }
        },
        Operand::Inst(k) => {
            if *k < vals.len() {
                Some(vals[*k].duplicate())
            } else {
                None
            }
        },
        Operand::ConstInt(c) => Some(RtVal::Scalar(*c)),
        Operand::ZeroVector { elem: _, width } => Some(RtVal::Vector(make_zero_vec(*width))),
    }
}

/// When the state one step past position `i` is trapped, the whole block's
/// evaluation is trapped and its memory is frozen at that point.
proof fn lemma_trap_at(insts: Seq<Inst>, st0: EvalState, i: int)
    requires
        0 <= i < insts.len(),
        run_insts(insts.take(i + 1), st0).trap,
    ensures
        run_insts(insts, st0).trap,
        run_insts(insts, st0).mem == run_insts(insts.take(i + 1), st0).mem,
{
    let t = run_insts(insts.take(i + 1), st0);
    assert(insts =~= insts.take(i + 1) + insts.skip(i + 1));
    lemma_run_insts_concat(insts.take(i + 1), insts.skip(i + 1), st0);
    lemma_run_insts_trapped(insts.skip(i + 1), t);
}

/// When a `Ret` executes at position `i` with instructions still following,
/// the whole block's evaluation is trapped with the memory frozen there.
proof fn lemma_ret_at(insts: Seq<Inst>, st0: EvalState, i: int)
    requires
        0 <= i < insts.len() - 1,
        !run_insts(insts.take(i + 1), st0).trap,
        run_insts(insts.take(i + 1), st0).ret.is_some(),
    ensures
        run_insts(insts, st0).trap,
        run_insts(insts, st0).mem == run_insts(insts.take(i + 1), st0).mem,
{
    let t = run_insts(insts.take(i + 1), st0);
    assert(insts =~= insts.take(i + 1) + insts.skip(i + 1));
    lemma_run_insts_concat(insts.take(i + 1), insts.skip(i + 1), st0);
    lemma_run_insts_after_ret(insts.skip(i + 1), t);
}

/// Run a function on the given arguments against the given buffers, exactly
/// as the `run_entry` semantics says: the buffers end as the model's memory
/// ends, and the result is the returned scalar, or nothing when the function
/// is malformed (it traps) or never executes a `Ret`.
pub fn run_function(f: &Function, args: &Vec<RtVal>, mem: &mut Vec<Vec<i64>>) -> (r: Option<i64>)
    ensures
        ({
            let end = run_entry(*f, vals_view(args@), mem_view(old(mem)@));
            &&& mem_view(final(mem)@) == end.mem
            &&& r == (if end.trap {
                None::<i64>
            } else {
                end.ret
            })
        }),
{
    let ghost st0 = init_state(vals_view(args@), mem_view(mem@));
    if f.blocks.len() == 0 {
        return None;
    }
    let insts: &Vec<Inst> = &f.blocks[0].insts;
    let n: usize = insts.len();
    let mut vals: Vec<RtVal> = Vec::new();
    let mut i: usize = 0;
    while i < n
        invariant
            n == insts@.len(),
            i <= n,
            f.blocks@.len() > 0,
            insts@ == f.blocks@[0].insts@,
            st0 == init_state(vals_view(args@), mem_view(old(mem)@)),
            ({
                let mid = run_insts(insts@.take(i as int), st0);
                &&& !mid.trap
                &&& mid.ret.is_none()
                &&& mid.args == vals_view(args@)
                &&& mid.vals == vals_view(vals@)
                &&& mid.mem == mem_view(mem@)
            }),
        decreases n - i,
    {
        let ghost mid = run_insts(insts@.take(i as int), st0);
        let inst = insts[i];
        proof {
            assert(insts@.take(i as int + 1).drop_last() =~= insts@.take(i as int));
            assert(insts@.take(i as int + 1).last() == insts@[i as int]);
            assert(run_insts(insts@.take(i as int + 1), st0) == step(mid, inst));
        }
        match inst {
            Inst::Gep { base, index } => {
                let b = eval_op(args, &vals, &base);
                let x = eval_op(args, &vals, &index);
                match (b, x) {
                    (Some(RtVal::Ptr { buf, off }), Some(RtVal::Scalar(iv))) => {
                        let noff: i128 = off as i128 + iv as i128;
                        if 0 <= noff && noff <= usize::MAX as i128 {
                            vals.push(RtVal::Ptr { buf, off: noff as usize });
                            proof {
                                assert(vals_view(vals@) =~= step(mid, inst).vals);
                            }
                        } else {
                            proof {
                                lemma_trap_at(insts@, st0, i as int);
                            }
                            return None;
                        }
                    },
                    _ => {
                        proof {
                            lemma_trap_at(insts@, st0, i as int);
                        }
                        return None;
                    },
                }
            },
            Inst::Load { ptr } => {
                let p = eval_op(args, &vals, &ptr);
                match p {
                    Some(RtVal::Ptr { buf, off }) => {
                        if buf < mem.len() && off < mem[buf].len() {
                            let x: i64 = mem[buf][off];
                            vals.push(RtVal::Scalar(x));
                            proof {
                                assert(vals_view(vals@) =~= step(mid, inst).vals);
                            }
                        } else {
                            proof {
                                lemma_trap_at(insts@, st0, i as int);
                            }
                            return None;
                        }
                    },
                    _ => {
                        proof {
                            lemma_trap_at(insts@, st0, i as int);
                        }
                        return None;
                    },
                }
            },
            Inst::InsertElement { vec, val, lane } => {
                let v = eval_op(args, &vals, &vec);
                let x = eval_op(args, &vals, &val);
                let l = eval_op(args, &vals, &lane);
                match (v, x, l) {
                    (
                        Some(RtVal::Vector(mut lv)),
                        Some(RtVal::Scalar(xv)),
                        Some(RtVal::Scalar(iv)),
                    ) => {
                        if 0 <= iv && (iv as u64) < (lv.len() as u64) {
                            let slot = &mut lv[iv as usize];
                            *slot = xv;
                            vals.push(RtVal::Vector(lv));
                            proof {
                                assert(vals_view(vals@) =~= step(mid, inst).vals);
                            }
                        } else {
                            proof {
                                lemma_trap_at(insts@, st0, i as int);
                            }
                            return None;
                        }
                    },
                    _ => {
                        proof {
                            lemma_trap_at(insts@, st0, i as int);
                        }
                        return None;
                    },
                }
            },
            Inst::ExtractElement { vec, lane } => {
                let v = eval_op(args, &vals, &vec);
                let l = eval_op(args, &vals, &lane);
                match (v, l) {
                    (Some(RtVal::Vector(lv)), Some(RtVal::Scalar(iv))) => {
                        if 0 <= iv && (iv as u64) < (lv.len() as u64) {
                            let x: i64 = lv[iv as usize];
                            vals.push(RtVal::Scalar(x));
                            proof {
                                assert(vals_view(vals@) =~= step(mid, inst).vals);
                            }
                        } else {
                            proof {
                                lemma_trap_at(insts@, st0, i as int);
                            }
                            return None;
                        }
                    },
                    _ => {
                        proof {
                            lemma_trap_at(insts@, st0, i as int);
                        }
                        return None;
                    },
                }
            },
            Inst::Add { lhs, rhs } => {
                let a = eval_op(args, &vals, &lhs);
                let b = eval_op(args, &vals, &rhs);
                match (a, b) {
                    (Some(RtVal::Scalar(av)), Some(RtVal::Scalar(bv))) => {
                        vals.push(RtVal::Scalar(av.wrapping_add(bv)));
                        proof {
                            assert(vals_view(vals@) =~= step(mid, inst).vals);
                        }
                    },
                    (Some(RtVal::Vector(av)), Some(RtVal::Vector(bv))) => {
                        if av.len() == bv.len() {
                            let m: usize = av.len();
                            let mut sums: Vec<i64> = Vec::new();
                            let mut j: usize = 0;
                            while j < m
                                invariant
                                    m == av@.len(),
                                    m == bv@.len(),
                                    j <= m,
                                    sums@ =~= vec_add(av@, bv@).take(j as int),
                                decreases m - j,
                            {
                                sums.push(av[j].wrapping_add(bv[j]));
                                j += 1;
                            }
                            proof {
                                assert(vec_add(av@, bv@).take(m as int) =~= vec_add(av@, bv@));
                            }
                            vals.push(RtVal::Vector(sums));
                            proof {
                                assert(vals_view(vals@) =~= step(mid, inst).vals);
                            }
                        } else {
                            proof {
                                lemma_trap_at(insts@, st0, i as int);
                            }
                            return None;
                        }
                    },
                    _ => {
                        proof {
                            lemma_trap_at(insts@, st0, i as int);
                        }
                        return None;
                    },
                }
            },
            Inst::Store { ptr, val } => {
                let p = eval_op(args, &vals, &ptr);
                let x = eval_op(args, &vals, &val);
                match (p, x) {
                    (Some(RtVal::Ptr { buf, off }), Some(RtVal::Scalar(xv))) => {
                        if buf < mem.len() && off < mem[buf].len() {
                            let row = &mut mem[buf];
                            let slot = &mut row[off];
                            *slot = xv;
                            vals.push(RtVal::Unit);
                            proof {
                                assert(vals_view(vals@) =~= step(mid, inst).vals);
                                assert(mem_view(mem@) =~= step(mid, inst).mem);
                            }
                        } else {
                            proof {
                                lemma_trap_at(insts@, st0, i as int);
                            }
                            return None;
                        }
                    },
                    _ => {
                        proof {
                            lemma_trap_at(insts@, st0, i as int);
                        }
                        return None;
                    },
                }
            },
            Inst::Ret { val } => {
                let x = eval_op(args, &vals, &val);
                match x {
                    Some(RtVal::Scalar(xv)) => {
                        if i + 1 == n {
                            proof {
                                assert(insts@.take(i as int + 1) =~= insts@);
                            }
                            return Some(xv);
                        } else {
                            proof {
                                lemma_ret_at(insts@, st0, i as int);
                            }
                            return None;
                        }
                    },
                    _ => {
                        proof {
                            lemma_trap_at(insts@, st0, i as int);
                        }
                        return None;
                    },
                }
            },
        }
        i += 1;
    }
    proof {
        assert(insts@.take(n as int) =~= insts@);
    }
    None
}

} // verus!
