use vstd::prelude::*;

use crate::eval::run_insts;
use crate::eval::run_entry;
use crate::eval::init_state;
use crate::eval::step;
use crate::eval::push_val;
use crate::eval::EvalState;
use crate::eval::SVal;
use crate::eval::zero_vec;
use crate::eval::vec_add;
use crate::eval::lemma_run_insts_concat;
use crate::ir::Function;
use crate::ir::Inst;
use crate::ir::Operand;
use crate::ir::ScalarKind;
use crate::ir::Ty;
use crate::wadd;

verus! {

/// The largest vector width the code generator accepts; it keeps every
/// instruction position and lane constant comfortably inside the machine
/// integer types.
pub const MAX_WIDTH: usize = 0x1000_0000;

/// The signature of the vectorized sum: three pointers to 64-bit scalars in,
/// one 64-bit scalar out.
pub open spec fn is_vector_sum_sig(sig: crate::ir::Signature) -> bool {
    &&& sig.params@.len() == 3
    &&& forall|i: int|
        0 <= i < 3 ==> sig.params@[i] == (Ty::Ptr { elem: ScalarKind::Float64 })
    &&& sig.ret == Ty::Scalar(ScalarKind::Float64)
}

/// The lane-load phase: for each lane `i` below `j`, offset the first input
/// pointer by `i` and load, then the same for the second input pointer. The
/// instruction at position `4i+1` yields the first array's lane `i`, the one
/// at `4i+3` the second's.
pub open spec fn load_insts(j: nat) -> Seq<Inst>
    decreases j,
{
    if j == 0 {
        Seq::empty()
    } else {
        let i = (j - 1) as nat;
        load_insts(i) + seq![
            Inst::Gep { base: Operand::Param(0), index: Operand::ConstInt(i as i64) },
            Inst::Load { ptr: Operand::Inst((4 * i) as usize) },
            Inst::Gep { base: Operand::Param(1), index: Operand::ConstInt(i as i64) },
            Inst::Load { ptr: Operand::Inst((4 * i + 2) as usize) },
        ]
    }
}

/// The vector-build phase for input array `a` (0 or 1): lane `i`'s loaded
/// scalar is inserted at lane `i`, starting from the all-zero vector. The
/// instructions sit at positions `4w + a*w` onward, so the finished vector of
/// array `a` is the value of position `4w + a*w + w - 1`.
pub open spec fn insert_insts(w: nat, a: nat, j: nat) -> Seq<Inst>
    decreases j,
{
    if j == 0 {
        Seq::empty()
    } else {
        let i = (j - 1) as nat;
        insert_insts(w, a, i).push(
            Inst::InsertElement {
                vec: if i == 0 {
                    Operand::ZeroVector { elem: ScalarKind::Float64, width: w as usize }
                } else {
                    Operand::Inst((4 * w + a * w + i - 1) as usize)
                },
                val: Operand::Inst((4 * i + 1 + 2 * a) as usize),
                lane: Operand::ConstInt(i as i64),
            },
        )
    }
}

/// The unpack phase: each lane of the vector sum (the value of position `6w`)
/// is extracted back to a scalar; lane `i`'s scalar is the value of position
/// `6w + 1 + i`.
pub open spec fn extract_insts(w: nat, j: nat) -> Seq<Inst>
    decreases j,
{
    if j == 0 {
        Seq::empty()
    } else {
        let i = (j - 1) as nat;
        extract_insts(w, i).push(
            Inst::ExtractElement {
                vec: Operand::Inst((6 * w) as usize),
                lane: Operand::ConstInt(i as i64),
            },
        )
    }
}

/// The store phase: for each lane `i`, offset the output pointer by `i` and
/// store lane `i`'s extracted scalar there.
pub open spec fn store_insts(w: nat, j: nat) -> Seq<Inst>
    decreases j,
{
    if j == 0 {
        Seq::empty()
    } else {
        let i = (j - 1) as nat;
        store_insts(w, i) + seq![
            Inst::Gep { base: Operand::Param(2), index: Operand::ConstInt(i as i64) },
            Inst::Store {
                ptr: Operand::Inst((7 * w + 1 + 2 * i) as usize),
                val: Operand::Inst((6 * w + 1 + i) as usize),
            },
        ]
    }
}

/// The full body of the width-`w` vectorized sum: load both input arrays lane
/// by lane, pack each into a vector, add the two vectors in one instruction,
/// extract every lane of the sum, store the lanes to the output pointer, and
/// return the last lane's scalar (the value of position `7w`).
pub open spec fn vector_sum_insts(w: nat) -> Seq<Inst> {
    load_insts(w) + insert_insts(w, 0, w) + insert_insts(w, 1, w) + seq![
        Inst::Add {
            lhs: Operand::Inst((5 * w - 1) as usize),
            rhs: Operand::Inst((6 * w - 1) as usize),
        },
    ] + extract_insts(w, w) + store_insts(w, w) + seq![
        Inst::Ret { val: Operand::Inst((7 * w) as usize) },
    ]
}

/// A function whose one basic block is exactly the width-`w` vectorized sum.
pub open spec fn is_vector_sum_function(f: Function, w: nat) -> bool {
    &&& is_vector_sum_sig(f.sig)
    &&& f.blocks@.len() == 1
    &&& f.blocks@[0].insts@ == vector_sum_insts(w)
}

/// The arguments the vectorized sum is called with: pointers to the start of
/// buffer 0 (first input), buffer 1 (second input) and buffer 2 (output).
pub open spec fn vs_args() -> Seq<SVal> {
    seq![
        SVal::Ptr { buf: 0, off: 0 },
        SVal::Ptr { buf: 1, off: 0 },
        SVal::Ptr { buf: 2, off: 0 },
    ]
}

/// The first `m` lanes of `data`, zero-extended to width `w`: the vector
/// value after `m` of the `w` lane insertions.
pub open spec fn partial_vec(data: Seq<i64>, w: nat, m: nat) -> Seq<i64> {
    Seq::new(w, |i: int| if i < m { data[i] } else { 0i64 })
}

/// The width-`w` vector of lane-wise sums of the two input arrays.
pub open spec fn lane_sums(x: Seq<i64>, y: Seq<i64>, w: nat) -> Seq<i64> {
    Seq::new(w, |i: int| wadd(x[i], y[i]))
}

/// `base` with its first `j` elements replaced by the first `j` of `sums`:
/// the output buffer after `j` of the `w` lane stores.
pub open spec fn stored_prefix(base: Seq<i64>, sums: Seq<i64>, j: nat) -> Seq<i64> {
    Seq::new(base.len(), |i: int| if i < j { sums[i] } else { base[i] })
}

/// The load phase has four instructions per lane.
pub broadcast proof fn lemma_load_insts_len(j: nat)
    ensures
        #[trigger] load_insts(j).len() == 4 * j,
    decreases j,
{
    if j > 0 {
        lemma_load_insts_len((j - 1) as nat);
    }
}

/// The vector-build phase has one instruction per lane.
pub broadcast proof fn lemma_insert_insts_len(w: nat, a: nat, j: nat)
    ensures
        #[trigger] insert_insts(w, a, j).len() == j,
    decreases j,
{
    if j > 0 {
        lemma_insert_insts_len(w, a, (j - 1) as nat);
    }
}

/// The unpack phase has one instruction per lane.
pub broadcast proof fn lemma_extract_insts_len(w: nat, j: nat)
    ensures
        #[trigger] extract_insts(w, j).len() == j,
    decreases j,
{
    if j > 0 {
        lemma_extract_insts_len(w, (j - 1) as nat);
    }
}

/// The store phase has two instructions per lane.
pub broadcast proof fn lemma_store_insts_len(w: nat, j: nat)
    ensures
        #[trigger] store_insts(w, j).len() == 2 * j,
    decreases j,
{
    if j > 0 {
        lemma_store_insts_len(w, (j - 1) as nat);
    }
}

/// Running one instruction is one step.
pub proof fn lemma_run1(a: Inst, st: EvalState)
    ensures
        run_insts(seq![a], st) == step(st, a),
{
    assert(seq![a].drop_last() =~= Seq::<Inst>::empty());
    assert(run_insts(Seq::<Inst>::empty(), st) == st);
    assert(seq![a].last() == a);
}

/// Running two instructions is two steps.
pub proof fn lemma_run2(a: Inst, b: Inst, st: EvalState)
    ensures
        run_insts(seq![a, b], st) == step(step(st, a), b),
{
    assert(seq![a, b].drop_last() =~= seq![a]);
    lemma_run1(a, st);
}

/// Running four instructions is four steps.
pub proof fn lemma_run4(a: Inst, b: Inst, c: Inst, d: Inst, st: EvalState)
    ensures
        run_insts(seq![a, b, c, d], st) == step(step(step(step(st, a), b), c), d),
{
    assert(seq![a, b, c, d].drop_last() =~= seq![a, b, c]);
    assert(seq![a, b, c].drop_last() =~= seq![a, b]);
    lemma_run2(a, b, st);
    assert(run_insts(seq![a, b, c], st) == step(step(step(st, a), b), c));
}

/// After the load phase for `j` lanes: no trap, nothing returned, memory
/// untouched, and positions `4i+1` and `4i+3` hold lane `i` of each input.
pub proof fn lemma_load_phase(x: Seq<i64>, y: Seq<i64>, out0: Seq<i64>, j: nat)
    requires
        j <= x.len(),
        j <= y.len(),
        j <= MAX_WIDTH,
    ensures
        ({
            let st = run_insts(load_insts(j), init_state(vs_args(), seq![x, y, out0]));
            &&& !st.trap
            &&& st.ret.is_none()
            &&& st.args == vs_args()
            &&& st.mem == seq![x, y, out0]
            &&& st.vals.len() == 4 * j
            &&& forall|i: int| 0 <= i < j ==> st.vals[4 * i] == (SVal::Ptr { buf: 0, off: i })
            &&& forall|i: int| 0 <= i < j ==> st.vals[4 * i + 1] == SVal::Scalar(x[i])
            &&& forall|i: int| 0 <= i < j ==> st.vals[4 * i + 2] == (SVal::Ptr { buf: 1, off: i })
            &&& forall|i: int| 0 <= i < j ==> st.vals[4 * i + 3] == SVal::Scalar(y[i])
        }),
    decreases j,
{
    let st0 = init_state(vs_args(), seq![x, y, out0]);
    if j > 0 {
        let i = (j - 1) as nat;
        lemma_load_phase(x, y, out0, i);
        let stp = run_insts(load_insts(i), st0);
        let c0 = Inst::Gep { base: Operand::Param(0), index: Operand::ConstInt(i as i64) };
        let c1 = Inst::Load { ptr: Operand::Inst((4 * i) as usize) };
        let c2 = Inst::Gep { base: Operand::Param(1), index: Operand::ConstInt(i as i64) };
        let c3 = Inst::Load { ptr: Operand::Inst((4 * i + 2) as usize) };
        assert(load_insts(j) == load_insts(i) + seq![c0, c1, c2, c3]);
        lemma_run_insts_concat(load_insts(i), seq![c0, c1, c2, c3], st0);
        lemma_run4(c0, c1, c2, c3, stp);
        let s1 = step(stp, c0);
        assert(s1 == push_val(stp, SVal::Ptr { buf: 0, off: i as int }));
        let s2 = step(s1, c1);
        assert(s1.vals[4 * i as int] == (SVal::Ptr { buf: 0, off: i as int }));
        assert(s2 == push_val(s1, SVal::Scalar(x[i as int])));
        let s3 = step(s2, c2);
        assert(s3 == push_val(s2, SVal::Ptr { buf: 1, off: i as int }));
        let s4 = step(s3, c3);
        assert(s3.vals[4 * i as int + 2] == (SVal::Ptr { buf: 1, off: i as int }));
        assert(s4 == push_val(s3, SVal::Scalar(y[i as int])));
        assert(run_insts(load_insts(j), st0) == s4);
    }
}

/// After `j` of the `w` lane insertions for input array `a`, run from any
/// state whose positions `4i+1+2a` hold that array's lanes: the position
/// `4w + aw + k` holds the vector with lanes up to `k` filled in, everything
/// older is untouched, and nothing traps.
#[verifier::spinoff_prover]
#[verifier::rlimit(50)]
pub proof fn lemma_insert_phase(w: nat, a: nat, data: Seq<i64>, st: EvalState, j: nat)
    requires
        a <= 1,
        1 <= w <= MAX_WIDTH,
        j <= w,
        data.len() >= w,
        !st.trap,
        st.ret.is_none(),
        st.vals.len() == 4 * w + a * w,
        forall|i: int| 0 <= i < w ==> st.vals[4 * i + 1 + 2 * a] == SVal::Scalar(data[i]),
    ensures
        ({
            let st2 = run_insts(insert_insts(w, a, j), st);
            &&& !st2.trap
            &&& st2.ret.is_none()
            &&& st2.args == st.args
            &&& st2.mem == st.mem
            &&& st2.vals.len() == st.vals.len() + j
            &&& st2.vals.take(st.vals.len() as int) == st.vals
            &&& forall|k: int|
                4 * w + a * w <= k < 4 * w + a * w + j ==> #[trigger] st2.vals[k] == SVal::Vector(
                    partial_vec(data, w, (k + 1 - 4 * w - a * w) as nat),
                )
        }),
    decreases j,
{
    if j > 0 {
        let i = (j - 1) as nat;
        lemma_insert_phase(w, a, data, st, i);
        let stp = run_insts(insert_insts(w, a, i), st);
        let c = Inst::InsertElement {
            vec: if i == 0 {
                Operand::ZeroVector { elem: ScalarKind::Float64, width: w as usize }
            } else {
                Operand::Inst((4 * w + a * w + i - 1) as usize)
            },
            val: Operand::Inst((4 * i + 1 + 2 * a) as usize),
            lane: Operand::ConstInt(i as i64),
        };
        assert(insert_insts(w, a, j) == insert_insts(w, a, i).push(c));
        assert(insert_insts(w, a, j).drop_last() =~= insert_insts(w, a, i));
        assert(insert_insts(w, a, j).last() == c);
        let st2 = run_insts(insert_insts(w, a, j), st);
        assert(st2 == step(stp, c));
        // the scalar being inserted sits below 4w + aw, so it is preserved
        assert(stp.vals[4 * i as int + 1 + 2 * a] == st.vals[4 * i as int + 1 + 2 * a]) by {
            assert(stp.vals.take(st.vals.len() as int)[4 * i as int + 1 + 2 * a] == stp.vals[4 * i
                as int + 1 + 2 * a]);
        }
        // the base vector: all-zero for the first insertion, else the value
        // one position back
        let base = if i == 0 {
            zero_vec(w)
        } else {
            partial_vec(data, w, i)
        };
        if i == 0 {
            assert(zero_vec(w) =~= partial_vec(data, w, 0));
        } else {
            assert(stp.vals[4 * w + a * w + i - 1] == SVal::Vector(partial_vec(data, w, i)));
        }
        assert(base.len() == w);
        assert(st2 == push_val(stp, SVal::Vector(base.update(i as int, data[i as int]))));
        assert(base.update(i as int, data[i as int]) =~= partial_vec(data, w, j));
        assert(st2.vals.take(st.vals.len() as int) =~= st.vals);
    } else {
        assert(run_insts(insert_insts(w, a, 0), st) == st);
        assert(st.vals.take(st.vals.len() as int) =~= st.vals);
    }
}

/// After `j` of the `w` lane extractions, run from any state whose position
/// `6w` holds the width-`w` sum vector: position `6w + 1 + k` holds lane `k`
/// of it, everything older is untouched, and nothing traps.
pub proof fn lemma_extract_phase(w: nat, sums: Seq<i64>, st: EvalState, j: nat)
    requires
        1 <= w <= MAX_WIDTH,
        j <= w,
        sums.len() == w,
        !st.trap,
        st.ret.is_none(),
        st.vals.len() == 6 * w + 1,
        st.vals[6 * w as int] == SVal::Vector(sums),
    ensures
        ({
            let st2 = run_insts(extract_insts(w, j), st);
            &&& !st2.trap
            &&& st2.ret.is_none()
            &&& st2.args == st.args
            &&& st2.mem == st.mem
            &&& st2.vals.len() == st.vals.len() + j
            &&& st2.vals.take(st.vals.len() as int) == st.vals
            &&& forall|k: int| 0 <= k < j ==> st2.vals[6 * w + 1 + k] == SVal::Scalar(sums[k])
        }),
    decreases j,
{
    if j > 0 {
        let i = (j - 1) as nat;
        lemma_extract_phase(w, sums, st, i);
        let stp = run_insts(extract_insts(w, i), st);
        let c = Inst::ExtractElement {
            vec: Operand::Inst((6 * w) as usize),
            lane: Operand::ConstInt(i as i64),
        };
        assert(extract_insts(w, j) == extract_insts(w, i).push(c));
        assert(extract_insts(w, j).drop_last() =~= extract_insts(w, i));
        assert(extract_insts(w, j).last() == c);
        let st2 = run_insts(extract_insts(w, j), st);
        assert(st2 == step(stp, c));
        assert(stp.vals[6 * w as int] == st.vals[6 * w as int]) by {
            assert(stp.vals.take(st.vals.len() as int)[6 * w as int] == stp.vals[6 * w as int]);
        }
        assert(st2 == push_val(stp, SVal::Scalar(sums[i as int])));
        assert(st2.vals.take(st.vals.len() as int) =~= st.vals);
    } else {
        assert(run_insts(extract_insts(w, 0), st) == st);
        assert(st.vals.take(st.vals.len() as int) =~= st.vals);
    }
}

/// After `j` of the `w` lane stores, run from any state whose positions
/// `6w + 1 + k` hold the extracted lane sums and whose third argument points
/// at the start of buffer 2: the first `j` elements of buffer 2 are the lane
/// sums, the two input buffers are untouched, and nothing traps.
pub proof fn lemma_store_phase(w: nat, sums: Seq<i64>, st: EvalState, j: nat)
    requires
        1 <= w <= MAX_WIDTH,
        j <= w,
        sums.len() == w,
        !st.trap,
        st.ret.is_none(),
        st.args.len() == 3,
        st.args[2] == (SVal::Ptr { buf: 2, off: 0 }),
        st.vals.len() == 7 * w + 1,
        forall|k: int| 0 <= k < w ==> st.vals[6 * w + 1 + k] == SVal::Scalar(sums[k]),
        st.mem.len() == 3,
        st.mem[2].len() >= w,
    ensures
        ({
            let st2 = run_insts(store_insts(w, j), st);
            &&& !st2.trap
            &&& st2.ret.is_none()
            &&& st2.args == st.args
            &&& st2.vals.len() == st.vals.len() + 2 * j
            &&& st2.vals.take(st.vals.len() as int) == st.vals
            &&& st2.mem.len() == 3
            &&& st2.mem[0] == st.mem[0]
            &&& st2.mem[1] == st.mem[1]
            &&& st2.mem[2] == stored_prefix(st.mem[2], sums, j)
        }),
    decreases j,
{
    if j > 0 {
        let i = (j - 1) as nat;
        lemma_store_phase(w, sums, st, i);
        let stp = run_insts(store_insts(w, i), st);
        let c0 = Inst::Gep { base: Operand::Param(2), index: Operand::ConstInt(i as i64) };
        let c1 = Inst::Store {
            ptr: Operand::Inst((7 * w + 1 + 2 * i) as usize),
            val: Operand::Inst((6 * w + 1 + i) as usize),
        };
        assert(store_insts(w, j) == store_insts(w, i) + seq![c0, c1]);
        lemma_run_insts_concat(store_insts(w, i), seq![c0, c1], st);
        lemma_run2(c0, c1, stp);
        let st2 = run_insts(store_insts(w, j), st);
        assert(st2 == step(step(stp, c0), c1));
        let s1 = step(stp, c0);
        assert(s1 == push_val(stp, SVal::Ptr { buf: 2, off: i as int }));
        assert(s1.vals[7 * w as int + 1 + 2 * i as int] == (SVal::Ptr { buf: 2, off: i as int }));
        assert(s1.vals[6 * w as int + 1 + i as int] == st.vals[6 * w as int + 1 + i as int]) by {
            assert(stp.vals.take(st.vals.len() as int)[6 * w as int + 1 + i as int] == stp.vals[6
                * w as int + 1 + i as int]);
        }
        assert(stp.mem[2].len() == st.mem[2].len());
        assert(st2.mem == stp.mem.update(2, stp.mem[2].update(i as int, sums[i as int])));
        assert(stp.mem[2].update(i as int, sums[i as int]) =~= stored_prefix(st.mem[2], sums, j));
        assert(st2.vals.take(st.vals.len() as int) =~= st.vals);
    } else {
        assert(run_insts(store_insts(w, 0), st) == st);
        assert(st.vals.take(st.vals.len() as int) =~= st.vals);
        assert(stored_prefix(st.mem[2], sums, 0) =~= st.mem[2]);
    }
}

/// The output buffer after one call of the width-`w` sum on buffers `x`, `y`
/// and initial output contents `out0`: the first `w` elements are the
/// lane-wise sums, the rest keep their old contents.
pub open spec fn sum_out(x: Seq<i64>, y: Seq<i64>, out0: Seq<i64>, w: nat) -> Seq<i64> {
    Seq::new(out0.len(), |i: int| if i < w { wadd(x[i], y[i]) } else { out0[i] })
}

/// Correctness of the generated code: evaluating the width-`w` vectorized sum
/// on buffers `x`, `y` and `out0` never traps, writes `x[i] + y[i]` to
/// element `i` of the output buffer for every lane `i`, leaves both inputs
/// and the rest of the output untouched, and returns the last lane's sum.
#[verifier::rlimit(100)]
#[verifier::spinoff_prover]
pub proof fn lemma_vector_sum_correct(f: Function, w: nat, x: Seq<i64>, y: Seq<i64>, out0: Seq<i64>)
    requires
        is_vector_sum_function(f, w),
        1 <= w <= MAX_WIDTH,
        x.len() >= w,
        y.len() >= w,
        out0.len() >= w,
    ensures
        ({
            let end = run_entry(f, vs_args(), seq![x, y, out0]);
            &&& !end.trap
            &&& end.ret == Some(wadd(x[w - 1], y[w - 1]))
            &&& end.mem == seq![x, y, sum_out(x, y, out0, w)]
        }),
{
    let st0 = init_state(vs_args(), seq![x, y, out0]);
    let pa = load_insts(w);
    let pb = insert_insts(w, 0, w);
    let pc = insert_insts(w, 1, w);
    let pd = seq![
        Inst::Add {
            lhs: Operand::Inst((5 * w - 1) as usize),
            rhs: Operand::Inst((6 * w - 1) as usize),
        },
    ];
    let pe = extract_insts(w, w);
    let pf = store_insts(w, w);
    let pg = seq![Inst::Ret { val: Operand::Inst((7 * w) as usize) }];
    assert(vector_sum_insts(w) == pa + pb + pc + pd + pe + pf + pg);

    lemma_load_phase(x, y, out0, w);
    let st1 = run_insts(pa, st0);
    lemma_run_insts_concat(pa, pb, st0);
    lemma_insert_phase(w, 0, x, st1, w);
    let st2 = run_insts(pb, st1);
    assert(run_insts(pa + pb, st0) == st2);
    // the second insert phase still sees the loaded lanes of `y`
    assert(forall|k: int| 0 <= k < st1.vals.len() ==> #[trigger] st2.vals[k] == st1.vals[k]) by {
        assert(forall|k: int|
            0 <= k < st1.vals.len() ==> #[trigger] st2.vals.take(st1.vals.len() as int)[k]
                == st2.vals[k]);
    }
    lemma_run_insts_concat(pa + pb, pc, st0);
    lemma_insert_phase(w, 1, y, st2, w);
    let st3 = run_insts(pc, st2);
    assert(run_insts(pa + pb + pc, st0) == st3);

    // the finished input vectors
    let px = partial_vec(x, w, w);
    let py = partial_vec(y, w, w);
    assert(st3.vals[4 * w as int + w as int - 1] == st2.vals[4 * w as int + w as int - 1]) by {
        assert(st3.vals.take(st2.vals.len() as int)[4 * w as int + w as int - 1] == st3.vals[4 * w
            as int + w as int - 1]);
    }
    assert(st3.vals[5 * w as int - 1] == SVal::Vector(px));
    assert(st3.vals[6 * w as int - 1] == SVal::Vector(py));

    // the one vector addition
    lemma_run_insts_concat(pa + pb + pc, pd, st0);
    lemma_run1(pd[0], st3);
    let st4 = run_insts(pd, st3);
    assert(run_insts(pa + pb + pc + pd, st0) == st4);
    let sums = lane_sums(x, y, w);
    assert(st4 == push_val(st3, SVal::Vector(vec_add(px, py))));
    assert(vec_add(px, py) =~= sums);
    assert(st4.vals.len() == 6 * w + 1);
    assert(st4.vals[6 * w as int] == SVal::Vector(sums));

    lemma_run_insts_concat(pa + pb + pc + pd, pe, st0);
    lemma_extract_phase(w, sums, st4, w);
    let st5 = run_insts(pe, st4);
    assert(run_insts(pa + pb + pc + pd + pe, st0) == st5);

    lemma_run_insts_concat(pa + pb + pc + pd + pe, pf, st0);
    lemma_store_phase(w, sums, st5, w);
    let st6 = run_insts(pf, st5);
    assert(run_insts(pa + pb + pc + pd + pe + pf, st0) == st6);

    // the returned scalar: the last extracted lane, at position 7w
    lemma_run_insts_concat(pa + pb + pc + pd + pe + pf, pg, st0);
    lemma_run1(pg[0], st6);
    assert(st6.vals[7 * w as int] == st5.vals[7 * w as int]) by {
        assert(st6.vals.take(st5.vals.len() as int)[7 * w as int] == st6.vals[7 * w as int]);
    }
    assert(st5.vals[7 * w as int] == SVal::Scalar(sums[w as int - 1]));
    let end = run_insts(vector_sum_insts(w), st0);
    assert(end == step(st6, pg[0]));
    assert(end.ret == Some(wadd(x[w - 1], y[w - 1])));
    assert(stored_prefix(out0, sums, w) =~= sum_out(x, y, out0, w));
    assert(end.mem =~= seq![x, y, sum_out(x, y, out0, w)]);
    assert(run_entry(f, vs_args(), seq![x, y, out0]) == end);
}

} // verus!
