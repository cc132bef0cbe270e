use vstd::prelude::*;

use crate::eval::run_entry;
use crate::eval::run_insts;
use crate::eval::zero_vec;
use crate::eval::EvalState;
use crate::eval::SVal;
use crate::ir::Inst;
use crate::ir::Operand;
use crate::ir::ScalarKind;
use crate::ir::Function;
use crate::vecsum::MAX_WIDTH;
use crate::vecsum::is_vector_sum_function;
use crate::vecsum::lemma_vector_sum_correct;
use crate::vecsum::sum_out;
use crate::vecsum::vs_args;
use crate::wadd;

verus! {

/// `base` after a list of lane writes: for each position `k` of `order` in
/// turn, lane `order[k]` is set to that lane's value from `data`. One
/// `InsertElement` step writes a vector lane this way, and one lane store
/// writes a buffer element this way.
pub open spec fn write_lanes(base: Seq<i64>, data: Seq<i64>, order: Seq<int>) -> Seq<i64>
    decreases order.len(),
{
    if order.len() == 0 {
        base
    } else {
        write_lanes(base, data, order.drop_last()).update(order.last(), data[order.last()])
    }
}

/// Each element of the written vector: a lane that appears in `order` holds
/// its value from `data`, every other lane keeps its value from `base`.
pub proof fn lemma_write_lanes_pointwise(base: Seq<i64>, data: Seq<i64>, order: Seq<int>, i: int)
    requires
        base.len() <= data.len(),
        forall|k: int| 0 <= k < order.len() ==> 0 <= #[trigger] order[k] < base.len(),
        0 <= i < base.len(),
    ensures
        write_lanes(base, data, order)[i] == (if order.contains(i) {
            data[i]
        } else {
            base[i]
        }),
        write_lanes(base, data, order).len() == base.len(),
    decreases order.len(),
{
    if order.len() > 0 {
        lemma_write_lanes_pointwise(base, data, order.drop_last(), i);
        if order.contains(i) && !order.drop_last().contains(i) {
            // the one write of lane i is the last entry
            let k = choose|k: int| 0 <= k < order.len() && order[k] == i;
            if k < order.len() - 1 {
                assert(order.drop_last()[k] == i);
            }
            assert(order.last() == i);
        }
        if order.drop_last().contains(i) {
            let k = choose|k: int| 0 <= k < order.len() - 1 && order.drop_last()[k] == i;
            assert(order[k] == i);
        }
    }
}

/// Determinism under reordering: writing every lane in any order at all, each
/// with its own value, yields the same result, namely the lanes of `data`.
/// This covers building the input vectors by inserting lanes in any order and
/// writing the output buffer by storing lanes in any order: as long as the
/// lane indices are preserved and every lane is covered, the order of the
/// writes does not matter.
pub proof fn lemma_write_lanes_any_order(base: Seq<i64>, data: Seq<i64>, order: Seq<int>)
    requires
        base.len() <= data.len(),
        forall|k: int| 0 <= k < order.len() ==> 0 <= #[trigger] order[k] < base.len(),
        forall|i: int| 0 <= i < base.len() ==> order.contains(i),
    ensures
        write_lanes(base, data, order) == data.take(base.len() as int),
{
    assert forall|i: int| 0 <= i < base.len() implies write_lanes(base, data, order)[i] == data[i]
        by {
        lemma_write_lanes_pointwise(base, data, order, i);
    }
    if base.len() > 0 {
        lemma_write_lanes_pointwise(base, data, order, 0);
    } else {
        assert(write_lanes(base, data, order).len() == base.len()) by {
            if order.len() > 0 {
                assert(0 <= order[0] < base.len());
            }
        }
    }
    assert(write_lanes(base, data, order) =~= data.take(base.len() as int));
}

/// A vector-build chain over the lanes `order[0..j]`: the chain starts from
/// the all-zero width-`w` vector and inserts, for each list position `k` in
/// turn, lane `order[k]`'s scalar — the value of instruction `srcs[order[k]]`
/// — at lane `order[k]`. The first link's vector operand is the zero-vector
/// constant; each later link chains on the previous link's result, which sits
/// at position `start + k - 1`.
pub open spec fn inserts_in_order(
    w: nat,
    start: nat,
    srcs: Seq<int>,
    order: Seq<int>,
    j: nat,
) -> Seq<Inst>
    decreases j,
{
    if j == 0 {
        Seq::empty()
    } else {
        let l = order[j - 1];
        inserts_in_order(w, start, srcs, order, (j - 1) as nat).push(
            Inst::InsertElement {
                vec: if j == 1 {
                    Operand::ZeroVector { elem: ScalarKind::Float64, width: w as usize }
                } else {
                    Operand::Inst((start + j - 2) as usize)
                },
                val: Operand::Inst(srcs[l] as usize),
                lane: Operand::ConstInt(l as i64),
            },
        )
    }
}

/// Running a vector-build chain: nothing traps, everything older is kept, and
/// the last link's value is the zero vector after the lane writes of
/// `order[0..j]`, exactly as `write_lanes` says.
pub proof fn lemma_inserts_in_order_run(
    w: nat,
    data: Seq<i64>,
    srcs: Seq<int>,
    order: Seq<int>,
    st: EvalState,
    j: nat,
)
    requires
        1 <= w <= MAX_WIDTH,
        data.len() == w,
        srcs.len() == w,
        j <= order.len(),
        order.len() <= MAX_WIDTH,
        st.vals.len() + order.len() <= usize::MAX,
        forall|k: int| 0 <= k < order.len() ==> 0 <= #[trigger] order[k] < w,
        forall|l: int|
            0 <= l < w ==> 0 <= #[trigger] srcs[l] < st.vals.len() && st.vals[srcs[l]]
                == SVal::Scalar(data[l]),
        !st.trap,
        st.ret.is_none(),
    ensures
        ({
            let st2 = run_insts(inserts_in_order(w, st.vals.len() as nat, srcs, order, j), st);
            &&& !st2.trap
            &&& st2.ret.is_none()
            &&& st2.args == st.args
            &&& st2.mem == st.mem
            &&& st2.vals.len() == st.vals.len() + j
            &&& st2.vals.take(st.vals.len() as int) == st.vals
            &&& j > 0 ==> st2.vals.last() == SVal::Vector(
                write_lanes(zero_vec(w), data, order.take(j as int)),
            )
        }),
    decreases j,
{
    let start = st.vals.len() as nat;
    if j > 0 {
        lemma_inserts_in_order_run(w, data, srcs, order, st, (j - 1) as nat);
        let stp = run_insts(inserts_in_order(w, start, srcs, order, (j - 1) as nat), st);
        let l = order[j - 1];
        let c = Inst::InsertElement {
            vec: if j == 1 {
                Operand::ZeroVector { elem: ScalarKind::Float64, width: w as usize }
            } else {
                Operand::Inst((start + j - 2) as usize)
            },
            val: Operand::Inst(srcs[l] as usize),
            lane: Operand::ConstInt(l as i64),
        };
        assert(inserts_in_order(w, start, srcs, order, j) == inserts_in_order(
            w,
            start,
            srcs,
            order,
            (j - 1) as nat,
        ).push(c));
        assert(inserts_in_order(w, start, srcs, order, j).drop_last() =~= inserts_in_order(
            w,
            start,
            srcs,
            order,
            (j - 1) as nat,
        ));
        let st2 = run_insts(inserts_in_order(w, start, srcs, order, j), st);
        assert(st2 == crate::eval::step(stp, c));
        // the inserted scalar is an old value, preserved by the chain so far
        assert(stp.vals[srcs[l]] == st.vals[srcs[l]]) by {
            assert(stp.vals.take(st.vals.len() as int)[srcs[l]] == stp.vals[srcs[l]]);
        }
        // the base vector of this link
        let prev = write_lanes(zero_vec(w), data, order.take(j as int - 1));
        assert(prev.len() == w) by {
            lemma_write_lanes_pointwise(zero_vec(w), data, order.take(j as int - 1), 0);
        }
        if j == 1 {
            assert(zero_vec(w) =~= write_lanes(zero_vec(w), data, order.take(0)));
        }
        assert(write_lanes(zero_vec(w), data, order.take(j as int)) == prev.update(l, data[l]))
            by {
            assert(order.take(j as int).drop_last() =~= order.take(j as int - 1));
            assert(order.take(j as int).last() == l);
        }
        assert(st2.vals.take(st.vals.len() as int) =~= st.vals);
    } else {
        assert(run_insts(inserts_in_order(w, start, srcs, order, 0), st) == st);
        assert(st.vals.take(st.vals.len() as int) =~= st.vals);
    }
}

/// Determinism under reordering, at the level of the generated code: two
/// vector-build chains that run from the same state and cover every lane,
/// each in whatever order it likes, build the very same vector — the one
/// whose lane `i` holds `data[i]` — provided each insertion carries its own
/// lane's index and value.
pub proof fn lemma_insert_order_irrelevant(
    w: nat,
    data: Seq<i64>,
    srcs: Seq<int>,
    order1: Seq<int>,
    order2: Seq<int>,
    st: EvalState,
)
    requires
        1 <= w <= MAX_WIDTH,
        data.len() == w,
        srcs.len() == w,
        order1.len() <= MAX_WIDTH,
        order2.len() <= MAX_WIDTH,
        st.vals.len() + MAX_WIDTH <= usize::MAX,
        forall|k: int| 0 <= k < order1.len() ==> 0 <= #[trigger] order1[k] < w,
        forall|k: int| 0 <= k < order2.len() ==> 0 <= #[trigger] order2[k] < w,
        forall|i: int| 0 <= i < w ==> order1.contains(i) && order2.contains(i),
        forall|l: int|
            0 <= l < w ==> 0 <= #[trigger] srcs[l] < st.vals.len() && st.vals[srcs[l]]
                == SVal::Scalar(data[l]),
        !st.trap,
        st.ret.is_none(),
    ensures
        ({
            let end1 = run_insts(
                inserts_in_order(w, st.vals.len() as nat, srcs, order1, order1.len()),
                st,
            );
            let end2 = run_insts(
                inserts_in_order(w, st.vals.len() as nat, srcs, order2, order2.len()),
                st,
            );
            &&& end1.vals.last() == SVal::Vector(data)
            &&& end2.vals.last() == SVal::Vector(data)
            &&& end1.vals.last() == end2.vals.last()
        }),
{
    assert(order1.len() > 0 && order2.len() > 0) by {
        assert(order1.contains(0) && order2.contains(0));
    }
    lemma_inserts_in_order_run(w, data, srcs, order1, st, order1.len());
    lemma_inserts_in_order_run(w, data, srcs, order2, st, order2.len());
    assert(order1.take(order1.len() as int) =~= order1);
    assert(order2.take(order2.len() as int) =~= order2);
    lemma_write_lanes_any_order(zero_vec(w), data, order1);
    lemma_write_lanes_any_order(zero_vec(w), data, order2);
    assert(data.take(w as int) =~= data);
}

/// No hidden state: what one call of the compiled width-`w` sum returns and
/// writes is a function of the two inputs alone. Two evaluations with the
/// same inputs — whatever each output buffer held beforehand — return the
/// same scalar and leave the same sums in the output lanes, so repeated calls
/// with freshly zeroed output buffers produce identical output arrays.
pub proof fn lemma_call_repeatable(
    f: Function,
    w: nat,
    x: Seq<i64>,
    y: Seq<i64>,
    out0: Seq<i64>,
    out1: Seq<i64>,
)
    requires
        is_vector_sum_function(f, w),
        1 <= w <= MAX_WIDTH,
        x.len() >= w,
        y.len() >= w,
        out0.len() >= w,
        out1.len() >= w,
    ensures
        ({
            let end0 = run_entry(f, vs_args(), seq![x, y, out0]);
            let end1 = run_entry(f, vs_args(), seq![x, y, out1]);
            &&& end0.ret == end1.ret
            &&& end0.mem[2].take(w as int) == end1.mem[2].take(w as int)
        }),
{
    lemma_vector_sum_correct(f, w, x, y, out0);
    lemma_vector_sum_correct(f, w, x, y, out1);
    let end0 = run_entry(f, vs_args(), seq![x, y, out0]);
    let end1 = run_entry(f, vs_args(), seq![x, y, out1]);
    assert(end0.mem[2].take(w as int) =~= end1.mem[2].take(w as int));
}

/// Width boundary: at width one the vectorized path degenerates to a single
/// scalar addition. The one output lane and the returned scalar both equal
/// the plain wrap-around sum of the one lane of each input.
pub proof fn lemma_width_one_scalar(f: Function, x: Seq<i64>, y: Seq<i64>, out0: Seq<i64>)
    requires
        is_vector_sum_function(f, 1),
        x.len() >= 1,
        y.len() >= 1,
        out0.len() >= 1,
    ensures
        ({
            let end = run_entry(f, vs_args(), seq![x, y, out0]);
            &&& !end.trap
            &&& end.ret == Some(wadd(x[0], y[0]))
            &&& end.mem[2][0] == wadd(x[0], y[0])
        }),
{
    lemma_vector_sum_correct(f, 1, x, y, out0);
    let end = run_entry(f, vs_args(), seq![x, y, out0]);
    assert(end.mem[2] == sum_out(x, y, out0, 1));
    assert(sum_out(x, y, out0, 1)[0] == wadd(x[0], y[0]));
}

} // verus!
