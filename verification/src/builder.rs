use vstd::prelude::*;

use crate::ir::Inst;
use crate::ir::Module;
use crate::ir::Operand;

verus! {

/// The instructions of block `b` of function `f` of module `m`.
pub open spec fn insts_at(m: Module, f: int, b: int) -> Seq<Inst> {
    m.functions@[f].blocks@[b].insts@
}

/// `m1` is `m0` with at most the instruction list of block `b` of function
/// `f` changed: every other function, every other block, and the name and
/// signature of function `f` itself are untouched.
pub open spec fn same_but_insts(m0: Module, m1: Module, f: int, b: int) -> bool {
    &&& m1.name == m0.name
    &&& m1.functions@.len() == m0.functions@.len()
    &&& forall|j: int|
        0 <= j < m0.functions@.len() && j != f ==> m1.functions@[j] == m0.functions@[j]
    &&& m1.functions@[f].name == m0.functions@[f].name
    &&& m1.functions@[f].sig == m0.functions@[f].sig
    &&& m1.functions@[f].blocks@.len() == m0.functions@[f].blocks@.len()
    &&& forall|k: int|
        0 <= k < m0.functions@[f].blocks@.len() && k != b ==> m1.functions@[f].blocks@[k]
            == m0.functions@[f].blocks@[k]
}

/// A cursor-based instruction emitter. The cursor names a function and one of
/// its basic blocks; every `build_` method appends one instruction at the end
/// of that block and, for value-producing instructions, hands back the
/// operand under which later instructions address the result.
pub struct Builder {
    pub pos: Option<(usize, usize)>,
}

impl Builder {
    /// Whether the cursor points at an existing block of an existing
    /// function of `m`.
    pub open spec fn pos_valid(self, m: Module) -> bool {
        match self.pos {
            Some((f, b)) => f < m.functions@.len() && b < m.functions@[f as int].blocks@.len(),
            None => false,
        }
    }

    /// The function the cursor points at.
    pub open spec fn cur_func(self) -> int {
        self.pos.unwrap().0 as int
    }

    /// The block the cursor points at.
    pub open spec fn cur_block(self) -> int {
        self.pos.unwrap().1 as int
    }

    /// A fresh builder with no position yet.
    pub fn create() -> (r: Builder)
        ensures
            r.pos.is_none(),
    {
        Builder { pos: None }
    }

    /// Point the cursor at the end of block `block` of function `func`.
    pub fn position_at_end(&mut self, m: &Module, func: usize, block: usize)
        requires
            func < m.functions@.len(),
            block < m.functions@[func as int].blocks@.len(),
        ensures
            final(self).pos == Some((func, block)),
            final(self).pos_valid(*m),
    {
        self.pos = Some((func, block));
    }

    /// Append `inst` at the cursor; returns the position the new instruction
    /// occupies in its block.
    fn append(&self, m: &mut Module, inst: Inst) -> (r: usize)
        requires
            self.pos_valid(*old(m)),
        ensures
            same_but_insts(*old(m), *final(m), self.cur_func(), self.cur_block()),
            insts_at(*final(m), self.cur_func(), self.cur_block()) == insts_at(
                *old(m),
                self.cur_func(),
                self.cur_block(),
            ).push(inst),
            r == insts_at(*old(m), self.cur_func(), self.cur_block()).len(),
            self.pos_valid(*final(m)),
    {
        let (f, b) = match self.pos {
            Some(p) => p,
            None => {
                proof {
                    assert(false);
                }
                (0, 0)
            },
        };
        let r = m.functions[f].blocks[b].insts.len();
        m.functions[f].blocks[b].insts.push(inst);
        r
    }

    /// Emit pointer arithmetic: `base` offset by `index` elements.
    pub fn build_gep(&self, m: &mut Module, base: Operand, index: Operand) -> (r: Operand)
        requires
            self.pos_valid(*old(m)),
        ensures
            same_but_insts(*old(m), *final(m), self.cur_func(), self.cur_block()),
            insts_at(*final(m), self.cur_func(), self.cur_block()) == insts_at(
                *old(m),
                self.cur_func(),
                self.cur_block(),
            ).push(Inst::Gep { base, index }),
            r == Operand::Inst(insts_at(*old(m), self.cur_func(), self.cur_block()).len() as usize),
            self.pos_valid(*final(m)),
    {
        Operand::Inst(self.append(m, Inst::Gep { base, index }))
    }

    /// Emit a scalar load through `ptr`.
    pub fn build_load(&self, m: &mut Module, ptr: Operand) -> (r: Operand)
        requires
            self.pos_valid(*old(m)),
        ensures
            same_but_insts(*old(m), *final(m), self.cur_func(), self.cur_block()),
            insts_at(*final(m), self.cur_func(), self.cur_block()) == insts_at(
                *old(m),
                self.cur_func(),
                self.cur_block(),
            ).push(Inst::Load { ptr }),
            r == Operand::Inst(insts_at(*old(m), self.cur_func(), self.cur_block()).len() as usize),
            self.pos_valid(*final(m)),
    {
        Operand::Inst(self.append(m, Inst::Load { ptr }))
    }

    /// Emit an insertion of scalar `val` into lane `lane` of vector `vec`.
    pub fn build_insert_element(
        &self,
        m: &mut Module,
        vec: Operand,
        val: Operand,
        lane: Operand,
    ) -> (r: Operand)
        requires
            self.pos_valid(*old(m)),
        ensures
            same_but_insts(*old(m), *final(m), self.cur_func(), self.cur_block()),
            insts_at(*final(m), self.cur_func(), self.cur_block()) == insts_at(
                *old(m),
                self.cur_func(),
                self.cur_block(),
            ).push(Inst::InsertElement { vec, val, lane }),
            r == Operand::Inst(insts_at(*old(m), self.cur_func(), self.cur_block()).len() as usize),
            self.pos_valid(*final(m)),
    {
        Operand::Inst(self.append(m, Inst::InsertElement { vec, val, lane }))
    }

    /// Emit an extraction of lane `lane` of vector `vec`.
    pub fn build_extract_element(&self, m: &mut Module, vec: Operand, lane: Operand) -> (r: Operand)
        requires
            self.pos_valid(*old(m)),
        ensures
            same_but_insts(*old(m), *final(m), self.cur_func(), self.cur_block()),
            insts_at(*final(m), self.cur_func(), self.cur_block()) == insts_at(
                *old(m),
                self.cur_func(),
                self.cur_block(),
            ).push(Inst::ExtractElement { vec, lane }),
            r == Operand::Inst(insts_at(*old(m), self.cur_func(), self.cur_block()).len() as usize),
            self.pos_valid(*final(m)),
    {
        Operand::Inst(self.append(m, Inst::ExtractElement { vec, lane }))
    }

    /// Emit an element-wise addition of two scalars or of two vectors.
    pub fn build_add(&self, m: &mut Module, lhs: Operand, rhs: Operand) -> (r: Operand)
        requires
            self.pos_valid(*old(m)),
        ensures
            same_but_insts(*old(m), *final(m), self.cur_func(), self.cur_block()),
            insts_at(*final(m), self.cur_func(), self.cur_block()) == insts_at(
                *old(m),
                self.cur_func(),
                self.cur_block(),
            ).push(Inst::Add { lhs, rhs }),
            r == Operand::Inst(insts_at(*old(m), self.cur_func(), self.cur_block()).len() as usize),
            self.pos_valid(*final(m)),
    {
        Operand::Inst(self.append(m, Inst::Add { lhs, rhs }))
    }

    /// Emit a store of scalar `val` through `ptr`.
    pub fn build_store(&self, m: &mut Module, ptr: Operand, val: Operand)
        requires
            self.pos_valid(*old(m)),
        ensures
            same_but_insts(*old(m), *final(m), self.cur_func(), self.cur_block()),
            insts_at(*final(m), self.cur_func(), self.cur_block()) == insts_at(
                *old(m),
                self.cur_func(),
                self.cur_block(),
            ).push(Inst::Store { ptr, val }),
            self.pos_valid(*final(m)),
    {
        let _ = self.append(m, Inst::Store { ptr, val });
    }

    /// Emit the block's terminator, returning scalar `val` to the caller.
    pub fn build_return(&self, m: &mut Module, val: Operand)
        requires
            self.pos_valid(*old(m)),
        ensures
            same_but_insts(*old(m), *final(m), self.cur_func(), self.cur_block()),
            insts_at(*final(m), self.cur_func(), self.cur_block()) == insts_at(
                *old(m),
                self.cur_func(),
                self.cur_block(),
            ).push(Inst::Ret { val }),
            self.pos_valid(*final(m)),
    {
        let _ = self.append(m, Inst::Ret { val });
    }
}

} // verus!
