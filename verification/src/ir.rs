use vstd::prelude::*;

verus! {

/// The scalar element kinds the code generator can work with: 64-bit floating
/// point and 64-bit integer words. A kind is a type tag only; the evaluation
/// model treats every lane as a 64-bit word.
#[derive(Clone, Copy, Debug, PartialEq, Eq, Structural)]
pub enum ScalarKind {
    Float64,
    Int64,
}

/// A type descriptor: a scalar, a fixed-width vector of scalars, or a pointer
/// to a buffer of scalars. Descriptors are plain values and compare by shape.
#[derive(Clone, Copy, Debug, PartialEq, Eq, Structural)]
pub enum Ty {
    Scalar(ScalarKind),
    Vector { elem: ScalarKind, width: usize },
    Ptr { elem: ScalarKind },
}

/// An operand of an instruction: a formal parameter, the result of an earlier
/// instruction in the same block (by position), an integer constant, or the
/// all-zero vector constant of a given width.
#[derive(Clone, Copy, Debug, PartialEq, Eq, Structural)]
pub enum Operand {
    Param(usize),
    Inst(usize),
    ConstInt(i64),
    ZeroVector { elem: ScalarKind, width: usize },
}

/// One IR instruction. The result of the instruction at position `k` of a
/// block is addressed by later instructions as `Operand::Inst(k)`.
#[derive(Clone, Copy, Debug, PartialEq, Eq, Structural)]
pub enum Inst {
    /// Pointer arithmetic: `base` offset by `index` elements.
    Gep { base: Operand, index: Operand },
    /// Read the scalar that `ptr` points at.
    Load { ptr: Operand },
    /// A copy of vector `vec` with `val` placed in lane `lane`.
    InsertElement { vec: Operand, val: Operand, lane: Operand },
    /// The scalar in lane `lane` of vector `vec`.
    ExtractElement { vec: Operand, lane: Operand },
    /// Element-wise wrap-around addition of two scalars or of two vectors of
    /// equal width.
    Add { lhs: Operand, rhs: Operand },
    /// Write scalar `val` to the slot that `ptr` points at.
    Store { ptr: Operand, val: Operand },
    /// Terminate the block, yielding scalar `val` to the caller.
    Ret { val: Operand },
}

/// An ordered list of parameter types together with a return type. Immutable
/// once a function has been declared from it.
#[derive(Clone, Debug)]
pub struct Signature {
    pub params: Vec<Ty>,
    pub ret: Ty,
}

/// A straight-line sequence of instructions. A block is complete once its
/// last instruction is a `Ret`; executing an incomplete block fails.
#[derive(Clone, Debug)]
pub struct BasicBlock {
    pub insts: Vec<Inst>,
}

/// A named function of a module: a signature and the basic blocks that hold
/// its body.
#[derive(Clone, Debug)]
pub struct Function {
    pub name: String,
    pub sig: Signature,
    pub blocks: Vec<BasicBlock>,
}

/// A named container of functions; the unit handed to the execution engine.
/// Function names are kept distinct: declaring a name twice is refused.
#[derive(Clone, Debug)]
pub struct Module {
    pub name: String,
    pub functions: Vec<Function>,
}

impl Function {
    /// Whether `n` addresses a formal parameter of this function.
    pub open spec fn param_in_range(self, n: int) -> bool {
        0 <= n < self.sig.params@.len()
    }

    /// The operand for the `n`-th formal parameter, or nothing when `n` is
    /// out of range (a declaration error the caller must check for).
    pub fn get_nth_param(&self, n: usize) -> (r: Option<Operand>)
        ensures
            r == if self.param_in_range(n as int) {
                Some(Operand::Param(n))
            } else {
                None::<Operand>
            },
    {
        if n < self.sig.params.len() {
            Some(Operand::Param(n))
        } else {
            None
        }
    }
}

impl Module {
    /// A fresh module with the given name and no functions.
    pub fn create(name: &str) -> (r: Module)
        ensures
            r.name@ == name@,
            r.functions@ =~= Seq::<Function>::empty(),
    {
        Module { name: name.to_owned(), functions: Vec::new() }
    }

    /// Whether some function of this module is named `name`.
    pub open spec fn declares(self, name: Seq<char>) -> bool {
        exists|i: int| 0 <= i < self.functions@.len() && self.functions@[i].name@ == name
    }

    /// Declare a new function with the given name and signature and no basic
    /// blocks yet. Returns its index, or nothing when the name is already
    /// taken (duplicate declaration is refused, not overwritten).
    pub fn add_function(&mut self, name: &str, sig: Signature) -> (r: Option<usize>)
        ensures
            match r {
                Some(i) => {
                    &&& !old(self).declares(name@)
                    &&& i == old(self).functions@.len()
                    &&& final(self).functions@.len() == old(self).functions@.len() + 1
                    &&& final(self).functions@.take(i as int) =~= old(self).functions@
                    &&& final(self).functions@[i as int].name@ == name@
                    &&& final(self).functions@[i as int].sig == sig
                    &&& final(self).functions@[i as int].blocks@ =~= Seq::<BasicBlock>::empty()
                    &&& final(self).name == old(self).name
                },
                None => {
                    &&& old(self).declares(name@)
                    &&& *final(self) == *old(self)
                },
            },
    {
        let key = name.to_owned();
        let n = self.functions.len();
        let mut i: usize = 0;
        while i < n
            invariant
                n == self.functions@.len(),
                i <= n,
                key@ == name@,
                forall|j: int| 0 <= j < i ==> self.functions@[j].name@ != name@,
            decreases n - i,
        {
            if self.functions[i].name.eq(&key) {
                return None;
            }
            i += 1;
        }
        let f = Function { name: key, sig, blocks: Vec::new() };
        self.functions.push(f);
        Some(n)
    }

    /// Resolve a function name to its index. Returns nothing exactly when no
    /// function of that name was ever declared in this module.
    pub fn get_function(&self, name: &str) -> (r: Option<usize>)
        ensures
            match r {
                Some(i) => {
                    &&& 0 <= i < self.functions@.len()
                    &&& self.functions@[i as int].name@ == name@
                },
                None => !self.declares(name@),
            },
    {
        let key = name.to_owned();
        let n = self.functions.len();
        let mut i: usize = 0;
        while i < n
            invariant
                n == self.functions@.len(),
                i <= n,
                key@ == name@,
                forall|j: int| 0 <= j < i ==> self.functions@[j].name@ != name@,
            decreases n - i,
        {
            if self.functions[i].name.eq(&key) {
                return Some(i);
            }
            i += 1;
        }
        None
    }

    /// Append a fresh, empty basic block to the function at index `func` and
    /// return the block's index within that function.
    pub fn append_basic_block(&mut self, func: usize) -> (r: usize)
        requires
            func < old(self).functions@.len(),
        ensures
            r == old(self).functions@[func as int].blocks@.len(),
            final(self).functions@.len() == old(self).functions@.len(),
            final(self).name == old(self).name,
            forall|j: int|
                0 <= j < old(self).functions@.len() && j != func ==> final(self).functions@[j]
                    == old(self).functions@[j],
            final(self).functions@[func as int].name == old(self).functions@[func as int].name,
            final(self).functions@[func as int].sig == old(self).functions@[func as int].sig,
            final(self).functions@[func as int].blocks@.len() == old(
                self,
            ).functions@[func as int].blocks@.len() + 1,
            final(self).functions@[func as int].blocks@.take(r as int) =~= old(
                self,
            ).functions@[func as int].blocks@,
            final(self).functions@[func as int].blocks@[r as int].insts@ =~= Seq::<Inst>::empty(),
    {
        let r = self.functions[func].blocks.len();
        self.functions[func].blocks.push(BasicBlock { insts: Vec::new() });
        r
    }
}

} // verus!
