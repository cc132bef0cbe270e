use vstd::prelude::*;

use crate::codegen::CodeGen;
use crate::codegen::is_scalar_sum_function;
use crate::codegen::lemma_scalar_sum_correct;
use crate::eval::RtVal;
use crate::eval::copy_lanes;
use crate::eval::mem_view;
use crate::eval::run_function;
use crate::eval::vals_view;
use crate::ir::Module;
use crate::vecsum::MAX_WIDTH;
use crate::vecsum::is_vector_sum_function;
use crate::vecsum::lemma_vector_sum_correct;
use crate::vecsum::sum_out;
use crate::vecsum::vs_args;
use crate::wadd;

verus! {

/// The execution engine: it takes ownership of a finished module and resolves
/// function names to callable handles. Execution of a resolved function is
/// the `run_entry` semantics of its entry block.
pub struct ExecutionEngine {
    pub module: Module,
}

impl ExecutionEngine {
    /// Hand a finished module over to the engine.
    pub fn create_jit(module: Module) -> (r: ExecutionEngine)
        ensures
            r.module == module,
    {
        ExecutionEngine { module }
    }

    /// Resolve a function name. Returns nothing exactly when the name was
    /// never declared in the module; it never hands out a stale handle.
    pub fn get_function(&self, name: &str) -> (r: Option<usize>)
        ensures
            match r {
                Some(i) => {
                    &&& 0 <= i < self.module.functions@.len()
                    &&& self.module.functions@[i as int].name@ == name@
                },
                None => !self.module.declares(name@),
            },
    {
        self.module.get_function(name)
    }
}

/// A resolved, callable handle to the width-`w` vectorized sum of a compiled
/// module. Its one entry point takes two input buffers and an output buffer
/// of at least `w` elements each.
pub struct CompiledVectorSum {
    engine: ExecutionEngine,
    func: usize,
    width: usize,
}

impl CompiledVectorSum {
    /// The handle points at a function of its module whose body is exactly
    /// the width-`w` vectorized sum.
    pub closed spec fn wf(self) -> bool {
        &&& 1 <= self.width <= MAX_WIDTH
        &&& self.func < self.engine.module.functions@.len()
        &&& is_vector_sum_function(
            self.engine.module.functions@[self.func as int],
            self.width as nat,
        )
    }

    /// The vector width the handle was compiled for.
    pub closed spec fn spec_width(self) -> nat {
        self.width as nat
    }

    /// The vector width the handle was compiled for.
    pub fn width(&self) -> (r: usize)
        ensures
            r as nat == self.spec_width(),
    {
        self.width
    }

    /// Resolve the handle from an engine owning a module whose function
    /// `func` is the width-`width` vectorized sum.
    pub fn resolve(engine: ExecutionEngine, func: usize, width: usize) -> (r: CompiledVectorSum)
        requires
            1 <= width <= MAX_WIDTH,
            func < engine.module.functions@.len(),
            is_vector_sum_function(engine.module.functions@[func as int], width as nat),
        ensures
            r.wf(),
            r.spec_width() == width as nat,
    {
        CompiledVectorSum { engine, func, width }
    }

    /// Call the compiled function: element `i` of `out` becomes
    /// `x[i] + y[i]` (wrap-around) for every lane `i` below the width, the
    /// rest of `out` and both inputs are untouched, and the returned scalar
    /// is the last lane's sum. The caller supplies buffers of at least the
    /// width, exactly as the generated code assumes.
    pub fn call(&self, x: &Vec<i64>, y: &Vec<i64>, out: &mut Vec<i64>) -> (r: i64)
        requires
            self.wf(),
            x@.len() >= self.spec_width(),
            y@.len() >= self.spec_width(),
            old(out)@.len() >= self.spec_width(),
        ensures
            final(out)@ == sum_out(x@, y@, old(out)@, self.spec_width()),
            r == wadd(x@[self.spec_width() - 1], y@[self.spec_width() - 1]),
            r == final(out)@[self.spec_width() - 1],
    {
        let mut mem: Vec<Vec<i64>> = Vec::new();
        mem.push(copy_lanes(x));
        mem.push(copy_lanes(y));
        mem.push(copy_lanes(out));
        let mut args: Vec<RtVal> = Vec::new();
        args.push(RtVal::Ptr { buf: 0, off: 0 });
        args.push(RtVal::Ptr { buf: 1, off: 0 });
        args.push(RtVal::Ptr { buf: 2, off: 0 });
        proof {
            assert(vals_view(args@) =~= vs_args());
            assert(mem_view(mem@) =~= seq![x@, y@, old(out)@]);
        }
        let f = &self.engine.module.functions[self.func];
        proof {
            assert(*f == self.engine.module.functions@[self.func as int]);
            assert(is_vector_sum_function(*f, self.width as nat));
        }
        let ghost pre = mem_view(mem@);
        let r = run_function(f, &args, &mut mem);
        proof {
            lemma_vector_sum_correct(*f, self.width as nat, x@, y@, old(out)@);
            let end = crate::eval::run_entry(*f, vs_args(), seq![x@, y@, old(out)@]);
            assert(pre == seq![x@, y@, old(out)@]);
            assert(crate::eval::run_entry(*f, vals_view(args@), pre) == end);
            assert(!end.trap);
            assert(mem_view(mem@) == end.mem);
            assert(mem_view(mem@).len() == mem@.len());
            assert(mem@.len() == 3);
        }
        let row = match mem.pop() {
            Some(v) => v,
            None => {
                proof {
                    assert(false);
                }
                Vec::new()
            },
        };
        *out = row;
        match r {
            Some(v) => v,
            None => {
                proof {
                    assert(false);
                }
                0
            },
        }
    }
}

/// A resolved, callable handle to the plain scalar three-way sum of a
/// compiled module.
pub struct CompiledScalarSum {
    engine: ExecutionEngine,
    func: usize,
}

impl CompiledScalarSum {
    /// The handle points at a function of its module whose body is exactly
    /// the scalar three-way sum.
    pub closed spec fn wf(self) -> bool {
        &&& self.func < self.engine.module.functions@.len()
        &&& is_scalar_sum_function(self.engine.module.functions@[self.func as int])
    }

    /// Resolve the handle from an engine owning a module whose function
    /// `func` is the scalar three-way sum.
    pub fn resolve(engine: ExecutionEngine, func: usize) -> (r: CompiledScalarSum)
        requires
            func < engine.module.functions@.len(),
            is_scalar_sum_function(engine.module.functions@[func as int]),
        ensures
            r.wf(),
    {
        CompiledScalarSum { engine, func }
    }

    /// Call the compiled function: the wrap-around sum of the three scalars.
    pub fn call(&self, x: i64, y: i64, z: i64) -> (r: i64)
        requires
            self.wf(),
        ensures
            r == wadd(wadd(x, y), z),
    {
        let mut mem: Vec<Vec<i64>> = Vec::new();
        let mut args: Vec<RtVal> = Vec::new();
        args.push(RtVal::Scalar(x));
        args.push(RtVal::Scalar(y));
        args.push(RtVal::Scalar(z));
        let ghost mem0 = mem_view(mem@);
        let f = &self.engine.module.functions[self.func];
        let r = run_function(f, &args, &mut mem);
        proof {
            assert(vals_view(args@) =~= seq![
                crate::eval::SVal::Scalar(x),
                crate::eval::SVal::Scalar(y),
                crate::eval::SVal::Scalar(z),
            ]);
            lemma_scalar_sum_correct(*f, x, y, z, mem0);
        }
        match r {
            Some(v) => v,
            None => {
                proof {
                    assert(false);
                }
                0
            },
        }
    }
}

/// Build, compile and resolve the width-`width` vectorized sum in one step:
/// emit the function into a fresh module named `sum`, hand the module to the
/// execution engine, and resolve the symbol `sum` to a typed callable. On a
/// fresh module nothing can go wrong, so a handle is always returned.
pub fn build_vector_sum(width: usize) -> (r: Option<CompiledVectorSum>)
    requires
        1 <= width <= MAX_WIDTH,
    ensures
        r.is_some(),
        r matches Some(c) ==> c.wf() && c.spec_width() == width as nat,
{
    let mut codegen = CodeGen::create("sum");
    let func = match codegen.emit_vector_sum(width) {
        Some(f) => f,
        None => {
            proof {
                assert(false);
            }
            return None;
        },
    };
    let engine = ExecutionEngine::create_jit(codegen.module);
    proof {
        assert(engine.module.functions@[func as int].name@ == "sum"@);
        assert(engine.module.declares("sum"@));
    }
    let resolved = match engine.get_function("sum") {
        Some(i) => i,
        None => {
            proof {
                assert(false);
            }
            return None;
        },
    };
    proof {
        assert(engine.module.functions@.len() == 1);
        assert(resolved == func);
    }
    Some(CompiledVectorSum::resolve(engine, resolved, width))
}

/// Build, compile and resolve the plain scalar three-way sum in one step.
pub fn build_scalar_sum() -> (r: Option<CompiledScalarSum>)
    ensures
        r.is_some(),
        r matches Some(c) ==> c.wf(),
{
    let mut codegen = CodeGen::create("sum");
    let func = match codegen.jit_compile_sum() {
        Some(f) => f,
        None => {
            proof {
                assert(false);
            }
            return None;
        },
    };
    let engine = ExecutionEngine::create_jit(codegen.module);
    proof {
        assert(engine.module.functions@[func as int].name@ == "sum"@);
        assert(engine.module.declares("sum"@));
    }
    let resolved = match engine.get_function("sum") {
        Some(i) => i,
        None => {
            proof {
                assert(false);
            }
            return None;
        },
    };
    proof {
        assert(engine.module.functions@.len() == 1);
        assert(resolved == func);
    }
    Some(CompiledScalarSum::resolve(engine, resolved))
}

} // verus!
