//! The ahead-of-time compiler: a pure recursive-descent lowering from the
//! AST to target-language source text, enforcing the mutability, purity and
//! move rules while it lowers.
//!
//! The contract of every lowering method is a specification mirror
//! (`lower_expr`, `lower_stmt`, ...): a total spec function from the
//! compiler state and a node to the exact emitted text (or the fault that
//! rejects the program) and the state afterwards.

use vstd::prelude::*;

use crate::ast::Statement;
use crate::semantics::Fault;
use crate::semantics::FunctionInfo;
use crate::semantics::VarInfo;
use crate::tables::NameSet;
use crate::tables::Table;

pub mod expression;
pub mod statement;

verus! {

/// The compiler's semantic state, as contracts see it.
pub struct CState {
    /// Mutability record of every binding seen so far.
    pub vars: Map<Seq<char>, VarInfo>,
    /// Modules brought in by `import`, for `module.symbol` member access.
    pub imports: Set<Seq<char>>,
    /// Purity and fallibility of every declared function.
    pub funcs: Map<Seq<char>, FunctionInfo>,
    /// Names consumed by `move`.
    pub moved: Set<Seq<char>>,
    /// Names a pure body may reference: its parameters and its own locals.
    pub pure_params: Set<Seq<char>>,
    /// Whether lowering is inside a pure function body.
    pub in_pure: bool,
    /// Whether lowering is inside a fallible (`!`) function body.
    pub in_failable: bool,
}

/// The compiler; one instance lowers one source unit.
pub struct Compiler {
    pub known_vars: Table<VarInfo>,
    pub imported_modules: NameSet,
    pub functions: Table<FunctionInfo>,
    pub moved_vars: NameSet,
    pub pure_scope_params: NameSet,
    pub in_pure_context: bool,
    pub in_failable_fn: bool,
}

impl View for Compiler {
    type V = CState;

    open spec fn view(&self) -> CState {
        CState {
            vars: self.known_vars@,
            imports: self.imported_modules@,
            funcs: self.functions@,
            moved: self.moved_vars@,
            pure_params: self.pure_scope_params@,
            in_pure: self.in_pure_context,
            in_failable: self.in_failable_fn,
        }
    }
}

/// The initial compiler state: nothing known, no context flags set.
pub open spec fn initial_cstate() -> CState {
    CState {
        vars: Map::empty(),
        imports: Set::empty(),
        funcs: Map::empty(),
        moved: Set::empty(),
        pure_params: Set::empty(),
        in_pure: false,
        in_failable: false,
    }
}

/// Relates an executable lowering result to its specification mirror.
pub open spec fn res_matches(r: Result<String, Fault>, m: Result<Seq<char>, Fault>) -> bool {
    match r {
        Ok(s) => m is Ok && s@ == m->Ok_0,
        Err(f) => m == Err::<Seq<char>, Fault>(f),
    }
}

/// The error-tag naming convention: a bare identifier starting with an
/// upper-case letter denotes an error construction, not a variable read.
pub open spec fn is_upper_name(s: Seq<char>) -> bool {
    s.len() > 0 && (s[0] as u32) >= 65 && (s[0] as u32) <= 90
}

/// Whether a numeric literal already carries a decimal point.
pub open spec fn has_dot(s: Seq<char>) -> bool {
    exists|i: int| 0 <= i < s.len() && s[i] == '.'
}

/// The registrations made by the pre-scan pass: every directly top-level
/// function definition is recorded before any statement is lowered, so
/// forward references resolve.
pub open spec fn prescan(funcs: Map<Seq<char>, FunctionInfo>, stmts: Seq<Statement>) -> Map<
    Seq<char>,
    FunctionInfo,
>
    decreases stmts.len(),
{
    if stmts.len() == 0 {
        funcs
    } else {
        let rest = prescan(funcs, stmts.drop_last());
        match stmts.last() {
            Statement::FunctionDef(def) => rest.insert(
                def.name@,
                FunctionInfo { is_pure: def.is_pure, can_error: def.can_error },
            ),
            _ => rest,
        }
    }
}

/// The fixed text every compiled unit starts with.
pub open spec fn unit_header() -> Seq<char> {
    "#![allow(unused)]\nuse async_channel;\n"@
}

/// What a non-root unit emits to reach the shared runtime.
pub open spec fn submodule_header() -> Seq<char> {
    "use crate::*;\n"@
}

/// The shared runtime prelude, emitted once by the root unit: the channel
/// wrapper type and the generic get/at/add/len/iter/assign/truthy
/// abstractions that lowered code relies on.
pub open spec fn runtime_prelude_text() -> Seq<char> {
    "
#[derive(Clone, Debug)]
pub struct KiroPipe<T> {
    pub tx: async_channel::Sender<T>,
    pub rx: async_channel::Receiver<T>,
}

pub trait KiroGet {
    type Inner;
    fn kiro_get<R>(&self, f: impl FnOnce(&Self::Inner) -> R) -> R;
}

impl<T> KiroGet for std::sync::Arc<std::sync::Mutex<T>> {
    type Inner = T;
    fn kiro_get<R>(&self, f: impl FnOnce(&T) -> R) -> R {
        let guard = self.lock().unwrap();
        f(&*guard)
    }
}

pub trait KiroAt<I, O> { fn kiro_at(&self, index: I) -> O; }

impl<T: Clone> KiroAt<f64, T> for Vec<T> {
    fn kiro_at(&self, index: f64) -> T {
        self.get(index as usize).cloned().expect(\"Index out of bounds\")
    }
}

impl<K, V> KiroAt<K, V> for std::collections::HashMap<K, V>
where K: std::hash::Hash + Eq + Clone, V: Clone {
    fn kiro_at(&self, key: K) -> V {
        self.get(&key).cloned().expect(\"Key not found\")
    }
}

pub trait KiroAdd<Rhs = Self> { type Output; fn kiro_add(self, rhs: Rhs) -> Self::Output; }
impl KiroAdd for f64 { type Output = f64; fn kiro_add(self, rhs: f64) -> f64 { self + rhs } }
impl KiroAdd for String {
    type Output = String;
    fn kiro_add(self, rhs: String) -> String { let mut s = self; s.push_str(&rhs); s }
}

pub trait KiroLen { fn kiro_len(&self) -> f64; }
impl<T> KiroLen for Vec<T> { fn kiro_len(&self) -> f64 { self.len() as f64 } }
impl<K, V> KiroLen for std::collections::HashMap<K, V> { fn kiro_len(&self) -> f64 { self.len() as f64 } }
impl KiroLen for String { fn kiro_len(&self) -> f64 { self.len() as f64 } }

pub trait KiroIter { type Item; type IntoIter: Iterator<Item = Self::Item>; fn kiro_iter(self) -> Self::IntoIter; }
impl KiroIter for std::ops::Range<i64> { type Item = i64; type IntoIter = std::ops::Range<i64>; fn kiro_iter(self) -> Self::IntoIter { self } }
impl<T> KiroIter for Vec<T> { type Item = T; type IntoIter = std::vec::IntoIter<T>; fn kiro_iter(self) -> Self::IntoIter { self.into_iter() } }
impl KiroIter for String { type Item = char; type IntoIter = std::vec::IntoIter<char>; fn kiro_iter(self) -> Self::IntoIter { self.chars().collect::<Vec<_>>().into_iter() } }

pub trait AsKiroLoopVar { type Out; fn as_kiro(self) -> Self::Out; }
impl AsKiroLoopVar for i64 { type Out = f64; fn as_kiro(self) -> f64 { self as f64 } }
impl AsKiroLoopVar for f64 { type Out = f64; fn as_kiro(self) -> f64 { self } }
impl AsKiroLoopVar for char { type Out = String; fn as_kiro(self) -> String { self.to_string() } }
impl AsKiroLoopVar for String { type Out = String; fn as_kiro(self) -> String { self } }

pub trait KiroAssign<Rhs> { fn kiro_assign(&mut self, rhs: Rhs); }
impl<T> KiroAssign<T> for T { fn kiro_assign(&mut self, rhs: T) { *self = rhs; } }
impl<T> KiroAssign<Option<std::sync::Arc<std::sync::Mutex<T>>>> for usize {
    fn kiro_assign(&mut self, rhs: Option<std::sync::Arc<std::sync::Mutex<T>>>) {
        *self = rhs.as_ref().map(|a| std::sync::Arc::as_ptr(a) as usize).unwrap_or(0);
    }
}

pub trait KiroTruthy { fn kiro_truthy(&self) -> bool; }
impl KiroTruthy for bool { fn kiro_truthy(&self) -> bool { *self } }
impl KiroTruthy for f64 { fn kiro_truthy(&self) -> bool { *self != 0.0 } }
impl<T, E> KiroTruthy for Result<T, E> { fn kiro_truthy(&self) -> bool { self.is_ok() } }
"@
}

impl Compiler {
    pub fn new() -> (r: Self)
        ensures
            r@ == initial_cstate(),
    {
        Compiler {
            known_vars: Table::new(),
            imported_modules: NameSet::new(),
            functions: Table::new(),
            moved_vars: NameSet::new(),
            pure_scope_params: NameSet::new(),
            in_pure_context: false,
            in_failable_fn: false,
        }
    }
}

} // verus!
