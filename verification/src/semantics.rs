//! Semantic entities shared by the interpreter and the compiler: the
//! per-binding mutability record, the per-function purity/fallibility
//! record, the implementation-error kinds, and the variable-binding rules
//! that both engines enforce.

use vstd::prelude::*;

verus! {

/// One live binding: whether it may be reassigned or moved.
#[derive(Clone, Copy, PartialEq, Eq, Structural, Debug)]
pub struct VarInfo {
    pub is_mutable: bool,
}

/// One declared function: whether it is pure and whether it can fail.
#[derive(Clone, Copy, PartialEq, Eq, Structural, Debug)]
pub struct FunctionInfo {
    pub is_pure: bool,
    pub can_error: bool,
}

/// Implementation errors: a malformed program is rejected with one of these,
/// fatally for the stage that found it. They are distinct from the source
/// language's own tagged error values, which flow as ordinary values.
#[derive(Clone, Copy, PartialEq, Eq, Structural, Debug)]
pub enum Fault {
    /// Assignment to a binding recorded as immutable.
    ImmutableMutation,
    /// `move` applied to a name that is not a mutable binding.
    InvalidMove,
    /// A name was read after being consumed by `move`.
    UseAfterMove,
    /// A pure function referenced an outer name, or used `print`, `give`,
    /// `take` or `move`, or called an impure function.
    PurityViolation,
    /// A pure function was called with a mutable-variable argument.
    MutableArgToPureFn,
    /// A call's argument count differs from the parameter count.
    ArityMismatch,
    UnknownVariable,
    UnknownFunction,
    UnknownField,
    UnknownModule,
    NotAFunction,
    NotAModule,
    NotAStruct,
    InvalidLValue,
    /// An operand had a type the operation does not accept.
    TypeError,
    InvalidNumber,
    NumOverflow,
    DivByZero,
    IndexOutOfBounds,
    KeyNotFound,
    /// `take` found the channel empty or closed, so no value can arrive.
    PipeUnavailable,
    /// `give` on a closed channel.
    PipeClosed,
    /// An iterator loop was given a non-positive step.
    InvalidStep,
    /// Iteration over a value that is not a range, list or string.
    InvalidIterable,
    /// `break` or `continue` outside of a loop.
    ControlOutsideLoop,
    /// `break` or `continue` escaped a function body.
    ControlLeak,
    /// The evaluation budget ran out before the program finished.
    FuelExhausted,
}

/// Binding rule: declaring with the mutable form (`var x = e`) records the
/// name as mutable, unconditionally.
pub open spec fn declare_var(vars: Map<Seq<char>, bool>, name: Seq<char>) -> Map<Seq<char>, bool> {
    vars.insert(name, true)
}

/// Binding rule: an assignment is allowed when the name is unknown (it then
/// implicitly declares an immutable binding) or recorded as mutable;
/// assigning to an immutable binding is an `ImmutableMutation` fault.
pub open spec fn assign_allowed(vars: Map<Seq<char>, bool>, name: Seq<char>) -> bool {
    !vars.contains_key(name) || vars[name]
}

/// Binding rule: the mutability table after a successful assignment.
/// A first write to an unknown name declares it immutable.
pub open spec fn after_assign(vars: Map<Seq<char>, bool>, name: Seq<char>) -> Map<
    Seq<char>,
    bool,
> {
    if vars.contains_key(name) {
        vars
    } else {
        vars.insert(name, false)
    }
}

/// Declaring a name with the mutable form, then assigning to it, never
/// trips the immutable-mutation rule.
pub proof fn lemma_mutable_decl_then_assign(vars: Map<Seq<char>, bool>, name: Seq<char>)
    ensures
        assign_allowed(declare_var(vars, name), name),
{
}

/// Assigning to a fresh name declares it immutable, so a second assignment
/// to the same name is rejected as an immutable mutation.
pub proof fn lemma_fresh_assign_then_assign(vars: Map<Seq<char>, bool>, name: Seq<char>)
    requires
        !vars.contains_key(name),
    ensures
        assign_allowed(vars, name),
        !assign_allowed(after_assign(vars, name), name),
{
}

} // verus!
