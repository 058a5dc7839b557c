//! The reference interpreter: direct tree-walking execution of the AST
//! against a live environment, producing values, output lines and channel
//! effects, with the same semantic rules the compiler enforces statically.

use vstd::prelude::*;

use crate::ast::Program;
use crate::semantics::Fault;
use crate::tables::NameSet;
use crate::tables::Table;
use values::FuncEntry;
use values::RuntimeVal;
use values::Val;
use values::Value;
use values::vw;

pub mod expression;
pub mod statement;
pub mod values;

verus! {

/// A channel: a queue of numbers and a closed flag. `give` appends, `take`
/// removes from the front, `close` is one-way and idempotent.
pub struct Chan {
    pub queue: Vec<i64>,
    pub closed: bool,
}

/// What executing a statement yields: a value and normal continuation, or
/// a control-flow signal that the enclosing block propagates unchanged.
pub enum StatementResult {
    Normal(RuntimeVal),
    Return(RuntimeVal),
    Break,
    Continue,
}

/// The specification-level statement result.
pub enum StmtRes {
    Normal(Val),
    Return(Val),
    Break,
    Continue,
}

/// The view of a statement result.
pub open spec fn srw(r: StatementResult) -> StmtRes {
    match r {
        StatementResult::Normal(v) => StmtRes::Normal(vw(v)),
        StatementResult::Return(v) => StmtRes::Return(vw(v)),
        StatementResult::Break => StmtRes::Break,
        StatementResult::Continue => StmtRes::Continue,
    }
}

/// The interpreter state, as contracts see it.
pub struct IState {
    /// Live bindings: value and mutability per name.
    pub env: Map<Seq<char>, (Val, bool)>,
    /// Declared functions and host-backed declarations.
    pub funcs: Map<Seq<char>, FuncEntry>,
    /// Whether execution is inside a pure function body.
    pub pure_mode: bool,
    /// Names a pure body may reference.
    pub pure_names: Set<Seq<char>>,
    /// Declared error tags and their descriptions.
    pub errors: Map<Seq<char>, Seq<char>>,
    /// The channels: content queue and closed flag, by channel id.
    pub channels: Seq<(Seq<i64>, bool)>,
    /// The lines printed so far.
    pub output: Seq<Seq<char>>,
}

/// The interpreter; one instance runs one program.
pub struct Interpreter {
    pub env: Table<Value>,
    pub functions: Table<FuncEntry>,
    pub in_pure_mode: bool,
    pub pure_scope_params: NameSet,
    pub error_types: Table<String>,
    pub channels: Vec<Chan>,
    pub output: Vec<String>,
}

/// The view of an environment table.
pub open spec fn env_vw(t: Map<Seq<char>, Value>) -> Map<Seq<char>, (Val, bool)> {
    t.map_values(|v: Value| (vw(v.data), v.is_mutable))
}

/// The view of an error-tag table.
pub open spec fn errs_vw(t: Map<Seq<char>, String>) -> Map<Seq<char>, Seq<char>> {
    t.map_values(|s: String| s@)
}

/// The view of the channel table.
pub open spec fn chans_vw(s: Seq<Chan>) -> Seq<(Seq<i64>, bool)> {
    Seq::new(s.len(), |i: int| (s[i].queue@, s[i].closed))
}

impl View for Interpreter {
    type V = IState;

    open spec fn view(&self) -> IState {
        IState {
            env: env_vw(self.env@),
            funcs: self.functions@,
            pure_mode: self.in_pure_mode,
            pure_names: self.pure_scope_params@,
            errors: errs_vw(self.error_types@),
            channels: chans_vw(self.channels@),
            output: self.output.deep_view(),
        }
    }
}

/// The initial interpreter state.
pub open spec fn initial_istate() -> IState {
    IState {
        env: Map::empty(),
        funcs: Map::empty(),
        pure_mode: false,
        pure_names: Set::empty(),
        errors: Map::empty(),
        channels: Seq::empty(),
        output: Seq::empty(),
    }
}

/// Mirror of sending on a channel.
pub open spec fn give_s(st: IState, id: int, x: i64) -> (Result<(), Fault>, IState) {
    if !(0 <= id < st.channels.len()) {
        (Err(Fault::PipeUnavailable), st)
    } else if st.channels[id].1 {
        (Err(Fault::PipeClosed), st)
    } else {
        (
            Ok(()),
            IState {
                channels: st.channels.update(id, (st.channels[id].0.push(x), false)),
                ..st
            },
        )
    }
}

/// Mirror of receiving from a channel.
pub open spec fn take_s(st: IState, id: int) -> (Result<i64, Fault>, IState) {
    if !(0 <= id < st.channels.len()) {
        (Err(Fault::PipeUnavailable), st)
    } else if st.channels[id].0.len() == 0 {
        (Err(Fault::PipeUnavailable), st)
    } else {
        (
            Ok(st.channels[id].0.first()),
            IState {
                channels: st.channels.update(
                    id,
                    (st.channels[id].0.drop_first(), st.channels[id].1),
                ),
                ..st
            },
        )
    }
}

/// Mirror of closing a channel: idempotent, and a no-op on a dangling id.
pub open spec fn close_s(channels: Seq<(Seq<i64>, bool)>, id: int) -> Seq<(Seq<i64>, bool)> {
    if 0 <= id < channels.len() {
        channels.update(id, (channels[id].0, true))
    } else {
        channels
    }
}

/// Relates an executable value result to its mirror.
pub open spec fn rv_res_matches(r: Result<RuntimeVal, Fault>, m: Result<Val, Fault>) -> bool {
    match r {
        Ok(v) => m is Ok && vw(v) == m->Ok_0,
        Err(f) => m == Err::<Val, Fault>(f),
    }
}

/// Relates an executable statement result to its mirror.
pub open spec fn sr_res_matches(r: Result<StatementResult, Fault>, m: Result<StmtRes, Fault>) -> bool {
    match r {
        Ok(sr) => m is Ok && srw(sr) == m->Ok_0,
        Err(f) => m == Err::<StmtRes, Fault>(f),
    }
}

/// Mapping a value function over a map commutes with insertion.
pub proof fn lemma_map_values_insert<K, V, W>(m: Map<K, V>, k: K, v: V, f: spec_fn(V) -> W)
    ensures
        m.insert(k, v).map_values(f) == m.map_values(f).insert(k, f(v)),
{
    assert(m.insert(k, v).map_values(f) =~= m.map_values(f).insert(k, f(v)));
}

impl Interpreter {
    /// Looks a binding up; the newest entry for the name decides.
    pub fn env_get(&self, name: &String) -> (r: Option<&Value>)
        ensures
            match r {
                Some(v) => self@.env.contains_key(name@) && self@.env[name@] == (
                    vw(v.data),
                    v.is_mutable,
                ),
                None => !self@.env.contains_key(name@),
            },
    {
        self.env.get(name)
    }

    /// Binds a name, shadowing any earlier binding.
    pub fn env_put(&mut self, name: String, v: Value)
        ensures
            final(self)@ == (IState {
                env: old(self)@.env.insert(name@, (vw(v.data), v.is_mutable)),
                ..old(self)@
            }),
    {
        let ghost k = name@;
        let ghost gv = v;
        let ghost before = self.env@;
        self.env.put(name, v);
        proof {
            lemma_map_values_insert(before, k, gv, |vv: Value| (vw(vv.data), vv.is_mutable));
        }
    }

    /// Records an error tag and its description.
    pub fn err_put(&mut self, name: String, desc: String)
        ensures
            final(self)@ == (IState {
                errors: old(self)@.errors.insert(name@, desc@),
                ..old(self)@
            }),
    {
        let ghost k = name@;
        let ghost d = desc@;
        let ghost before = self.error_types@;
        self.error_types.put(name, desc);
        proof {
            assert(errs_vw(self.error_types@) =~= errs_vw(before).insert(k, d));
        }
    }

    /// Appends one printed line.
    pub fn print_line(&mut self, s: String)
        ensures
            final(self)@ == (IState { output: old(self)@.output.push(s@), ..old(self)@ }),
    {
        let ghost before = self.output.deep_view();
        self.output.push(s);
        proof {
            assert(self.output.deep_view() =~= before.push(self.output@.last()@));
        }
    }

    /// Creates a fresh, open, empty channel and returns its id.
    pub fn chan_create(&mut self) -> (id: usize)
        ensures
            final(self)@ == (IState {
                channels: old(self)@.channels.push((Seq::empty(), false)),
                ..old(self)@
            }),
            id as int == old(self)@.channels.len(),
    {
        let id = self.channels.len();
        self.channels.push(Chan { queue: Vec::new(), closed: false });
        proof {
            assert(chans_vw(self.channels@) =~= chans_vw(old(self).channels@).push(
                (Seq::empty(), false),
            ));
        }
        id
    }

    /// Sends on a channel: appends to its queue unless it is closed or the
    /// id is dangling.
    pub fn chan_give(&mut self, id: usize, x: i64) -> (r: Result<(), Fault>)
        ensures
            ({
                let (m, st) = give_s(old(self)@, id as int, x);
                final(self)@ == st && (match r {
                    Ok(()) => m is Ok,
                    Err(f) => m == Err::<(), Fault>(f),
                })
            }),
    {
        if id >= self.channels.len() {
            return Err(Fault::PipeUnavailable);
        }
        if self.channels[id].closed {
            return Err(Fault::PipeClosed);
        }
        let n = self.channels.len();
        let mut ch = self.channels.remove(id);
        ch.queue.push(x);
        self.channels.insert(id, ch);
        proof {
            let (m, st) = give_s(old(self)@, id as int, x);
            assert(chans_vw(self.channels@) =~= st.channels);
        }
        Ok(())
    }

    /// Receives from a channel: removes the front of its queue; an empty
    /// queue means no value can arrive in a single-threaded run, so it
    /// fails, as does a dangling id.
    pub fn chan_take(&mut self, id: usize) -> (r: Result<i64, Fault>)
        ensures
            ({
                let (m, st) = take_s(old(self)@, id as int);
                final(self)@ == st && (match r {
                    Ok(x) => m == Ok::<i64, Fault>(x),
                    Err(f) => m == Err::<i64, Fault>(f),
                })
            }),
    {
        if id >= self.channels.len() {
            return Err(Fault::PipeUnavailable);
        }
        if self.channels[id].queue.len() == 0 {
            return Err(Fault::PipeUnavailable);
        }
        let mut ch = self.channels.remove(id);
        let x = ch.queue.remove(0);
        self.channels.insert(id, ch);
        proof {
            let (m, st) = take_s(old(self)@, id as int);
            assert(chans_vw(self.channels@) =~= st.channels);
        }
        Ok(x)
    }

    /// Closes a channel: one-way and idempotent; closing a dangling id or
    /// an already-closed channel does nothing.
    pub fn chan_close(&mut self, id: usize)
        ensures
            final(self)@ == (IState {
                channels: close_s(old(self)@.channels, id as int),
                ..old(self)@
            }),
    {
        if id >= self.channels.len() {
            proof {
                assert(chans_vw(self.channels@) =~= close_s(chans_vw(self.channels@), id as int));
            }
            return ;
        }
        let mut ch = self.channels.remove(id);
        ch.closed = true;
        self.channels.insert(id, ch);
        proof {
            assert(chans_vw(self.channels@) =~= close_s(
                chans_vw(old(self).channels@),
                id as int,
            ));
        }
    }

    pub fn new() -> (r: Self)
        ensures
            r@ == initial_istate(),
    {
        let r = Interpreter {
            env: Table::new(),
            functions: Table::new(),
            in_pure_mode: false,
            pure_scope_params: NameSet::new(),
            error_types: Table::new(),
            channels: Vec::new(),
            output: Vec::new(),
        };
        proof {
            assert(r@.env =~= initial_istate().env);
            assert(r@.errors =~= initial_istate().errors);
            assert(r@.channels =~= initial_istate().channels);
            assert(r@.output =~= initial_istate().output);
        }
        r
    }
}

} // verus!
