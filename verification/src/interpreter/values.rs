//! Runtime values of the interpreter, and their mathematical model.
//!
//! `Val` is the specification-level value: strings become character
//! sequences, collections become sequences of entries, and a module's
//! exports become maps. Every contract about the interpreter speaks of
//! values through the view `vw`.

use vstd::prelude::*;

use crate::ast::FunctionDef;
use crate::ast::Program;
use crate::ast::RustFnDecl;
use crate::semantics::Fault;
use std::rc::Rc;

verus! {

/// A callable registered in a function table: a user definition or a
/// host-backed declaration.
pub enum FuncEntry {
    User(Rc<FunctionDef>),
    Host(Rc<RustFnDecl>),
}

impl FuncEntry {
    pub fn duplicate(&self) -> (r: Self)
        ensures
            r == *self,
    {
        match self {
            FuncEntry::User(d) => FuncEntry::User(d.clone()),
            FuncEntry::Host(d) => FuncEntry::Host(d.clone()),
        }
    }
}

/// A runtime value. Numbers are integers; a `Pipe` holds the index of its
/// channel in the interpreter's channel table; a `Moved` value marks a
/// binding consumed by `move`.
pub enum RuntimeVal {
    Num(i64),
    Str(String),
    Bool(bool),
    Range(i64, i64),
    Void,
    Pipe(usize),
    Struct(String, Vec<(String, RuntimeVal)>),
    List(Vec<RuntimeVal>),
    MapVal(Vec<(String, RuntimeVal)>),
    Module(Vec<(String, RuntimeVal)>, Vec<(String, FuncEntry)>),
    ErrorVal(String, String),
    Moved,
}

/// One environment binding: a value and its mutability.
pub struct Value {
    pub data: RuntimeVal,
    pub is_mutable: bool,
}

/// The specification-level value.
pub enum Val {
    Num(i64),
    Str(Seq<char>),
    Bool(bool),
    Range(i64, i64),
    Void,
    Pipe(int),
    Struct(Seq<char>, Seq<(Seq<char>, Val)>),
    List(Seq<Val>),
    MapVal(Seq<(Seq<char>, Val)>),
    Module(Map<Seq<char>, Val>, Map<Seq<char>, FuncEntry>),
    ErrorVal(Seq<char>, Seq<char>),
    Moved,
}

/// Structural size of a runtime value, the termination measure of the
/// functions that walk values.
pub open spec fn rv_size(v: RuntimeVal) -> nat
    decreases v,
{
    match v {
        RuntimeVal::Struct(_, fields) => 1 + rv_pairs_size(fields@),
        RuntimeVal::List(items) => 1 + rv_items_size(items@),
        RuntimeVal::MapVal(entries) => 1 + rv_pairs_size(entries@),
        RuntimeVal::Module(exports, _) => 1 + rv_pairs_size(exports@),
        _ => 1,
    }
}

pub open spec fn rv_pairs_size(s: Seq<(String, RuntimeVal)>) -> nat
    decreases s,
{
    if s.len() == 0 {
        0
    } else {
        1 + rv_size(s.first().1) + rv_pairs_size(s.drop_first())
    }
}

pub open spec fn rv_items_size(s: Seq<RuntimeVal>) -> nat
    decreases s,
{
    if s.len() == 0 {
        0
    } else {
        1 + rv_size(s.first()) + rv_items_size(s.drop_first())
    }
}

/// The view of a runtime value.
pub open spec fn vw(v: RuntimeVal) -> Val
    decreases v,
{
    match v {
        RuntimeVal::Num(n) => Val::Num(n),
        RuntimeVal::Str(s) => Val::Str(s@),
        RuntimeVal::Bool(b) => Val::Bool(b),
        RuntimeVal::Range(a, b) => Val::Range(a, b),
        RuntimeVal::Void => Val::Void,
        RuntimeVal::Pipe(id) => Val::Pipe(id as int),
        RuntimeVal::Struct(name, fields) => Val::Struct(name@, pairs_vw(fields@)),
        RuntimeVal::List(items) => Val::List(items_vw(items@)),
        RuntimeVal::MapVal(entries) => Val::MapVal(pairs_vw(entries@)),
        RuntimeVal::Module(exports, funcs) => Val::Module(exports_vw(exports@), funcs_vw(funcs@)),
        RuntimeVal::ErrorVal(n, d) => Val::ErrorVal(n@, d@),
        RuntimeVal::Moved => Val::Moved,
    }
}

pub open spec fn pairs_vw(s: Seq<(String, RuntimeVal)>) -> Seq<(Seq<char>, Val)>
    decreases s,
{
    if s.len() == 0 {
        Seq::empty()
    } else {
        pairs_vw(s.drop_last()).push((s.last().0@, vw(s.last().1)))
    }
}

pub open spec fn items_vw(s: Seq<RuntimeVal>) -> Seq<Val>
    decreases s,
{
    if s.len() == 0 {
        Seq::empty()
    } else {
        items_vw(s.drop_last()).push(vw(s.last()))
    }
}

pub open spec fn exports_vw(s: Seq<(String, RuntimeVal)>) -> Map<Seq<char>, Val>
    decreases s,
{
    if s.len() == 0 {
        Map::empty()
    } else {
        exports_vw(s.drop_last()).insert(s.last().0@, vw(s.last().1))
    }
}

pub open spec fn funcs_vw(s: Seq<(String, FuncEntry)>) -> Map<Seq<char>, FuncEntry>
    decreases s,
{
    if s.len() == 0 {
        Map::empty()
    } else {
        funcs_vw(s.drop_last()).insert(s.last().0@, s.last().1)
    }
}

pub proof fn lemma_pairs_vw(s: Seq<(String, RuntimeVal)>)
    ensures
        pairs_vw(s).len() == s.len(),
        forall|i: int|
            0 <= i < s.len() ==> #[trigger] pairs_vw(s)[i] == (s[i].0@, vw(s[i].1)),
    decreases s.len(),
{
    if s.len() > 0 {
        lemma_pairs_vw(s.drop_last());
    }
}

pub proof fn lemma_items_vw(s: Seq<RuntimeVal>)
    ensures
        items_vw(s).len() == s.len(),
        forall|i: int| 0 <= i < s.len() ==> #[trigger] items_vw(s)[i] == vw(s[i]),
    decreases s.len(),
{
    if s.len() > 0 {
        lemma_items_vw(s.drop_last());
    }
}

/// Sizes at the specification level, measures for value recursion there.
pub open spec fn val_size(v: Val) -> nat
    decreases v,
{
    match v {
        Val::Struct(_, fields) => 1 + val_pairs_size(fields),
        Val::List(items) => 1 + val_items_size(items),
        Val::MapVal(entries) => 1 + val_pairs_size(entries),
        _ => 1,
    }
}

pub open spec fn val_pairs_size(s: Seq<(Seq<char>, Val)>) -> nat
    decreases s,
{
    if s.len() == 0 {
        0
    } else {
        1 + val_size(s.first().1) + val_pairs_size(s.drop_first())
    }
}

pub open spec fn val_items_size(s: Seq<Val>) -> nat
    decreases s,
{
    if s.len() == 0 {
        0
    } else {
        1 + val_size(s.first()) + val_items_size(s.drop_first())
    }
}

/// The key set of an entry sequence.
pub open spec fn assoc_keys(s: Seq<(Seq<char>, Val)>) -> Set<Seq<char>>
    decreases s.len(),
{
    if s.len() == 0 {
        Set::empty()
    } else {
        assoc_keys(s.drop_last()).insert(s.last().0)
    }
}

/// Value equality of the source language: numbers, strings, booleans,
/// ranges and `void` compare by content; lists compare elementwise;
/// structs and maps compare as the hash maps they stand for — the same
/// key set, with the newest entry per key holding an equal value, in
/// whatever order the entries were made; channels, modules and error
/// values never compare equal.
pub open spec fn val_eq(a: Val, b: Val) -> bool
    decreases val_size(a), 0nat, 0nat,
{
    match (a, b) {
        (Val::Num(x), Val::Num(y)) => x == y,
        (Val::Str(x), Val::Str(y)) => x == y,
        (Val::Bool(x), Val::Bool(y)) => x == y,
        (Val::Range(s1, e1), Val::Range(s2, e2)) => s1 == s2 && e1 == e2,
        (Val::Void, Val::Void) => true,
        (Val::Struct(n1, f1), Val::Struct(n2, f2)) => n1 == n2 && assoc_equiv(f1, f2),
        (Val::List(l1), Val::List(l2)) => val_items_eq(l1, l2),
        (Val::MapVal(m1), Val::MapVal(m2)) => assoc_equiv(m1, m2),
        _ => false,
    }
}

/// Hash-map equivalence of entry sequences, insertion order ignored.
pub open spec fn assoc_equiv(a: Seq<(Seq<char>, Val)>, b: Seq<(Seq<char>, Val)>) -> bool
    decreases val_pairs_size(a), 2nat, 0nat,
{
    assoc_keys(a) == assoc_keys(b) && assoc_entries_eq(a, a, b)
}

/// Every key named by `rem` holds equal newest values in `full` and `b`.
pub open spec fn assoc_entries_eq(
    rem: Seq<(Seq<char>, Val)>,
    full: Seq<(Seq<char>, Val)>,
    b: Seq<(Seq<char>, Val)>,
) -> bool
    decreases val_pairs_size(full), 1nat, rem.len(),
        via assoc_entries_eq_decreases
{
    if rem.len() == 0 {
        true
    } else {
        let k = rem.last().0;
        (match (assoc_find_v(full, k), assoc_find_v(b, k)) {
            (Some(x), Some(y)) => val_eq(x, y),
            _ => false,
        }) && assoc_entries_eq(rem.drop_last(), full, b)
    }
}

#[via_fn]
proof fn assoc_entries_eq_decreases(
    rem: Seq<(Seq<char>, Val)>,
    full: Seq<(Seq<char>, Val)>,
    b: Seq<(Seq<char>, Val)>,
) {
    if rem.len() > 0 {
        let k = rem.last().0;
        match assoc_find_v(full, k) {
            Some(_) => {
                lemma_assoc_find_size(full, k);
            },
            None => {},
        }
    }
}

pub open spec fn val_items_eq(a: Seq<Val>, b: Seq<Val>) -> bool
    decreases val_items_size(a), 1nat, 0nat,
{
    if a.len() != b.len() {
        false
    } else if a.len() == 0 {
        true
    } else {
        val_eq(a.first(), b.first()) && val_items_eq(a.drop_first(), b.drop_first())
    }
}

/// An entry's value is smaller than its whole sequence.
proof fn lemma_val_pairs_size_elem(s: Seq<(Seq<char>, Val)>, i: int)
    requires
        0 <= i < s.len(),
    ensures
        val_size(s[i].1) < val_pairs_size(s),
    decreases s.len(),
{
    if i > 0 {
        lemma_val_pairs_size_elem(s.drop_first(), i - 1);
    }
}

/// Dropping the last entry cannot grow the size.
proof fn lemma_val_pairs_size_drop_last(s: Seq<(Seq<char>, Val)>)
    requires
        s.len() > 0,
    ensures
        val_pairs_size(s.drop_last()) <= val_pairs_size(s),
    decreases s.len(),
{
    if s.len() > 1 {
        lemma_val_pairs_size_drop_last(s.drop_first());
        assert(s.drop_last().drop_first() =~= s.drop_first().drop_last());
    }
}

/// A found value is smaller than the sequence it was found in.
proof fn lemma_assoc_find_size(s: Seq<(Seq<char>, Val)>, k: Seq<char>)
    requires
        assoc_find_v(s, k) is Some,
    ensures
        val_size(assoc_find_v(s, k)->Some_0) < val_pairs_size(s),
    decreases s.len(),
{
    if s.last().0 == k {
        lemma_val_pairs_size_elem(s, s.len() - 1);
    } else {
        lemma_assoc_find_size(s.drop_last(), k);
        lemma_val_pairs_size_drop_last(s);
    }
}

/// Every entry's key is in the key set.
proof fn lemma_keys_index(s: Seq<(Seq<char>, Val)>, i: int)
    requires
        0 <= i < s.len(),
    ensures
        assoc_keys(s).contains(s[i].0),
    decreases s.len(),
{
    if i < s.len() - 1 {
        lemma_keys_index(s.drop_last(), i);
    }
}

/// Every key in the key set names some entry.
proof fn lemma_keys_to_index(s: Seq<(Seq<char>, Val)>, k: Seq<char>)
    requires
        assoc_keys(s).contains(k),
    ensures
        exists|i: int| 0 <= i < s.len() && s[i].0 == k,
    decreases s.len(),
{
    if s.len() > 0 {
        if s.last().0 == k {
            assert(s[s.len() - 1].0 == k);
        } else {
            lemma_keys_to_index(s.drop_last(), k);
            let i = choose|i: int| 0 <= i < s.drop_last().len() && s.drop_last()[i].0 == k;
            assert(s[i].0 == k);
        }
    }
}

/// A key named by no entry is not in the key set.
proof fn lemma_keys_absent(s: Seq<(Seq<char>, Val)>, k: Seq<char>)
    requires
        forall|j: int| 0 <= j < s.len() ==> s[j].0 != k,
    ensures
        !assoc_keys(s).contains(k),
    decreases s.len(),
{
    if s.len() > 0 {
        lemma_keys_absent(s.drop_last(), k);
    }
}

/// An entry for a key guarantees the lookup finds one.
proof fn lemma_entry_finds(s: Seq<(Seq<char>, Val)>, i: int)
    requires
        0 <= i < s.len(),
    ensures
        assoc_find_v(s, s[i].0) is Some,
    decreases s.len(),
{
    if s.last().0 != s[i].0 {
        lemma_entry_finds(s.drop_last(), i);
    }
}

/// Lexicographic order on character sequences: -1, 0 or 1.
pub open spec fn lex_cmp(a: Seq<char>, b: Seq<char>) -> int
    decreases a.len(),
{
    if a.len() == 0 && b.len() == 0 {
        0
    } else if a.len() == 0 {
        -1
    } else if b.len() == 0 {
        1
    } else if (a.first() as u32) < (b.first() as u32) {
        -1
    } else if (a.first() as u32) > (b.first() as u32) {
        1
    } else {
        lex_cmp(a.drop_first(), b.drop_first())
    }
}

/// Partial order of the source language: only two numbers or two strings
/// are ordered; every other pair is incomparable.
pub open spec fn val_ord(a: Val, b: Val) -> Option<int> {
    match (a, b) {
        (Val::Num(x), Val::Num(y)) => Some(
            if x < y {
                -1
            } else if x > y {
                1
            } else {
                0
            },
        ),
        (Val::Str(x), Val::Str(y)) => Some(lex_cmp(x, y)),
        _ => None,
    }
}

/// Truthiness: a boolean is itself, a number is true when nonzero, every
/// other value is false.
pub open spec fn truthy(v: Val) -> bool {
    match v {
        Val::Bool(b) => b,
        Val::Num(n) => n != 0,
        _ => false,
    }
}

/// Decimal text of a nonnegative integer.
pub open spec fn u_dec(x: int) -> Seq<char>
    decreases x,
{
    if x < 10 {
        digit_text(x)
    } else {
        u_dec(x / 10) + digit_text(x % 10)
    }
}

pub open spec fn digit_text(d: int) -> Seq<char> {
    if d == 0 {
        "0"@
    } else if d == 1 {
        "1"@
    } else if d == 2 {
        "2"@
    } else if d == 3 {
        "3"@
    } else if d == 4 {
        "4"@
    } else if d == 5 {
        "5"@
    } else if d == 6 {
        "6"@
    } else if d == 7 {
        "7"@
    } else if d == 8 {
        "8"@
    } else {
        "9"@
    }
}

/// Decimal text of an integer.
pub open spec fn int_dec(n: int) -> Seq<char> {
    if n < 0 {
        "-"@ + u_dec(-n)
    } else {
        u_dec(n)
    }
}

/// The printed form of a value.
pub open spec fn render(v: Val) -> Seq<char> {
    match v {
        Val::Num(n) => int_dec(n as int),
        Val::Str(s) => s,
        Val::Bool(b) => if b {
            "true"@
        } else {
            "false"@
        },
        Val::Range(s, e) => int_dec(s as int) + ".."@ + int_dec(e as int),
        Val::Void => "void"@,
        Val::Pipe(_) => "<Pipe>"@,
        Val::Struct(name, _) => "<Struct "@ + name + ">"@,
        Val::List(l) => "<List len="@ + int_dec(l.len() as int) + ">"@,
        Val::MapVal(m) => "<Map len="@ + int_dec(m.len() as int) + ">"@,
        Val::Module(_, _) => "<Module>"@,
        Val::ErrorVal(n, _) => "<Error "@ + n + ">"@,
        Val::Moved => "<Moved>"@,
    }
}

/// Lookup in an entry sequence, the newest entry for a key winning.
pub open spec fn assoc_find_v(s: Seq<(Seq<char>, Val)>, k: Seq<char>) -> Option<Val>
    decreases s.len(),
{
    if s.len() == 0 {
        None
    } else if s.last().0 == k {
        Some(s.last().1)
    } else {
        assoc_find_v(s.drop_last(), k)
    }
}

/// The integer value of a numeric literal: its digits up to an optional
/// fractional part, which is dropped. A malformed literal or one beyond
/// the machine range fails.
pub open spec fn num_lit_s(s: Seq<char>) -> Result<i64, Fault> {
    if s.len() == 0 {
        Err(Fault::InvalidNumber)
    } else {
        num_digits_s(s, 0, 0)
    }
}

pub open spec fn num_digits_s(s: Seq<char>, i: int, acc: int) -> Result<i64, Fault>
    decreases s.len() - i,
{
    if i < 0 || i >= s.len() {
        Ok(acc as i64)
    } else if s[i] == '.' {
        Ok(acc as i64)
    } else if !('0' <= s[i] && s[i] <= '9') {
        Err(Fault::InvalidNumber)
    } else {
        let a2 = acc * 10 + (s[i] as u32 - 48);
        if a2 > i64::MAX {
            Err(Fault::NumOverflow)
        } else {
            num_digits_s(s, i + 1, a2)
        }
    }
}

/// Parses a numeric literal as `num_lit_s` states.
pub fn parse_num_lit(s: &String) -> (r: Result<i64, Fault>)
    ensures
        r == num_lit_s(s@),
{
    let n = s.as_str().unicode_len();
    if n == 0 {
        return Err(Fault::InvalidNumber);
    }
    let mut i: usize = 0;
    let mut acc: i64 = 0;
    while i < n
        invariant
            i <= n,
            n == s@.len(),
            0 <= acc,
            num_digits_s(s@, 0, 0) == num_digits_s(s@, i as int, acc as int),
        decreases n - i,
    {
        let c = s.as_str().get_char(i);
        if c == '.' {
            return Ok(acc);
        }
        let cu = c as u32;
        if cu < 48 || cu > 57 {
            return Err(Fault::InvalidNumber);
        }
        let d = (cu - 48) as i64;
        let acc2 = match acc.checked_mul(10) {
            Some(m) => {
                match m.checked_add(d) {
                    Some(a) => Some(a),
                    None => None,
                }
            },
            None => None,
        };
        match acc2 {
            Some(a) => {
                acc = a;
            },
            None => {
                proof {
                    assert(acc * 10 + d > i64::MAX) by (nonlinear_arith)
                        requires
                            0 <= acc,
                            0 <= d <= 9,
                            acc * 10 > i64::MAX || acc * 10 + d > i64::MAX,
                    ;
                }
                return Err(Fault::NumOverflow);
            },
        }
        i = i + 1;
    }
    Ok(acc)
}

fn digit_str(d: u64) -> (r: &'static str)
    requires
        d < 10,
    ensures
        r@ == digit_text(d as int),
{
    if d == 0 {
        "0"
    } else if d == 1 {
        "1"
    } else if d == 2 {
        "2"
    } else if d == 3 {
        "3"
    } else if d == 4 {
        "4"
    } else if d == 5 {
        "5"
    } else if d == 6 {
        "6"
    } else if d == 7 {
        "7"
    } else if d == 8 {
        "8"
    } else {
        "9"
    }
}

fn u64_dec(x: u64) -> (r: String)
    ensures
        r@ == u_dec(x as int),
    decreases x,
{
    if x < 10 {
        String::from_str(digit_str(x))
    } else {
        let mut s = u64_dec(x / 10);
        s.append(digit_str(x % 10));
        s
    }
}

/// Decimal text of a signed machine integer.
pub fn i64_dec(n: i64) -> (r: String)
    ensures
        r@ == int_dec(n as int),
{
    if n >= 0 {
        u64_dec(n as u64)
    } else {
        let mag: u64 = ((-(n + 1)) as u64) + 1;
        proof {
            assert(mag as int == -(n as int));
        }
        let mut s = String::from_str("-");
        let d = u64_dec(mag);
        s.append(d.as_str());
        s
    }
}

impl RuntimeVal {
    /// A deep copy whose view equals this value's view.
    pub fn duplicate(&self) -> (r: Self)
        ensures
            vw(r) == vw(*self),
        decreases rv_size(*self), 1nat,
    {
        match self {
            RuntimeVal::Num(n) => RuntimeVal::Num(*n),
            RuntimeVal::Str(s) => RuntimeVal::Str(s.clone()),
            RuntimeVal::Bool(b) => RuntimeVal::Bool(*b),
            RuntimeVal::Range(a, b) => RuntimeVal::Range(*a, *b),
            RuntimeVal::Void => RuntimeVal::Void,
            RuntimeVal::Pipe(id) => RuntimeVal::Pipe(*id),
            RuntimeVal::Struct(name, fields) => {
                RuntimeVal::Struct(name.clone(), dup_pairs(fields))
            },
            RuntimeVal::List(items) => RuntimeVal::List(dup_items(items)),
            RuntimeVal::MapVal(entries) => RuntimeVal::MapVal(dup_pairs(entries)),
            RuntimeVal::Module(exports, funcs) => {
                RuntimeVal::Module(dup_pairs(exports), dup_funcs(funcs))
            },
            RuntimeVal::ErrorVal(n, d) => RuntimeVal::ErrorVal(n.clone(), d.clone()),
            RuntimeVal::Moved => RuntimeVal::Moved,
        }
    }
}

fn dup_pairs(v: &Vec<(String, RuntimeVal)>) -> (r: Vec<(String, RuntimeVal)>)
    ensures
        r@.len() == v@.len(),
        forall|i: int|
            0 <= i < v@.len() ==> #[trigger] r@[i].0 == v@[i].0 && vw(r@[i].1) == vw(v@[i].1),
        pairs_vw(r@) == pairs_vw(v@),
        exports_vw(r@) == exports_vw(v@),
    decreases rv_pairs_size(v@), 0nat,
{
    let n = v.len();
    let mut out: Vec<(String, RuntimeVal)> = Vec::new();
    let mut i: usize = 0;
    while i < n
        invariant
            i <= n,
            n == v@.len(),
            out@.len() == i,
            forall|j: int|
                0 <= j < i ==> #[trigger] out@[j].0 == v@[j].0 && vw(out@[j].1) == vw(v@[j].1),
        decreases n - i,
    {
        proof {
            lemma_rv_pairs_size_elem(v@, i as int);
        }
        let name = v[i].0.clone();
        let val = v[i].1.duplicate();
        out.push((name, val));
        i = i + 1;
    }
    proof {
        lemma_pairs_vw_congruent(out@, v@);
        lemma_exports_vw_congruent(out@, v@);
    }
    out
}

fn dup_items(v: &Vec<RuntimeVal>) -> (r: Vec<RuntimeVal>)
    ensures
        r@.len() == v@.len(),
        forall|i: int| 0 <= i < v@.len() ==> vw(#[trigger] r@[i]) == vw(v@[i]),
        items_vw(r@) == items_vw(v@),
    decreases rv_items_size(v@), 0nat,
{
    let n = v.len();
    let mut out: Vec<RuntimeVal> = Vec::new();
    let mut i: usize = 0;
    while i < n
        invariant
            i <= n,
            n == v@.len(),
            out@.len() == i,
            forall|j: int| 0 <= j < i ==> vw(#[trigger] out@[j]) == vw(v@[j]),
        decreases n - i,
    {
        proof {
            lemma_rv_items_size_elem(v@, i as int);
        }
        let val = v[i].duplicate();
        out.push(val);
        i = i + 1;
    }
    proof {
        lemma_items_vw_congruent(out@, v@);
    }
    out
}

fn dup_funcs(v: &Vec<(String, FuncEntry)>) -> (r: Vec<(String, FuncEntry)>)
    ensures
        r@.len() == v@.len(),
        forall|i: int| 0 <= i < v@.len() ==> #[trigger] r@[i] == v@[i],
        funcs_vw(r@) == funcs_vw(v@),
{
    let n = v.len();
    let mut out: Vec<(String, FuncEntry)> = Vec::new();
    let mut i: usize = 0;
    while i < n
        invariant
            i <= n,
            n == v@.len(),
            out@.len() == i,
            forall|j: int| 0 <= j < i ==> #[trigger] out@[j] == v@[j],
        decreases n - i,
    {
        let name = v[i].0.clone();
        let f = v[i].1.duplicate();
        out.push((name, f));
        i = i + 1;
    }
    proof {
        assert(out@ =~= v@);
    }
    out
}

/// An element's size is below its sequence's size.
pub proof fn lemma_rv_pairs_size_elem(s: Seq<(String, RuntimeVal)>, i: int)
    requires
        0 <= i < s.len(),
    ensures
        rv_size(s[i].1) < rv_pairs_size(s),
    decreases s.len(),
{
    if i > 0 {
        lemma_rv_pairs_size_elem(s.drop_first(), i - 1);
    }
}

proof fn lemma_rv_items_size_elem(s: Seq<RuntimeVal>, i: int)
    requires
        0 <= i < s.len(),
    ensures
        rv_size(s[i]) < rv_items_size(s),
    decreases s.len(),
{
    if i > 0 {
        lemma_rv_items_size_elem(s.drop_first(), i - 1);
    }
}

/// Pointwise view-equal pair sequences have equal views.
proof fn lemma_pairs_vw_congruent(a: Seq<(String, RuntimeVal)>, b: Seq<(String, RuntimeVal)>)
    requires
        a.len() == b.len(),
        forall|i: int| 0 <= i < a.len() ==> #[trigger] a[i].0 == b[i].0 && vw(a[i].1) == vw(b[i].1),
    ensures
        pairs_vw(a) == pairs_vw(b),
    decreases a.len(),
{
    if a.len() > 0 {
        lemma_pairs_vw_congruent(a.drop_last(), b.drop_last());
        assert(pairs_vw(a) =~= pairs_vw(b));
    }
}

proof fn lemma_exports_vw_congruent(a: Seq<(String, RuntimeVal)>, b: Seq<(String, RuntimeVal)>)
    requires
        a.len() == b.len(),
        forall|i: int| 0 <= i < a.len() ==> #[trigger] a[i].0 == b[i].0 && vw(a[i].1) == vw(b[i].1),
    ensures
        exports_vw(a) == exports_vw(b),
    decreases a.len(),
{
    if a.len() > 0 {
        lemma_exports_vw_congruent(a.drop_last(), b.drop_last());
        assert(exports_vw(a) =~= exports_vw(b));
    }
}

proof fn lemma_items_vw_congruent(a: Seq<RuntimeVal>, b: Seq<RuntimeVal>)
    requires
        a.len() == b.len(),
        forall|i: int| 0 <= i < a.len() ==> vw(#[trigger] a[i]) == vw(b[i]),
    ensures
        items_vw(a) == items_vw(b),
    decreases a.len(),
{
    if a.len() > 0 {
        lemma_items_vw_congruent(a.drop_last(), b.drop_last());
        assert(items_vw(a) =~= items_vw(b));
    }
}

proof fn lemma_assoc_find_suffix(s: Seq<(Seq<char>, Val)>, i: int, k: Seq<char>)
    requires
        0 <= i <= s.len(),
        forall|j: int| i <= j < s.len() ==> s[j].0 != k,
    ensures
        assoc_find_v(s, k) == assoc_find_v(s.take(i), k),
    decreases s.len(),
{
    if i < s.len() {
        lemma_assoc_find_suffix(s.drop_last(), i, k);
        assert(s.drop_last().take(i) =~= s.take(i));
    } else {
        assert(s.take(i) =~= s);
    }
}

proof fn lemma_assoc_find_at(s: Seq<(Seq<char>, Val)>, i: int, k: Seq<char>)
    requires
        0 <= i < s.len(),
        s[i].0 == k,
        forall|j: int| i < j < s.len() ==> s[j].0 != k,
    ensures
        assoc_find_v(s, k) == Some(s[i].1),
    decreases s.len(),
{
    lemma_assoc_find_suffix(s, i + 1, k);
    assert(s.take(i + 1).last() == s[i]);
}

/// Finds the newest entry for a field name.
pub fn find_field<'a>(s: &'a Vec<(String, RuntimeVal)>, k: &String) -> (r: Option<&'a RuntimeVal>)
    ensures
        match r {
            Some(v) => assoc_find_v(pairs_vw(s@), k@) == Some(vw(*v)),
            None => assoc_find_v(pairs_vw(s@), k@) is None,
        },
{
    proof {
        lemma_pairs_vw(s@);
    }
    let n = s.len();
    let mut i = n;
    loop
        invariant
            i <= n,
            n == s@.len(),
            pairs_vw(s@).len() == n,
            forall|j: int|
                0 <= j < s@.len() ==> #[trigger] pairs_vw(s@)[j] == (s@[j].0@, vw(s@[j].1)),
            forall|j: int| i <= j < n ==> s@[j].0@ != k@,
        decreases i,
    {
        if i == 0 {
            proof {
                lemma_assoc_find_suffix(pairs_vw(s@), 0, k@);
                assert(pairs_vw(s@).take(0) =~= Seq::<(Seq<char>, Val)>::empty());
            }
            return None;
        }
        i = i - 1;
        if s[i].0 == *k {
            proof {
                lemma_assoc_find_at(pairs_vw(s@), i as int, k@);
            }
            return Some(&s[i].1);
        }
    }
}

proof fn lemma_exports_found(s: Seq<(String, RuntimeVal)>, i: int, k: Seq<char>)
    requires
        0 <= i < s.len(),
        s[i].0@ == k,
        forall|j: int| i < j < s.len() ==> s[j].0@ != k,
    ensures
        exports_vw(s).contains_key(k),
        exports_vw(s)[k] == vw(s[i].1),
    decreases s.len(),
{
    if i == s.len() - 1 {
    } else {
        lemma_exports_found(s.drop_last(), i, k);
    }
}

proof fn lemma_exports_absent(s: Seq<(String, RuntimeVal)>, k: Seq<char>)
    requires
        forall|j: int| 0 <= j < s.len() ==> s[j].0@ != k,
    ensures
        !exports_vw(s).contains_key(k),
    decreases s.len(),
{
    if s.len() > 0 {
        lemma_exports_absent(s.drop_last(), k);
    }
}

/// Finds a module export.
pub fn exports_find<'a>(s: &'a Vec<(String, RuntimeVal)>, k: &String) -> (r: Option<
    &'a RuntimeVal,
>)
    ensures
        match r {
            Some(v) => exports_vw(s@).contains_key(k@) && exports_vw(s@)[k@] == vw(*v),
            None => !exports_vw(s@).contains_key(k@),
        },
{
    let n = s.len();
    let mut i = n;
    loop
        invariant
            i <= n,
            n == s@.len(),
            forall|j: int| i <= j < n ==> s@[j].0@ != k@,
        decreases i,
    {
        if i == 0 {
            proof {
                lemma_exports_absent(s@, k@);
            }
            return None;
        }
        i = i - 1;
        if s[i].0 == *k {
            proof {
                lemma_exports_found(s@, i as int, k@);
            }
            return Some(&s[i].1);
        }
    }
}

proof fn lemma_funcs_found(s: Seq<(String, FuncEntry)>, i: int, k: Seq<char>)
    requires
        0 <= i < s.len(),
        s[i].0@ == k,
        forall|j: int| i < j < s.len() ==> s[j].0@ != k,
    ensures
        funcs_vw(s).contains_key(k),
        funcs_vw(s)[k] == s[i].1,
    decreases s.len(),
{
    if i == s.len() - 1 {
    } else {
        lemma_funcs_found(s.drop_last(), i, k);
    }
}

proof fn lemma_funcs_absent(s: Seq<(String, FuncEntry)>, k: Seq<char>)
    requires
        forall|j: int| 0 <= j < s.len() ==> s[j].0@ != k,
    ensures
        !funcs_vw(s).contains_key(k),
    decreases s.len(),
{
    if s.len() > 0 {
        lemma_funcs_absent(s.drop_last(), k);
    }
}

/// Finds a function in a module's function table.
pub fn funcs_find<'a>(s: &'a Vec<(String, FuncEntry)>, k: &String) -> (r: Option<&'a FuncEntry>)
    ensures
        match r {
            Some(e) => funcs_vw(s@).contains_key(k@) && funcs_vw(s@)[k@] == *e,
            None => !funcs_vw(s@).contains_key(k@),
        },
{
    let n = s.len();
    let mut i = n;
    loop
        invariant
            i <= n,
            n == s@.len(),
            forall|j: int| i <= j < n ==> s@[j].0@ != k@,
        decreases i,
    {
        if i == 0 {
            proof {
                lemma_funcs_absent(s@, k@);
            }
            return None;
        }
        i = i - 1;
        if s[i].0 == *k {
            proof {
                lemma_funcs_found(s@, i as int, k@);
            }
            return Some(&s[i].1);
        }
    }
}

impl RuntimeVal {
    /// Source-language equality, as `val_eq` states.
    #[verifier::rlimit(100)]
    pub fn eq_val(&self, other: &RuntimeVal) -> (r: bool)
        ensures
            r == val_eq(vw(*self), vw(*other)),
        decreases rv_size(*self), 1nat,
    {
        match (self, other) {
            (RuntimeVal::Num(x), RuntimeVal::Num(y)) => *x == *y,
            (RuntimeVal::Str(x), RuntimeVal::Str(y)) => *x == *y,
            (RuntimeVal::Bool(x), RuntimeVal::Bool(y)) => *x == *y,
            (RuntimeVal::Range(s1, e1), RuntimeVal::Range(s2, e2)) => *s1 == *s2 && *e1 == *e2,
            (RuntimeVal::Void, RuntimeVal::Void) => true,
            (RuntimeVal::Struct(n1, f1), RuntimeVal::Struct(n2, f2)) => {
                if *n1 == *n2 {
                    eq_pairs(f1.as_slice(), f2.as_slice())
                } else {
                    false
                }
            },
            (RuntimeVal::List(l1), RuntimeVal::List(l2)) => eq_items(l1.as_slice(), l2.as_slice()),
            (RuntimeVal::MapVal(m1), RuntimeVal::MapVal(m2)) => {
                eq_pairs(m1.as_slice(), m2.as_slice())
            },
            _ => {
                proof {
                    assert(!val_eq(vw(*self), vw(*other)));
                }
                false
            },
        }
    }
}

/// Whether any entry of the slice carries the key.
fn key_present(s: &[(String, RuntimeVal)], k: &String) -> (r: bool)
    ensures
        r == assoc_keys(pairs_vw(s@)).contains(k@),
{
    proof {
        lemma_pairs_vw(s@);
    }
    let n = s.len();
    let mut i: usize = 0;
    while i < n
        invariant
            i <= n,
            n == s@.len(),
            pairs_vw(s@).len() == n,
            forall|j: int|
                0 <= j < s@.len() ==> #[trigger] pairs_vw(s@)[j] == (s@[j].0@, vw(s@[j].1)),
            forall|j: int| 0 <= j < i ==> s@[j].0@ != k@,
        decreases n - i,
    {
        if slice_index_get_local(s, i).0 == *k {
            proof {
                lemma_keys_index(pairs_vw(s@), i as int);
            }
            return true;
        }
        i = i + 1;
    }
    proof {
        lemma_keys_absent(pairs_vw(s@), k@);
    }
    false
}

/// The index of the newest entry for a key in the slice, if any.
fn find_pair_idx(s: &[(String, RuntimeVal)], k: &String) -> (r: Option<usize>)
    ensures
        match r {
            Some(i) => i < s@.len() && s@[i as int].0@ == k@ && assoc_find_v(pairs_vw(s@), k@)
                == Some(vw(s@[i as int].1)),
            None => assoc_find_v(pairs_vw(s@), k@) is None,
        },
{
    proof {
        lemma_pairs_vw(s@);
    }
    let n = s.len();
    let mut i = n;
    loop
        invariant
            i <= n,
            n == s@.len(),
            pairs_vw(s@).len() == n,
            forall|j: int|
                0 <= j < s@.len() ==> #[trigger] pairs_vw(s@)[j] == (s@[j].0@, vw(s@[j].1)),
            forall|j: int| i <= j < n ==> s@[j].0@ != k@,
        decreases i,
    {
        if i == 0 {
            proof {
                lemma_assoc_find_suffix(pairs_vw(s@), 0, k@);
                assert(pairs_vw(s@).take(0) =~= Seq::<(Seq<char>, Val)>::empty());
            }
            return None;
        }
        i = i - 1;
        if slice_index_get_local(s, i).0 == *k {
            proof {
                lemma_assoc_find_at(pairs_vw(s@), i as int, k@);
            }
            return Some(i);
        }
    }
}

#[verifier::rlimit(100)]
fn eq_pairs(a: &[(String, RuntimeVal)], b: &[(String, RuntimeVal)]) -> (r: bool)
    ensures
        r == assoc_equiv(pairs_vw(a@), pairs_vw(b@)),
    decreases rv_pairs_size(a@), 2nat,
{
    proof {
        lemma_pairs_vw(a@);
        lemma_pairs_vw(b@);
    }
    let ghost va = pairs_vw(a@);
    let ghost vb = pairs_vw(b@);
    let n = a.len();
    let m = b.len();
    let mut i: usize = 0;
    while i < n
        invariant
            i <= n,
            n == a@.len(),
            va == pairs_vw(a@),
            vb == pairs_vw(b@),
            va.len() == n,
            forall|j: int| 0 <= j < a@.len() ==> #[trigger] va[j] == (a@[j].0@, vw(a@[j].1)),
            forall|j: int| 0 <= j < i ==> assoc_keys(vb).contains(#[trigger] va[j].0),
        decreases n - i,
    {
        if !key_present(b, &slice_index_get_local(a, i).0) {
            proof {
                lemma_keys_index(va, i as int);
            }
            return false;
        }
        i = i + 1;
    }
    let mut j: usize = 0;
    while j < m
        invariant
            j <= m,
            m == b@.len(),
            va == pairs_vw(a@),
            vb == pairs_vw(b@),
            vb.len() == m,
            n == a@.len(),
            forall|q: int| 0 <= q < b@.len() ==> #[trigger] vb[q] == (b@[q].0@, vw(b@[q].1)),
            forall|q: int| 0 <= q < n ==> assoc_keys(vb).contains(#[trigger] va[q].0),
            forall|q: int| 0 <= q < j ==> assoc_keys(va).contains(#[trigger] vb[q].0),
        decreases m - j,
    {
        if !key_present(a, &slice_index_get_local(b, j).0) {
            proof {
                lemma_keys_index(vb, j as int);
            }
            return false;
        }
        j = j + 1;
    }
    proof {
        assert forall|k: Seq<char>| assoc_keys(va).contains(k) implies assoc_keys(vb).contains(
            k,
        ) by {
            lemma_keys_to_index(va, k);
            let i0 = choose|i0: int| 0 <= i0 < va.len() && va[i0].0 == k;
            assert(assoc_keys(vb).contains(va[i0].0));
        }
        assert forall|k: Seq<char>| assoc_keys(vb).contains(k) implies assoc_keys(va).contains(
            k,
        ) by {
            lemma_keys_to_index(vb, k);
            let j0 = choose|j0: int| 0 <= j0 < vb.len() && vb[j0].0 == k;
            assert(assoc_keys(va).contains(vb[j0].0));
        }
        assert(assoc_keys(va) =~= assoc_keys(vb));
        assert(va.take(n as int) =~= va);
    }
    let mut t = n;
    while t > 0
        invariant
            t <= n,
            n == a@.len(),
            va == pairs_vw(a@),
            vb == pairs_vw(b@),
            va.len() == n,
            assoc_keys(va) == assoc_keys(vb),
            forall|q: int| 0 <= q < a@.len() ==> #[trigger] va[q] == (a@[q].0@, vw(a@[q].1)),
            assoc_entries_eq(va, va, vb) == assoc_entries_eq(va.take(t as int), va, vb),
        decreases t,
    {
        t = t - 1;
        let k = &slice_index_get_local(a, t).0;
        proof {
            assert(va.take(t + 1).last() == va[t as int]);
            assert(va.take(t + 1).drop_last() =~= va.take(t as int));
        }
        let xi = match find_pair_idx(a, k) {
            Some(xi) => xi,
            None => {
                proof {
                    lemma_entry_finds(va, t as int);
                }
                return false;
            },
        };
        let yi = match find_pair_idx(b, k) {
            Some(yi) => yi,
            None => {
                return false;
            },
        };
        proof {
            lemma_rv_pairs_size_elem(a@, xi as int);
        }
        if !slice_index_get_local(a, xi).1.eq_val(&slice_index_get_local(b, yi).1) {
            return false;
        }
    }
    proof {
        assert(va.take(0) =~= Seq::<(Seq<char>, Val)>::empty());
    }
    true
}

#[verifier::rlimit(100)]
fn eq_items(a: &[RuntimeVal], b: &[RuntimeVal]) -> (r: bool)
    ensures
        r == val_items_eq(items_vw(a@), items_vw(b@)),
    decreases rv_items_size(a@), 2nat,
{
    proof {
        lemma_items_vw(a@);
        lemma_items_vw(b@);
    }
    if a.len() != b.len() {
        return false;
    }
    if a.len() == 0 {
        return true;
    }
    let xa = slice_index_get_local(a, 0);
    let xb = slice_index_get_local(b, 0);
    if !xa.eq_val(xb) {
        return false;
    }
    let ra = vstd::slice::slice_subrange(a, 1, a.len());
    let rb = vstd::slice::slice_subrange(b, 1, b.len());
    let r = eq_items(ra, rb);
    proof {
        lemma_items_vw(ra@);
        lemma_items_vw(rb@);
        assert(items_vw(a@).drop_first() =~= items_vw(ra@));
        assert(items_vw(b@).drop_first() =~= items_vw(rb@));
    }
    r
}

fn slice_index_get_local<'a, T>(s: &'a [T], i: usize) -> (out: &'a T)
    requires
        i < s@.len(),
    ensures
        *out == s@[i as int],
{
    vstd::slice::slice_index_get(s, i)
}

fn str_lex_cmp(a: &String, b: &String) -> (r: i32)
    ensures
        r as int == lex_cmp(a@, b@),
{
    let na = a.as_str().unicode_len();
    let nb = b.as_str().unicode_len();
    let mut i: usize = 0;
    proof {
        assert(a@.skip(0) =~= a@);
        assert(b@.skip(0) =~= b@);
    }
    loop
        invariant
            i <= na,
            i <= nb,
            na == a@.len(),
            nb == b@.len(),
            lex_cmp(a@, b@) == lex_cmp(a@.skip(i as int), b@.skip(i as int)),
            forall|j: int| 0 <= j < i ==> a@[j] == b@[j],
        decreases na - i,
    {
        if i == na && i == nb {
            proof {
                assert(a@.skip(i as int).len() == 0 && b@.skip(i as int).len() == 0);
            }
            return 0;
        }
        if i == na {
            proof {
                assert(a@.skip(i as int).len() == 0 && b@.skip(i as int).len() > 0);
            }
            return -1;
        }
        if i == nb {
            proof {
                assert(b@.skip(i as int).len() == 0 && a@.skip(i as int).len() > 0);
            }
            return 1;
        }
        let ca = a.as_str().get_char(i);
        let cb = b.as_str().get_char(i);
        proof {
            assert(a@.skip(i as int).first() == a@[i as int]);
            assert(b@.skip(i as int).first() == b@[i as int]);
        }
        if (ca as u32) < (cb as u32) {
            return -1;
        }
        if (ca as u32) > (cb as u32) {
            return 1;
        }
        proof {
            assert(a@.skip(i as int).drop_first() =~= a@.skip(i + 1));
            assert(b@.skip(i as int).drop_first() =~= b@.skip(i + 1));
        }
        i = i + 1;
    }
}

impl RuntimeVal {
    /// The partial order of the source language, as `val_ord` states.
    pub fn cmp_val(&self, other: &RuntimeVal) -> (r: Option<i32>)
        ensures
            match r {
                Some(o) => val_ord(vw(*self), vw(*other)) == Some(o as int),
                None => val_ord(vw(*self), vw(*other)) is None,
            },
    {
        match (self, other) {
            (RuntimeVal::Num(x), RuntimeVal::Num(y)) => {
                if *x < *y {
                    Some(-1)
                } else if *x > *y {
                    Some(1)
                } else {
                    Some(0)
                }
            },
            (RuntimeVal::Str(x), RuntimeVal::Str(y)) => Some(str_lex_cmp(x, y)),
            _ => None,
        }
    }

    /// Truthiness, as `truthy` states.
    pub fn is_truthy(&self) -> (r: bool)
        ensures
            r == truthy(vw(*self)),
    {
        match self {
            RuntimeVal::Bool(b) => *b,
            RuntimeVal::Num(n) => *n != 0,
            _ => false,
        }
    }

    /// The printed form, as `render` states.
    pub fn render_val(&self) -> (r: String)
        ensures
            r@ == render(vw(*self)),
    {
        match self {
            RuntimeVal::Num(n) => i64_dec(*n),
            RuntimeVal::Str(s) => s.clone(),
            RuntimeVal::Bool(b) => {
                if *b {
                    String::from_str("true")
                } else {
                    String::from_str("false")
                }
            },
            RuntimeVal::Range(s, e) => {
                let mut out = i64_dec(*s);
                out.append("..");
                let et = i64_dec(*e);
                out.append(et.as_str());
                out
            },
            RuntimeVal::Void => String::from_str("void"),
            RuntimeVal::Pipe(_) => String::from_str("<Pipe>"),
            RuntimeVal::Struct(name, _) => {
                let mut out = String::from_str("<Struct ");
                out.append(name.as_str());
                out.append(">");
                out
            },
            RuntimeVal::List(l) => {
                let mut out = String::from_str("<List len=");
                let n = u64_dec(l.len() as u64);
                out.append(n.as_str());
                out.append(">");
                proof {
                    lemma_items_vw(l@);
                }
                out
            },
            RuntimeVal::MapVal(m) => {
                let mut out = String::from_str("<Map len=");
                let n = u64_dec(m.len() as u64);
                out.append(n.as_str());
                out.append(">");
                proof {
                    lemma_pairs_vw(m@);
                }
                out
            },
            RuntimeVal::Module(_, _) => String::from_str("<Module>"),
            RuntimeVal::ErrorVal(n, _) => {
                let mut out = String::from_str("<Error ");
                out.append(n.as_str());
                out.append(">");
                out
            },
            RuntimeVal::Moved => String::from_str("<Moved>"),
        }
    }
}

} // verus!
