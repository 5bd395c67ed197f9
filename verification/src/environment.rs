//! The scope chain. Scopes live in one arena, each holding its bindings and
//! the index of its enclosing scope; navigation is purely upward. A closure
//! keeps its defining scope reachable by index, so scopes outlive the block
//! that created them. `define` writes only the given scope; `get` and
//! `assign` walk outward until the name is found or the chain ends.
use vstd::prelude::*;

use crate::error::{SpecErr, ViskumError};
use crate::strings::strcat;
use crate::token::Token;
use crate::value::{Callable, CallableKind, Literal, SpecVal};

verus! {

/// A value as a scope stores it, with its mutability flag.
#[derive(Debug)]
pub struct EnvironmentValue {
    value: Literal,
    mutable: bool,
}

impl EnvironmentValue {
    /// Ghost image: the stored value.
    pub closed spec fn model(&self) -> SpecVal {
        self.value.model()
    }

    pub fn new(value: Literal, mutable: bool) -> (r: EnvironmentValue)
        ensures
            r.model() == value.model(),
    {
        EnvironmentValue { value, mutable }
    }

    /// A copy of the stored value.
    pub fn get_value(&self) -> (r: Literal)
        ensures
            r.model() == self.model(),
    {
        self.value.duplicate()
    }
}

/// One named binding in a scope.
#[derive(Debug)]
struct Binding {
    name: String,
    value: EnvironmentValue,
}

/// Ghost image of one scope: its bindings in insertion order and the index
/// of its enclosing scope.
pub struct SpecScope {
    pub vals: Seq<(Seq<char>, SpecVal)>,
    pub parent: Option<int>,
}

/// The first binding of the name, scanning the scope in order.
pub open spec fn assoc_get(vals: Seq<(Seq<char>, SpecVal)>, name: Seq<char>) -> Option<SpecVal>
    decreases vals.len(),
{
    if vals.len() == 0 {
        None
    } else if vals[0].0 == name {
        Some(vals[0].1)
    } else {
        assoc_get(vals.skip(1), name)
    }
}

/// The scope after binding the name: the first binding of the name is
/// replaced, or a new one is appended.
pub open spec fn assoc_set(
    vals: Seq<(Seq<char>, SpecVal)>,
    name: Seq<char>,
    v: SpecVal,
) -> Seq<(Seq<char>, SpecVal)>
    decreases vals.len(),
{
    if vals.len() == 0 {
        seq![(name, v)]
    } else if vals[0].0 == name {
        seq![(name, v)] + vals.skip(1)
    } else {
        seq![vals[0]] + assoc_set(vals.skip(1), name, v)
    }
}

/// One scope: its bindings and the index of its enclosing scope in the
/// arena, if it has one.
#[derive(Debug)]
pub struct Environment {
    values: Vec<Binding>,
    enclosing: Option<usize>,
}

impl Environment {
    /// Ghost image of this scope.
    pub closed spec fn model(&self) -> SpecScope {
        SpecScope {
            vals: self.values@.map(|i: int, b: Binding| (b.name@, b.value.model())),
            parent: match self.enclosing {
                Some(p) => Some(p as int),
                None => None,
            },
        }
    }

    /// A root scope with no parent and no bindings.
    pub fn new() -> (r: Environment)
        ensures
            r.model().vals == Seq::<(Seq<char>, SpecVal)>::empty(),
            r.model().parent is None,
    {
        let r = Environment { values: Vec::new(), enclosing: None };
        proof {
            assert(r.model().vals =~= Seq::<(Seq<char>, SpecVal)>::empty());
        }
        r
    }

    /// An empty scope whose parent is the scope at the given arena index.
    pub fn new_with_enclosing(environment: usize) -> (r: Environment)
        ensures
            r.model().vals == Seq::<(Seq<char>, SpecVal)>::empty(),
            r.model().parent == Some(environment as int),
    {
        let r = Environment { values: Vec::new(), enclosing: Some(environment) };
        proof {
            assert(r.model().vals =~= Seq::<(Seq<char>, SpecVal)>::empty());
        }
        r
    }

    /// Binds a name in this scope alone: replaces its first binding or
    /// appends a new one.
    pub fn define(&mut self, token: &Token, environment_value: EnvironmentValue) -> (r: Result<
        Literal,
        ViskumError,
    >)
        ensures
            final(self).model().vals == assoc_set(
                old(self).model().vals,
                token.lexeme@,
                environment_value.model(),
            ),
            final(self).model().parent == old(self).model().parent,
            r matches Ok(v) && v.model() == environment_value.model(),
    {
        let result = environment_value.get_value();
        self.define_named(&token.lexeme, environment_value);
        Ok(result)
    }

    /// Binds a function value under its name in this scope alone.
    pub fn define_function(&mut self, function_name: &String, viskum_callable: Literal)
        ensures
            final(self).model().vals == assoc_set(
                old(self).model().vals,
                function_name@,
                viskum_callable.model(),
            ),
            final(self).model().parent == old(self).model().parent,
    {
        self.define_named(function_name, EnvironmentValue::new(viskum_callable, false));
    }

    fn define_named(&mut self, name: &String, environment_value: EnvironmentValue)
        ensures
            final(self).model().vals == assoc_set(
                old(self).model().vals,
                name@,
                environment_value.model(),
            ),
            final(self).model().parent == old(self).model().parent,
    {
        let ghost vals0 = self.model().vals;
        let mut i: usize = 0;
        while i < self.values.len()
            invariant
                i <= self.values@.len(),
                *self == *old(self),
                vals0 == self.model().vals,
                forall|j: int| 0 <= j < i ==> #[trigger] vals0[j].0 != name@,
            decreases self.values@.len() - i,
        {
            if self.values[i].name.eq(name) {
                assert(vals0[i as int].0 == name@);
                let slot = &mut self.values[i];
                slot.value = environment_value;
                proof {
                    lemma_assoc_set_found(vals0, name@, environment_value.model(), i as int);
                    assert(self.model().vals =~= vals0.update(
                        i as int,
                        (name@, environment_value.model()),
                    ));
                }
                return ;
            }
            i = i + 1;
        }
        self.values.push(Binding { name: name.clone(), value: environment_value });
        proof {
            lemma_assoc_set_missing(vals0, name@, environment_value.model());
            assert(self.model().vals =~= vals0.push((name@, environment_value.model())));
        }
    }

    /// The value bound to the name in this scope alone, if any.
    pub fn get_local(&self, name: &String) -> (r: Option<Literal>)
        ensures
            match assoc_get(self.model().vals, name@) {
                Some(v) => r matches Some(x) && x.model() == v,
                None => r is None,
            },
    {
        let ghost vals0 = self.model().vals;
        let mut i: usize = 0;
        while i < self.values.len()
            invariant
                i <= self.values@.len(),
                vals0 == self.model().vals,
                forall|j: int| 0 <= j < i ==> #[trigger] vals0[j].0 != name@,
            decreases self.values@.len() - i,
        {
            if self.values[i].name.eq(name) {
                proof {
                    lemma_assoc_get_found(vals0, name@, i as int);
                }
                return Some(self.values[i].value.get_value());
            }
            i = i + 1;
        }
        proof {
            lemma_assoc_get_missing(vals0, name@);
        }
        None
    }

    /// The index of this scope's parent, if it has one.
    pub fn parent(&self) -> (r: Option<usize>)
        ensures
            r matches Some(p) ==> self.model().parent == Some(p as int),
            r is None ==> self.model().parent is None,
    {
        self.enclosing
    }
}

proof fn lemma_assoc_get_found(vals: Seq<(Seq<char>, SpecVal)>, name: Seq<char>, i: int)
    requires
        0 <= i < vals.len(),
        vals[i].0 == name,
        forall|j: int| 0 <= j < i ==> #[trigger] vals[j].0 != name,
    ensures
        assoc_get(vals, name) == Some(vals[i].1),
    decreases i,
{
    if i > 0 {
        assert(vals.skip(1)[i - 1] == vals[i]);
        assert forall|j: int| 0 <= j < i - 1 implies #[trigger] vals.skip(1)[j].0 != name by {
            assert(vals[j + 1].0 != name);
        }
        lemma_assoc_get_found(vals.skip(1), name, i - 1);
    }
}

proof fn lemma_assoc_get_missing(vals: Seq<(Seq<char>, SpecVal)>, name: Seq<char>)
    requires
        forall|j: int| 0 <= j < vals.len() ==> #[trigger] vals[j].0 != name,
    ensures
        assoc_get(vals, name) is None,
    decreases vals.len(),
{
    if vals.len() > 0 {
        assert forall|j: int| 0 <= j < vals.len() - 1 implies #[trigger] vals.skip(1)[j].0
            != name by {
            assert(vals[j + 1].0 != name);
        }
        lemma_assoc_get_missing(vals.skip(1), name);
    }
}

proof fn lemma_assoc_set_found(vals: Seq<(Seq<char>, SpecVal)>, name: Seq<char>, v: SpecVal, i: int)
    requires
        0 <= i < vals.len(),
        vals[i].0 == name,
        forall|j: int| 0 <= j < i ==> #[trigger] vals[j].0 != name,
    ensures
        assoc_set(vals, name, v) == vals.update(i, (name, v)),
    decreases i,
{
    if i == 0 {
        assert(assoc_set(vals, name, v) == seq![(name, v)] + vals.skip(1));
        assert(seq![(name, v)] + vals.skip(1) =~= vals.update(0, (name, v)));
    } else {
        assert(vals.skip(1)[i - 1] == vals[i]);
        assert forall|j: int| 0 <= j < i - 1 implies #[trigger] vals.skip(1)[j].0 != name by {
            assert(vals[j + 1].0 != name);
        }
        lemma_assoc_set_found(vals.skip(1), name, v, i - 1);
        assert(seq![vals[0]] + vals.skip(1).update(i - 1, (name, v)) =~= vals.update(i, (name, v)));
    }
}

proof fn lemma_assoc_set_missing(vals: Seq<(Seq<char>, SpecVal)>, name: Seq<char>, v: SpecVal)
    requires
        forall|j: int| 0 <= j < vals.len() ==> #[trigger] vals[j].0 != name,
    ensures
        assoc_set(vals, name, v) == vals.push((name, v)),
    decreases vals.len(),
{
    if vals.len() == 0 {
        assert(assoc_set(vals, name, v) =~= vals.push((name, v)));
    } else {
        assert forall|j: int| 0 <= j < vals.len() - 1 implies #[trigger] vals.skip(1)[j].0
            != name by {
            assert(vals[j + 1].0 != name);
        }
        lemma_assoc_set_missing(vals.skip(1), name, v);
        assert(seq![vals[0]] + vals.skip(1).push((name, v)) =~= vals.push((name, v)));
    }
}

/// Ghost image of the whole arena.
pub open spec fn arena_model(scopes: Seq<Environment>) -> Seq<SpecScope> {
    scopes.map(|i: int, e: Environment| e.model())
}

/// A scope at position `i` may only point at an earlier scope.
pub open spec fn scope_parent_ok(s: SpecScope, i: int) -> bool {
    match s.parent {
        Some(p) => 0 <= p < i,
        None => true,
    }
}

/// Every scope's parent comes before it in the arena, so walking parents
/// terminates.
pub open spec fn wf_arena(envs: Seq<SpecScope>) -> bool {
    forall|i: int| 0 <= i < envs.len() ==> scope_parent_ok(#[trigger] envs[i], i)
}

/// An arena stays well formed when no scope's parent changes.
pub proof fn lemma_wf_same_parents(a0: Seq<SpecScope>, a1: Seq<SpecScope>)
    requires
        wf_arena(a0),
        a1.len() == a0.len(),
        forall|i: int| 0 <= i < a1.len() ==> (#[trigger] a1[i]).parent == a0[i].parent,
    ensures
        wf_arena(a1),
{
    assert forall|i: int| 0 <= i < a1.len() implies scope_parent_ok(#[trigger] a1[i], i) by {
        assert(scope_parent_ok(a0[i], i));
    }
}

/// An arena stays well formed when a scope pointing into it is appended.
pub proof fn lemma_wf_push(a: Seq<SpecScope>, s: SpecScope)
    requires
        wf_arena(a),
        match s.parent {
            Some(p) => 0 <= p < a.len(),
            None => true,
        },
    ensures
        wf_arena(a.push(s)),
{
    assert forall|i: int| 0 <= i < a.push(s).len() implies scope_parent_ok(
        #[trigger] a.push(s)[i],
        i,
    ) by {
        if i < a.len() {
            assert(a.push(s)[i] == a[i]);
            assert(scope_parent_ok(a[i], i));
        } else {
            assert(a.push(s)[i] == s);
        }
    }
}

/// The value bound to the name, searching from the scope at `i` outward
/// through its parents.
pub open spec fn lookup(envs: Seq<SpecScope>, i: int, name: Seq<char>) -> Option<SpecVal>
    decreases (if 0 <= i { i + 1 } else { 0 }),
{
    if !(0 <= i < envs.len()) {
        None
    } else {
        match assoc_get(envs[i].vals, name) {
            Some(v) => Some(v),
            None => match envs[i].parent {
                Some(p) => if 0 <= p < i {
                    lookup(envs, p, name)
                } else {
                    None
                },
                None => None,
            },
        }
    }
}

/// The arena after assigning to the name, searching from the scope at `i`
/// outward; `None` where the name is bound nowhere on the chain.
pub open spec fn assign_env(envs: Seq<SpecScope>, i: int, name: Seq<char>, v: SpecVal) -> Option<
    Seq<SpecScope>,
>
    decreases (if 0 <= i { i + 1 } else { 0 }),
{
    if !(0 <= i < envs.len()) {
        None
    } else {
        if assoc_get(envs[i].vals, name) is Some {
            Some(
                envs.update(
                    i,
                    SpecScope { vals: assoc_set(envs[i].vals, name, v), parent: envs[i].parent },
                ),
            )
        } else {
            match envs[i].parent {
                Some(p) => if 0 <= p < i {
                    assign_env(envs, p, name, v)
                } else {
                    None
                },
                None => None,
            }
        }
    }
}

/// The message a read or write of an unbound name reports.
pub open spec fn undefined_variable_msg(name: Seq<char>) -> Seq<char> {
    "Undefined variable '"@ + name + "'"@
}

fn undefined_variable_error(token: &Token) -> (r: ViskumError)
    ensures
        r.model() == (SpecErr {
            msg: undefined_variable_msg(token.lexeme@),
            line: token.line as int,
            lexeme: token.lexeme@,
            file: "file.vs"@,
            abort: None,
        }),
{
    let mut msg = "Undefined variable '".to_owned();
    msg = strcat(msg, token.lexeme.as_str());
    msg = strcat(msg, "'");
    ViskumError::new_dynamic(msg, token.duplicate(), "file.vs")
}

/// Reads the name out of the scope chain, searching from the scope at `idx`
/// outward; an unbound name is a diagnostic.
pub fn env_get(scopes: &Vec<Environment>, idx: usize, token: &Token) -> (r: Result<
    Literal,
    ViskumError,
>)
    requires
        wf_arena(arena_model(scopes@)),
        idx < scopes@.len(),
    ensures
        match lookup(arena_model(scopes@), idx as int, token.lexeme@) {
            Some(v) => r matches Ok(x) && x.model() == v,
            None => r matches Err(e) && e.model() == (SpecErr {
                msg: undefined_variable_msg(token.lexeme@),
                line: token.line as int,
                lexeme: token.lexeme@,
                file: "file.vs"@,
                abort: None,
            }),
        },
    decreases idx,
{
    match scopes[idx].get_local(&token.lexeme) {
        Some(v) => Ok(v),
        None => {
            let parent = scopes[idx].parent();
            match parent {
                Some(p) => env_get(scopes, p, token),
                None => Err(undefined_variable_error(token)),
            }
        },
    }
}

/// Writes the name in the scope that already binds it, searching from the
/// scope at `idx` outward; an unbound name is a diagnostic and changes
/// nothing.
pub fn env_assign(
    scopes: &mut Vec<Environment>,
    idx: usize,
    token: &Token,
    environment_value: EnvironmentValue,
) -> (r: Result<Literal, ViskumError>)
    requires
        wf_arena(arena_model(old(scopes)@)),
        idx < old(scopes)@.len(),
    ensures
        match assign_env(
            arena_model(old(scopes)@),
            idx as int,
            token.lexeme@,
            environment_value.model(),
        ) {
            Some(envs) => arena_model(final(scopes)@) == envs && (r matches Ok(x) && x.model()
                == environment_value.model()),
            None => final(scopes)@ == old(scopes)@ && (r matches Err(e) && e.model() == (SpecErr {
                msg: undefined_variable_msg(token.lexeme@),
                line: token.line as int,
                lexeme: token.lexeme@,
                file: "file.vs"@,
                abort: None,
            })),
        },
        arena_model(final(scopes)@).len() == arena_model(old(scopes)@).len(),
        forall|j: int|
            0 <= j < arena_model(old(scopes)@).len() ==> (#[trigger] arena_model(
                final(scopes)@,
            )[j]).parent == arena_model(old(scopes)@)[j].parent,
    decreases idx,
{
    let has = scopes[idx].get_local(&token.lexeme).is_some();
    if has {
        let result = environment_value.get_value();
        let slot = &mut scopes[idx];
        let _ = slot.define(token, environment_value);
        proof {
            assert(arena_model(scopes@) =~= arena_model(old(scopes)@).update(
                idx as int,
                scopes@[idx as int].model(),
            ));
        }
        Ok(result)
    } else {
        let parent = scopes[idx].parent();
        match parent {
            Some(p) => {
                let r = env_assign(scopes, p, token, environment_value);
                r
            },
            None => Err(undefined_variable_error(token)),
        }
    }
}

/// Binds the name in the scope at `idx` alone.
pub fn env_define(
    scopes: &mut Vec<Environment>,
    idx: usize,
    token: &Token,
    environment_value: EnvironmentValue,
) -> (r: Result<Literal, ViskumError>)
    requires
        idx < old(scopes)@.len(),
    ensures
        arena_model(final(scopes)@) == arena_model(old(scopes)@).update(
            idx as int,
            SpecScope {
                vals: assoc_set(
                    arena_model(old(scopes)@)[idx as int].vals,
                    token.lexeme@,
                    environment_value.model(),
                ),
                parent: arena_model(old(scopes)@)[idx as int].parent,
            },
        ),
        r matches Ok(v) && v.model() == environment_value.model(),
{
    let slot = &mut scopes[idx];
    let r = slot.define(token, environment_value);
    proof {
        assert(arena_model(scopes@) =~= arena_model(old(scopes)@).update(
            idx as int,
            scopes@[idx as int].model(),
        ));
        assert(scopes@[idx as int].model() == (SpecScope {
            vals: assoc_set(
                arena_model(old(scopes)@)[idx as int].vals,
                token.lexeme@,
                environment_value.model(),
            ),
            parent: arena_model(old(scopes)@)[idx as int].parent,
        }));
    }
    r
}

/// The root scope, holding the host-provided functions: the clock under
/// `time`, and the same clock under `new_print`. Within the library a call
/// of either yields zero; the semantics does not model reading the host's
/// clock.
pub fn get_globals() -> (r: Environment)
    ensures
        r.model().parent is None,
        r.model().vals == assoc_set(
            assoc_set(
                Seq::<(Seq<char>, SpecVal)>::empty(),
                "time"@,
                SpecVal::Func(
                    crate::value::SpecCallable {
                        arity: 0,
                        kind: crate::value::SpecCallKind::Native,
                    },
                ),
            ),
            "new_print"@,
            SpecVal::Func(
                crate::value::SpecCallable { arity: 0, kind: crate::value::SpecCallKind::Native },
            ),
        ),
{
    let mut globals = Environment::new();
    globals.define_function(
        &"time".to_owned(),
        Literal::Func(Callable { arity: 0, kind: CallableKind::Native }),
    );
    globals.define_function(
        &"new_print".to_owned(),
        Literal::Func(Callable { arity: 0, kind: CallableKind::Native }),
    );
    globals
}

} // verus!
