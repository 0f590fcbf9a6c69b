//! Scope-qualified names.
//!
//! A nested scope (a called function, a block, one turn of a loop) keeps its
//! names apart from those around it by putting its own name in front of each,
//! joined by a delimiter. The result is one flat string, which is what the
//! store of resolved names is keyed by.
//!
//! Only the resulting string counts. Scope names that do not hold the
//! delimiter never collide ([`lemma_scoped_injective`]); one that does can:
//! `a_b` around `c` and `a` around `b_c` give the same name
//! ([`lemma_scoped_associative`]). Nothing here detects that.

use crate::variable::Variable;
use vstd::prelude::*;
use vstd::string::StringExecFns;

verus! {

/// The character that joins a scope to the name inside it.
pub open spec fn delimiter() -> char {
    '_'
}

/// The name `inner` as seen from inside the scope `outer`: `outer`, the
/// delimiter, `inner`.
pub open spec fn scoped(outer: Seq<char>, inner: Seq<char>) -> Seq<char> {
    outer + seq![delimiter()] + inner
}

/// Qualifies `inner` with the scope `outer`. Any two strings are accepted;
/// the result is never `inner` itself.
pub fn new_scope(outer: String, inner: String) -> (name: String)
    ensures
        name@ == scoped(outer@, inner@),
        name@ != inner@,
{
    proof {
        reveal_strlit("_");
        lemma_scoped_differs_from_inner(outer@, inner@);
    }
    let name = outer.concat("_").concat(inner.as_str());
    assert(name@ =~= scoped(outer@, inner@));
    name
}

/// Qualifies the name of `inner` with the scope `outer`.
pub fn new_scope_from_variable<F>(outer: String, inner: &Variable<F>) -> (name: String)
    ensures
        name@ == scoped(outer@, inner@),
        name@ != inner@,
{
    new_scope(outer, inner.name.clone())
}

/// The alias of `inner` inside the scope `outer`: a variable of the same
/// field type whose name is that of `inner`, qualified with `outer`.
pub fn new_variable_from_variable<F>(outer: String, inner: &Variable<F>) -> (variable: Variable<F>)
    ensures
        variable@ == scoped(outer@, inner@),
        variable@ != inner@,
{
    Variable::new(new_scope_from_variable(outer, inner))
}

/// A qualified name is longer than the name it qualifies, so it is never that
/// name, whatever the scope.
pub proof fn lemma_scoped_differs_from_inner(outer: Seq<char>, inner: Seq<char>)
    ensures
        scoped(outer, inner).len() == outer.len() + 1 + inner.len(),
        scoped(outer, inner) != inner,
{
}

/// Nesting reads from the outside in, and only the resulting string counts:
/// `c` inside `b` inside `a` has the name that `b`-then-`c` has inside `a`.
pub proof fn lemma_scoped_associative(a: Seq<char>, b: Seq<char>, c: Seq<char>)
    ensures
        scoped(scoped(a, b), c) == scoped(a, scoped(b, c)),
{
    assert(scoped(scoped(a, b), c) =~= scoped(a, scoped(b, c)));
}

/// The order of scope and name matters: swapping them gives, in general,
/// another string.
pub proof fn lemma_scoped_not_commutative()
    ensures
        exists|a: Seq<char>, b: Seq<char>| scoped(a, b) != scoped(b, a),
{
    let a = seq!['a'];
    let b = seq!['b'];
    assert(scoped(a, b)[0] == 'a');
    assert(scoped(b, a)[0] == 'b');
}

/// Where no scope name holds the delimiter, a qualified name can be taken
/// apart in one way only: two scopes and two names that give the same string
/// are the same scope and the same name.
pub proof fn lemma_scoped_injective(
    outer1: Seq<char>,
    inner1: Seq<char>,
    outer2: Seq<char>,
    inner2: Seq<char>,
)
    requires
        !outer1.contains(delimiter()),
        !outer2.contains(delimiter()),
        scoped(outer1, inner1) == scoped(outer2, inner2),
    ensures
        outer1 == outer2,
        inner1 == inner2,
{
    let name = scoped(outer1, inner1);
    if outer1.len() < outer2.len() {
        assert(scoped(outer1, inner1)[outer1.len() as int] == delimiter());
        assert(scoped(outer2, inner2)[outer1.len() as int] == outer2[outer1.len() as int]);
        assert(outer2.contains(delimiter()));
    }
    if outer2.len() < outer1.len() {
        assert(scoped(outer2, inner2)[outer2.len() as int] == delimiter());
        assert(scoped(outer1, inner1)[outer2.len() as int] == outer1[outer2.len() as int]);
        assert(outer1.contains(delimiter()));
    }
    assert(outer1.len() == outer2.len());
    assert(name.len() == outer1.len() + 1 + inner1.len());
    assert(name.len() == outer2.len() + 1 + inner2.len());
    assert forall|i: int| 0 <= i < outer1.len() implies outer1[i] == outer2[i] by {
        assert(scoped(outer1, inner1)[i] == outer1[i]);
        assert(scoped(outer2, inner2)[i] == outer2[i]);
    }
    assert(outer1 =~= outer2);
    assert forall|i: int| 0 <= i < inner1.len() implies inner1[i] == inner2[i] by {
        assert(scoped(outer1, inner1)[outer1.len() + 1 + i] == inner1[i]);
        assert(scoped(outer2, inner2)[outer2.len() + 1 + i] == inner2[i]);
    }
    assert(inner1 =~= inner2);
}

} // verus!
