//! Properties of the rewriters, stated and proved once for all inputs.

use crate::model::{FnDeclView, GuardStmtView, GuardedFnView, ModItemView, ModuleDeclView};
use crate::rewrite::{
    default_mutex_name, spec_mutex_name, spec_safe_test, spec_safe_tests,
};
use vstd::prelude::*;

verus! {

/// Does the emitted module declare a mutex with this identifier? Only the
/// injected declaration counts: original items are opaque text.
pub open spec fn declares_mutex(items: Seq<ModItemView>, name: Seq<char>) -> bool {
    exists|i: int| 0 <= i < items.len() && items[i] == (ModItemView::MutexDecl { name })
}

/// The identifier whose mutex the guarded function acquires.
pub open spec fn acquired_mutex(g: GuardedFnView) -> Seq<char>
    recommends
        g.body.len() > 0,
        g.body[0] is Acquire,
{
    g.body[0]->Acquire_name
}

/// How many mutex declarations a list of emitted items holds.
pub open spec fn mutex_decl_count(items: Seq<ModItemView>) -> nat
    decreases items.len(),
{
    if items.len() == 0 {
        0
    } else {
        mutex_decl_count(items.drop_last()) + if items.last() is MutexDecl {
            1nat
        } else {
            0nat
        }
    }
}

/// The rewritten module keeps every original item, verbatim and in order,
/// and everything it adds is the one mutex declaration, in front.
pub proof fn lemma_module_rewrite_shape(attr: Seq<char>, m: ModuleDeclView)
    ensures
        spec_safe_tests(attr, m).len() == m.items.len() + 1,
        spec_safe_tests(attr, m)[0] == (ModItemView::MutexDecl { name: spec_mutex_name(attr) }),
        forall|i: int|
            0 <= i < m.items.len() ==> spec_safe_tests(attr, m)[i + 1] == (ModItemView::Verbatim {
                text: m.items[i],
            }),
        forall|i: int| 1 <= i <= m.items.len() ==> spec_safe_tests(attr, m)[i] is Verbatim,
{
}

/// The rewritten function keeps the original attributes, visibility and
/// signature, and its body is the acquisition of the chosen mutex followed
/// by every original statement, verbatim and in order: on every run of the
/// emitted function, the acquisition precedes every original statement.
pub proof fn lemma_function_rewrite_shape(attr: Seq<char>, f: FnDeclView)
    ensures
        spec_safe_test(attr, f).attrs == f.attrs,
        spec_safe_test(attr, f).vis == f.vis,
        spec_safe_test(attr, f).sig == f.sig,
        spec_safe_test(attr, f).body.len() == f.stmts.len() + 1,
        spec_safe_test(attr, f).body[0] == (GuardStmtView::Acquire {
            name: spec_mutex_name(attr),
        }),
        acquired_mutex(spec_safe_test(attr, f)) == spec_mutex_name(attr),
        forall|i: int|
            0 <= i < f.stmts.len() ==> spec_safe_test(attr, f).body[i + 1]
                == (GuardStmtView::Verbatim { text: f.stmts[i] }),
{
}

/// The rewritten module holds exactly one mutex declaration.
pub proof fn lemma_exactly_one_mutex_decl(attr: Seq<char>, m: ModuleDeclView)
    ensures
        mutex_decl_count(spec_safe_tests(attr, m)) == 1,
{
    lemma_module_rewrite_shape(attr, m);
    lemma_count_of_decl_then_verbatim(spec_safe_tests(attr, m));
}

proof fn lemma_count_of_decl_then_verbatim(items: Seq<ModItemView>)
    requires
        items.len() >= 1,
        items[0] is MutexDecl,
        forall|i: int| 1 <= i < items.len() ==> items[i] is Verbatim,
    ensures
        mutex_decl_count(items) == 1,
    decreases items.len(),
{
    if items.len() == 1 {
        assert(items.last() is MutexDecl);
        assert(mutex_decl_count(items.drop_last()) == 0);
    } else {
        assert(items.last() is Verbatim);
        let rest = items.drop_last();
        assert(rest[0] is MutexDecl);
        assert forall|i: int| 1 <= i < rest.len() implies rest[i] is Verbatim by {
            assert(rest[i] == items[i]);
        }
        lemma_count_of_decl_then_verbatim(rest);
        assert(mutex_decl_count(items) == mutex_decl_count(rest));
    }
}

/// Omitting the name parameter on the module and on the function emits
/// exactly what naming the default identifier on both would emit.
pub proof fn lemma_omitted_name_is_default(m: ModuleDeclView, f: FnDeclView)
    ensures
        spec_safe_tests(Seq::<char>::empty(), m) == spec_safe_tests(default_mutex_name(), m),
        spec_safe_test(Seq::<char>::empty(), f) == spec_safe_test(default_mutex_name(), f),
{
    reveal_strlit("TEST_MUTEX");
    assert(spec_mutex_name(Seq::<char>::empty()) == spec_mutex_name(default_mutex_name()));
    assert(spec_safe_tests(Seq::<char>::empty(), m) =~= spec_safe_tests(default_mutex_name(), m));
    assert(spec_safe_test(Seq::<char>::empty(), f) =~= spec_safe_test(default_mutex_name(), f));
}

/// When the module's and the function's name parameters choose the same
/// identifier — both the same text, or both empty, or one empty and the
/// other the default — the emitted module declares exactly the mutex the
/// emitted function acquires.
pub proof fn lemma_matching_names_bind(
    ma: Seq<char>,
    fa: Seq<char>,
    m: ModuleDeclView,
    f: FnDeclView,
)
    requires
        spec_mutex_name(ma) == spec_mutex_name(fa),
    ensures
        declares_mutex(spec_safe_tests(ma, m), acquired_mutex(spec_safe_test(fa, f))),
{
    lemma_module_rewrite_shape(ma, m);
    lemma_function_rewrite_shape(fa, f);
    assert(spec_safe_tests(ma, m)[0] == (ModItemView::MutexDecl {
        name: acquired_mutex(spec_safe_test(fa, f)),
    }));
}

/// Distinct explicit name parameters make the emitted function acquire a
/// mutex that the emitted module does not declare, so the host compiler
/// rejects the combination as an undefined identifier instead of letting
/// the two rewrites race on different locks.
pub proof fn lemma_mismatched_names_do_not_bind(
    ma: Seq<char>,
    fa: Seq<char>,
    m: ModuleDeclView,
    f: FnDeclView,
)
    requires
        ma.len() > 0,
        fa.len() > 0,
        ma != fa,
    ensures
        acquired_mutex(spec_safe_test(fa, f)) != spec_mutex_name(ma),
        !declares_mutex(spec_safe_tests(ma, m), acquired_mutex(spec_safe_test(fa, f))),
{
    lemma_module_rewrite_shape(ma, m);
    lemma_function_rewrite_shape(fa, f);
    let items = spec_safe_tests(ma, m);
    let wanted = acquired_mutex(spec_safe_test(fa, f));
    assert forall|i: int| 0 <= i < items.len() implies items[i] != (ModItemView::MutexDecl {
        name: wanted,
    }) by {
        if i == 0 {
            assert(items[0] == (ModItemView::MutexDecl { name: ma }));
        } else {
            assert(items[i] is Verbatim);
        }
    }
}

} // verus!
