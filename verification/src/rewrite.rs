//! The two rewriters and the choice of the mutex identifier.

use crate::model::{
    FnDecl, FnDeclView, GuardStmt, GuardStmtView, GuardedFn, GuardedFnView, ModItem, ModItemView,
    ModuleDecl, ModuleDeclView,
};
use vstd::prelude::*;

verus! {

/// The mutex identifier used when no name parameter is supplied.
pub open spec fn default_mutex_name() -> Seq<char> {
    "TEST_MUTEX"@
}

/// The mutex identifier chosen for a name parameter: the parameter's own
/// text, or the default when the parameter is empty.
pub open spec fn spec_mutex_name(attr: Seq<char>) -> Seq<char> {
    if attr.len() == 0 {
        default_mutex_name()
    } else {
        attr
    }
}

/// The module emitted for a name parameter and an input module: the mutex
/// declaration first, then every original item, verbatim and in order.
pub open spec fn spec_safe_tests(attr: Seq<char>, m: ModuleDeclView) -> Seq<ModItemView> {
    seq![ModItemView::MutexDecl { name: spec_mutex_name(attr) }]
        + m.items.map_values(|t: Seq<char>| ModItemView::Verbatim { text: t })
}

/// The function emitted for a name parameter and an input function: the
/// original attributes, visibility and signature, and a body that acquires
/// the named mutex and then runs every original statement, verbatim and in
/// order.
pub open spec fn spec_safe_test(attr: Seq<char>, f: FnDeclView) -> GuardedFnView {
    GuardedFnView {
        attrs: f.attrs,
        vis: f.vis,
        sig: f.sig,
        body: seq![GuardStmtView::Acquire { name: spec_mutex_name(attr) }]
            + f.stmts.map_values(|t: Seq<char>| GuardStmtView::Verbatim { text: t }),
    }
}

/// The mutex identifier for a name parameter given as text.
pub fn mutex_name(attr: &str) -> (name: String)
    ensures
        name@ == spec_mutex_name(attr@),
{
    if attr.is_empty() {
        "TEST_MUTEX".to_owned()
    } else {
        attr.to_owned()
    }
}

/// Rewrites a module: prepends the declaration of the mutex named by `attr`
/// (or by the default) to the module's items, keeping every original item
/// verbatim and in order.
pub fn safe_tests(attr: &str, module: &ModuleDecl) -> (out: Vec<ModItem>)
    ensures
        out.deep_view() == spec_safe_tests(attr@, module@),
{
    let name = mutex_name(attr);
    let mut out: Vec<ModItem> = Vec::new();
    out.push(ModItem::MutexDecl { name });
    let n = module.items.len();
    let mut i: usize = 0;
    while i < n
        invariant
            n == module.items@.len(),
            i <= n,
            out@.len() == i + 1,
            out@[0]@ == (ModItemView::MutexDecl { name: spec_mutex_name(attr@) }),
            forall|j: int|
                0 <= j < i ==> out@[j + 1]@ == (ModItemView::Verbatim {
                    text: module.items@[j]@,
                }),
        decreases n - i,
    {
        out.push(ModItem::Verbatim { text: module.items[i].clone() });
        i += 1;
    }
    proof {
        assert(out.deep_view() =~= spec_safe_tests(attr@, module@));
    }
    out
}

/// Rewrites a function: keeps its attributes, visibility and signature, and
/// replaces its body by the acquisition of the mutex named by `attr` (or by
/// the default) followed by every original statement, verbatim and in order.
pub fn safe_test(attr: &str, func: &FnDecl) -> (out: GuardedFn)
    ensures
        out@ == spec_safe_test(attr@, func@),
{
    let name = mutex_name(attr);
    let mut body: Vec<GuardStmt> = Vec::new();
    body.push(GuardStmt::Acquire { name });
    let n = func.stmts.len();
    let mut i: usize = 0;
    while i < n
        invariant
            n == func.stmts@.len(),
            i <= n,
            body@.len() == i + 1,
            body@[0]@ == (GuardStmtView::Acquire { name: spec_mutex_name(attr@) }),
            forall|j: int|
                0 <= j < i ==> body@[j + 1]@ == (GuardStmtView::Verbatim {
                    text: func.stmts@[j]@,
                }),
        decreases n - i,
    {
        body.push(GuardStmt::Verbatim { text: func.stmts[i].clone() });
        i += 1;
    }
    let out = GuardedFn {
        attrs: clone_strings(&func.attrs),
        vis: func.vis.clone(),
        sig: func.sig.clone(),
        body,
    };
    proof {
        assert(out@.body =~= spec_safe_test(attr@, func@).body);
        assert(out@ =~= spec_safe_test(attr@, func@));
    }
    out
}

/// Copies a list of source texts.
fn clone_strings(v: &Vec<String>) -> (r: Vec<String>)
    ensures
        r.deep_view() == v.deep_view(),
{
    let mut r: Vec<String> = Vec::new();
    let n = v.len();
    let mut i: usize = 0;
    while i < n
        invariant
            n == v@.len(),
            i <= n,
            r@.len() == i,
            forall|j: int| 0 <= j < i ==> r@[j]@ == v@[j]@,
        decreases n - i,
    {
        r.push(v[i].clone());
        i += 1;
    }
    proof {
        assert(r.deep_view() =~= v.deep_view());
    }
    r
}

} // verus!
