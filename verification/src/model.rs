//! The data the rewriters work on.
//!
//! An item of a module, an attribute, a visibility, a signature or a
//! statement is carried as its source text, verbatim: the rewriters never
//! look inside such a text, they only arrange the pieces and add the mutex
//! declaration and its acquisition.

use vstd::prelude::*;

verus! {

/// A module to be rewritten: the source text of each of its items, in
/// declaration order.
pub struct ModuleDecl {
    pub items: Vec<String>,
}

/// Spec-level image of a `ModuleDecl`.
pub struct ModuleDeclView {
    pub items: Seq<Seq<char>>,
}

impl View for ModuleDecl {
    type V = ModuleDeclView;

    open spec fn view(&self) -> ModuleDeclView {
        ModuleDeclView { items: self.items.deep_view() }
    }
}

/// One item of a rewritten module: either the injected mutex declaration or
/// an original item, verbatim.
#[derive(PartialEq, Eq, Debug)]
pub enum ModItem {
    MutexDecl { name: String },
    Verbatim { text: String },
}

/// Spec-level image of a `ModItem`.
pub enum ModItemView {
    MutexDecl { name: Seq<char> },
    Verbatim { text: Seq<char> },
}

impl View for ModItem {
    type V = ModItemView;

    open spec fn view(&self) -> ModItemView {
        match self {
            ModItem::MutexDecl { name } => ModItemView::MutexDecl { name: name@ },
            ModItem::Verbatim { text } => ModItemView::Verbatim { text: text@ },
        }
    }
}

impl DeepView for ModItem {
    type V = ModItemView;

    open spec fn deep_view(&self) -> ModItemView {
        self.view()
    }
}

/// A function to be rewritten: its attributes, visibility, signature and
/// body statements, each as source text.
pub struct FnDecl {
    pub attrs: Vec<String>,
    pub vis: String,
    pub sig: String,
    pub stmts: Vec<String>,
}

/// Spec-level image of a `FnDecl`.
#[verifier::ext_equal]
pub struct FnDeclView {
    pub attrs: Seq<Seq<char>>,
    pub vis: Seq<char>,
    pub sig: Seq<char>,
    pub stmts: Seq<Seq<char>>,
}

impl View for FnDecl {
    type V = FnDeclView;

    open spec fn view(&self) -> FnDeclView {
        FnDeclView {
            attrs: self.attrs.deep_view(),
            vis: self.vis@,
            sig: self.sig@,
            stmts: self.stmts.deep_view(),
        }
    }
}

/// One statement of a guarded function's body: either the injected
/// acquisition of the named mutex or an original statement, verbatim.
#[derive(PartialEq, Eq, Debug)]
pub enum GuardStmt {
    Acquire { name: String },
    Verbatim { text: String },
}

/// Spec-level image of a `GuardStmt`.
pub enum GuardStmtView {
    Acquire { name: Seq<char> },
    Verbatim { text: Seq<char> },
}

impl View for GuardStmt {
    type V = GuardStmtView;

    open spec fn view(&self) -> GuardStmtView {
        match self {
            GuardStmt::Acquire { name } => GuardStmtView::Acquire { name: name@ },
            GuardStmt::Verbatim { text } => GuardStmtView::Verbatim { text: text@ },
        }
    }
}

impl DeepView for GuardStmt {
    type V = GuardStmtView;

    open spec fn deep_view(&self) -> GuardStmtView {
        self.view()
    }
}

/// A rewritten function: the original attributes, visibility and signature,
/// and the new body.
pub struct GuardedFn {
    pub attrs: Vec<String>,
    pub vis: String,
    pub sig: String,
    pub body: Vec<GuardStmt>,
}

/// Spec-level image of a `GuardedFn`.
#[verifier::ext_equal]
pub struct GuardedFnView {
    pub attrs: Seq<Seq<char>>,
    pub vis: Seq<char>,
    pub sig: Seq<char>,
    pub body: Seq<GuardStmtView>,
}

impl View for GuardedFn {
    type V = GuardedFnView;

    open spec fn view(&self) -> GuardedFnView {
        GuardedFnView {
            attrs: self.attrs.deep_view(),
            vis: self.vis@,
            sig: self.sig@,
            body: self.body.deep_view(),
        }
    }
}

} // verus!
