use safe_tests::model::{FnDecl, GuardStmt, ModItem, ModuleDecl};
use safe_tests::rewrite::{mutex_name, safe_test, safe_tests};

fn strings(texts: &[&str]) -> Vec<String> {
    texts.iter().map(|t| t.to_string()).collect()
}

#[test]
fn default_name_used_when_omitted() {
    assert_eq!(mutex_name(""), "TEST_MUTEX");
}

#[test]
fn explicit_name_used() {
    assert_eq!(mutex_name("MY_MUTEX"), "MY_MUTEX");
}

#[test]
fn module_rewrite_prepends_decl_and_keeps_items() {
    let module = ModuleDecl {
        items: strings(&[
            "const SHARED_KEY: &str = \"SHARED_KEY\";",
            "fn first() { }",
            "fn second() { }",
        ]),
    };
    let out = safe_tests("", &module);
    assert_eq!(out.len(), 4);
    assert_eq!(
        out[0],
        ModItem::MutexDecl {
            name: "TEST_MUTEX".to_string()
        }
    );
    for (i, text) in module.items.iter().enumerate() {
        assert_eq!(
            out[i + 1],
            ModItem::Verbatim {
                text: text.clone()
            }
        );
    }
}

#[test]
fn module_rewrite_with_custom_name() {
    let module = ModuleDecl {
        items: strings(&["fn only() { }"]),
    };
    let out = safe_tests("GUARD", &module);
    assert_eq!(out.len(), 2);
    assert_eq!(
        out[0],
        ModItem::MutexDecl {
            name: "GUARD".to_string()
        }
    );
    assert_eq!(
        out[1],
        ModItem::Verbatim {
            text: "fn only() { }".to_string()
        }
    );
}

#[test]
fn module_rewrite_of_empty_module() {
    let module = ModuleDecl { items: Vec::new() };
    let out = safe_tests("", &module);
    assert_eq!(out.len(), 1);
    assert_eq!(
        out[0],
        ModItem::MutexDecl {
            name: "TEST_MUTEX".to_string()
        }
    );
}

#[test]
fn function_rewrite_preserves_interface() {
    let func = FnDecl {
        attrs: strings(&["#[test]", "#[allow(dead_code)]"]),
        vis: "pub(crate)".to_string(),
        sig: "fn guarded()".to_string(),
        stmts: strings(&["let v = shared_value();", "check(v);"]),
    };
    let out = safe_test("", &func);
    assert_eq!(out.attrs, func.attrs);
    assert_eq!(out.vis, func.vis);
    assert_eq!(out.sig, func.sig);
    assert_eq!(out.body.len(), 3);
    assert_eq!(
        out.body[0],
        GuardStmt::Acquire {
            name: "TEST_MUTEX".to_string()
        }
    );
    for (i, text) in func.stmts.iter().enumerate() {
        assert_eq!(
            out.body[i + 1],
            GuardStmt::Verbatim {
                text: text.clone()
            }
        );
    }
}

#[test]
fn function_rewrite_with_custom_name() {
    let func = FnDecl {
        attrs: Vec::new(),
        vis: String::new(),
        sig: "fn quiet()".to_string(),
        stmts: strings(&["work();"]),
    };
    let out = safe_test("GUARD", &func);
    assert_eq!(
        out.body[0],
        GuardStmt::Acquire {
            name: "GUARD".to_string()
        }
    );
    assert_eq!(
        out.body[1],
        GuardStmt::Verbatim {
            text: "work();".to_string()
        }
    );
}

#[test]
fn function_rewrite_of_empty_body() {
    let func = FnDecl {
        attrs: Vec::new(),
        vis: String::new(),
        sig: "fn idle()".to_string(),
        stmts: Vec::new(),
    };
    let out = safe_test("", &func);
    assert_eq!(out.body.len(), 1);
    assert_eq!(
        out.body[0],
        GuardStmt::Acquire {
            name: "TEST_MUTEX".to_string()
        }
    );
}

#[test]
fn omitted_name_matches_explicit_default() {
    let module = ModuleDecl {
        items: strings(&["fn a() { }", "fn b() { }"]),
    };
    assert_eq!(safe_tests("", &module), safe_tests("TEST_MUTEX", &module));

    let func = FnDecl {
        attrs: strings(&["#[test]"]),
        vis: String::new(),
        sig: "fn a()".to_string(),
        stmts: strings(&["touch();"]),
    };
    let omitted = safe_test("", &func);
    let explicit = safe_test("TEST_MUTEX", &func);
    assert_eq!(omitted.attrs, explicit.attrs);
    assert_eq!(omitted.vis, explicit.vis);
    assert_eq!(omitted.sig, explicit.sig);
    assert_eq!(omitted.body, explicit.body);
}

#[test]
fn mismatched_names_leave_the_acquired_mutex_undeclared() {
    let module = ModuleDecl {
        items: strings(&["fn a() { }"]),
    };
    let func = FnDecl {
        attrs: Vec::new(),
        vis: String::new(),
        sig: "fn a()".to_string(),
        stmts: Vec::new(),
    };
    let emitted_module = safe_tests("LOCK_A", &module);
    let emitted_fn = safe_test("LOCK_B", &func);
    let acquired = match &emitted_fn.body[0] {
        GuardStmt::Acquire { name } => name.clone(),
        GuardStmt::Verbatim { .. } => panic!("the emitted body must start with the acquisition"),
    };
    assert_eq!(acquired, "LOCK_B");
    for item in &emitted_module {
        assert_ne!(
            *item,
            ModItem::MutexDecl {
                name: acquired.clone()
            }
        );
    }
}
