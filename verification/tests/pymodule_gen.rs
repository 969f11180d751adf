use pymodule_gen::assemble::impl_pymodule;
use pymodule_gen::ast::{
    AnnArg, AnnKind, Annotation, DeclKind, DeclaredItem, ModuleDeclaration, RegistrationEntry,
    Statement,
};
use pymodule_gen::errors::ErrorKind;
use pymodule_gen::nursery::ItemNursery;

fn arg(k: &str, v: &str) -> AnnArg {
    AnnArg { key: k.to_string(), value: v.to_string() }
}

fn ann(kind: AnnKind, args: Vec<AnnArg>, loc: usize) -> Annotation {
    Annotation { kind, args, loc }
}

fn item(kind: DeclKind, ident: &str, anns: Vec<Annotation>) -> DeclaredItem {
    DeclaredItem { kind, ident: ident.to_string(), anns }
}

fn module(ident: &str, items: Vec<DeclaredItem>) -> ModuleDeclaration {
    ModuleDeclaration { ident: ident.to_string(), attr_args: vec![], items }
}

#[test]
fn guarded_function_role_with_explicit_name() {
    let greet = item(
        DeclKind::Function,
        "greet",
        vec![
            ann(AnnKind::Guard, vec![arg("feature", "x")], 1),
            ann(AnnKind::FunctionRole, vec![arg("name", "hello")], 2),
        ],
    );
    let out = impl_pymodule(module("mymod", vec![greet])).unwrap();
    assert_eq!(out.name, "mymod");
    assert_eq!(out.entries.len(), 1);
    let e = &out.entries[0];
    assert_eq!(e.name, "hello");
    assert_eq!(e.guards.len(), 1);
    assert_eq!(e.guards[0].kind, AnnKind::Guard);
    assert_eq!(e.guards[0].args.len(), 1);
    assert_eq!(e.guards[0].args[0].key, "feature");
    assert_eq!(e.guards[0].args[0].value, "x");
    match &e.stmt {
        Statement::BindFunction { fn_ident, module, py_name } => {
            assert_eq!(fn_ident, "greet");
            assert_eq!(module, "mymod");
            assert_eq!(py_name, "hello");
        }
        other => panic!("expected a callable binding, got {:?}", std::mem::discriminant(other)),
    }
    // the role annotation is consumed; the guard stays on the item
    assert_eq!(out.items.len(), 1);
    assert_eq!(out.items[0].anns.len(), 1);
    assert_eq!(out.items[0].anns[0].kind, AnnKind::Guard);
}

#[test]
fn function_role_defaults_to_own_identifier() {
    let f = item(DeclKind::Function, "ping", vec![ann(AnnKind::FunctionRole, vec![], 1)]);
    let out = impl_pymodule(module("net", vec![f])).unwrap();
    assert_eq!(out.entries.len(), 1);
    assert_eq!(out.entries[0].name, "ping");
}

#[test]
fn function_role_names_do_not_depend_on_order() {
    let a = item(DeclKind::Function, "a_fn", vec![ann(AnnKind::FunctionRole, vec![arg("name", "alpha")], 1)]);
    let b = item(DeclKind::Function, "b_fn", vec![ann(AnnKind::FunctionRole, vec![], 2)]);
    let out1 = impl_pymodule(module("m", vec![a.clone_for_test(), b.clone_for_test()])).unwrap();
    let out2 = impl_pymodule(module("m", vec![b, a])).unwrap();
    let names1: Vec<&str> = out1.entries.iter().map(|e| e.name.as_str()).collect();
    let names2: Vec<&str> = out2.entries.iter().map(|e| e.name.as_str()).collect();
    assert_eq!(names1, vec!["alpha", "b_fn"]);
    assert_eq!(names2, vec!["b_fn", "alpha"]);
}

trait CloneForTest {
    fn clone_for_test(&self) -> Self;
}

impl CloneForTest for DeclaredItem {
    fn clone_for_test(&self) -> DeclaredItem {
        DeclaredItem {
            kind: self.kind,
            ident: self.ident.clone(),
            anns: self
                .anns
                .iter()
                .map(|a| Annotation {
                    kind: a.kind,
                    args: a
                        .args
                        .iter()
                        .map(|x| AnnArg { key: x.key.clone(), value: x.value.clone() })
                        .collect(),
                    loc: a.loc,
                })
                .collect(),
        }
    }
}

#[test]
fn class_with_attr_prefix_binds_and_fills_module_metadata() {
    let point = item(
        DeclKind::Struct,
        "Point",
        vec![
            ann(AnnKind::AttrRole, vec![arg("name", "Point")], 1),
            ann(AnnKind::ClassRole, vec![], 2),
        ],
    );
    let out = impl_pymodule(module("mymod", vec![point])).unwrap();
    assert_eq!(out.entries.len(), 1);
    let e = &out.entries[0];
    assert_eq!(e.name, "Point");
    match &e.stmt {
        Statement::BindClass { class_ident, module, py_name } => {
            assert_eq!(class_ident, "Point");
            assert_eq!(module, "mymod");
            assert_eq!(py_name, "Point");
        }
        _ => panic!("expected a class binding"),
    }
    // the attribute-role annotation is consumed; the class annotation is
    // retained with the module name filled in as metadata
    assert_eq!(out.items[0].anns.len(), 1);
    let retained = &out.items[0].anns[0];
    assert_eq!(retained.kind, AnnKind::ClassRole);
    assert_eq!(retained.args.len(), 1);
    assert_eq!(retained.args[0].key, "module");
    assert_eq!(retained.args[0].value, "mymod");
}

#[test]
fn class_with_two_attr_prefixes_yields_two_entries_in_reverse() {
    let point = item(
        DeclKind::Struct,
        "Point",
        vec![
            ann(AnnKind::AttrRole, vec![arg("name", "PointA")], 1),
            ann(AnnKind::AttrRole, vec![arg("name", "PointB")], 2),
            ann(AnnKind::ClassRole, vec![], 3),
        ],
    );
    let out = impl_pymodule(module("geo", vec![point])).unwrap();
    assert_eq!(out.entries.len(), 2);
    assert_eq!(out.entries[0].name, "PointB");
    assert_eq!(out.entries[1].name, "PointA");
    for e in &out.entries {
        match &e.stmt {
            Statement::BindClass { class_ident, module, .. } => {
                assert_eq!(class_ident, "Point");
                assert_eq!(module, "geo");
            }
            _ => panic!("expected a class binding"),
        }
    }
}

#[test]
fn class_with_opt_out_yields_no_entry_and_no_error() {
    let free = item(DeclKind::Struct, "Free", vec![ann(AnnKind::ClassRole, vec![arg("noattr", "")], 1)]);
    let out = impl_pymodule(module("m", vec![free])).unwrap();
    assert_eq!(out.entries.len(), 0);
    // the opt-out marker is removed and the module metadata filled in
    let retained = &out.items[0].anns[0];
    assert_eq!(retained.kind, AnnKind::ClassRole);
    assert_eq!(retained.args.len(), 1);
    assert_eq!(retained.args[0].key, "module");
    assert_eq!(retained.args[0].value, "m");
}

#[test]
fn class_without_attr_and_without_opt_out_fails() {
    let bad = item(DeclKind::Struct, "Bad", vec![ann(AnnKind::ClassRole, vec![], 7)]);
    let err = impl_pymodule(module("m", vec![bad])).unwrap_err();
    assert_eq!(err.kind, ErrorKind::MissingExposure);
    assert_eq!(err.loc, 7);
}

#[test]
fn class_without_attr_fails_even_under_guards() {
    let bad = item(
        DeclKind::Enum,
        "Bad",
        vec![ann(AnnKind::Guard, vec![arg("feature", "y")], 1), ann(AnnKind::ClassRole, vec![], 2)],
    );
    let err = impl_pymodule(module("m", vec![bad])).unwrap_err();
    assert_eq!(err.kind, ErrorKind::MissingExposure);
}

#[test]
fn duplicate_binding_names_collide_and_emit_nothing() {
    let f1 = item(DeclKind::Function, "first", vec![ann(AnnKind::FunctionRole, vec![arg("name", "dup")], 1)]);
    let f2 = item(DeclKind::Function, "second", vec![ann(AnnKind::FunctionRole, vec![arg("name", "dup")], 2)]);
    let res = impl_pymodule(module("m", vec![f1, f2]));
    let err = res.unwrap_err();
    assert_eq!(err.kind, ErrorKind::NameCollision);
    assert_eq!(err.loc, 2);
}

#[test]
fn guard_after_role_annotation_fails() {
    let f = item(
        DeclKind::Function,
        "f",
        vec![ann(AnnKind::FunctionRole, vec![], 1), ann(AnnKind::Guard, vec![arg("feature", "z")], 2)],
    );
    let err = impl_pymodule(module("m", vec![f])).unwrap_err();
    assert_eq!(err.kind, ErrorKind::GuardPlacement);
    assert_eq!(err.loc, 2);
}

#[test]
fn item_without_role_annotations_is_untouched() {
    let plain = item(
        DeclKind::Function,
        "helper",
        vec![ann(AnnKind::Guard, vec![arg("feature", "w")], 1), ann(AnnKind::Other, vec![], 2)],
    );
    let out = impl_pymodule(module("m", vec![plain])).unwrap();
    assert_eq!(out.entries.len(), 0);
    let it = &out.items[0];
    assert_eq!(it.ident, "helper");
    assert_eq!(it.anns.len(), 2);
    assert_eq!(it.anns[0].kind, AnnKind::Guard);
    assert_eq!(it.anns[0].args[0].key, "feature");
    assert_eq!(it.anns[1].kind, AnnKind::Other);
}

#[test]
fn function_role_on_struct_is_a_kind_mismatch() {
    let s = item(DeclKind::Struct, "S", vec![ann(AnnKind::FunctionRole, vec![], 3)]);
    let err = impl_pymodule(module("m", vec![s])).unwrap_err();
    assert_eq!(err.kind, ErrorKind::KindMismatch);
    assert_eq!(err.loc, 3);
}

#[test]
fn function_role_after_attr_prefix_is_unsupported() {
    let f = item(
        DeclKind::Function,
        "f",
        vec![ann(AnnKind::AttrRole, vec![arg("name", "n")], 1), ann(AnnKind::FunctionRole, vec![], 2)],
    );
    let err = impl_pymodule(module("m", vec![f])).unwrap_err();
    assert_eq!(err.kind, ErrorKind::UnsupportedComposition);
    assert_eq!(err.loc, 2);
}

#[test]
fn attr_role_after_another_role_breaks_composition_order() {
    let f = item(
        DeclKind::Function,
        "f",
        vec![ann(AnnKind::FunctionRole, vec![], 1), ann(AnnKind::AttrRole, vec![arg("name", "n")], 2)],
    );
    let err = impl_pymodule(module("m", vec![f])).unwrap_err();
    assert_eq!(err.kind, ErrorKind::CompositionOrder);
    assert_eq!(err.loc, 2);
}

#[test]
fn second_composing_role_after_closure_fails() {
    let s = item(
        DeclKind::Struct,
        "S",
        vec![
            ann(AnnKind::AttrRole, vec![arg("name", "n")], 1),
            ann(AnnKind::ClassRole, vec![], 2),
            ann(AnnKind::ClassRole, vec![], 3),
        ],
    );
    let err = impl_pymodule(module("m", vec![s])).unwrap_err();
    assert_eq!(err.kind, ErrorKind::MultipleComposition);
    assert_eq!(err.loc, 3);
}

#[test]
fn attribute_role_on_complex_import_alias_fails() {
    let u = item(DeclKind::UseOther, "tree", vec![ann(AnnKind::AttrRole, vec![arg("name", "n")], 4)]);
    let err = impl_pymodule(module("m", vec![u])).unwrap_err();
    assert_eq!(err.kind, ErrorKind::UnsupportedPath);
    assert_eq!(err.loc, 4);
}

#[test]
fn bare_attribute_role_requires_an_explicit_name() {
    let c = item(DeclKind::Const, "LIMIT", vec![ann(AnnKind::AttrRole, vec![], 5)]);
    let err = impl_pymodule(module("m", vec![c])).unwrap_err();
    assert_eq!(err.kind, ErrorKind::MissingBindingName);
    assert_eq!(err.loc, 5);
}

#[test]
fn attribute_role_on_other_declaration_is_a_kind_mismatch() {
    let o = item(DeclKind::Other, "x", vec![ann(AnnKind::AttrRole, vec![arg("name", "n")], 6)]);
    let err = impl_pymodule(module("m", vec![o])).unwrap_err();
    assert_eq!(err.kind, ErrorKind::KindMismatch);
}

#[test]
fn attribute_role_on_const_binds_plain_value() {
    let c = item(DeclKind::Const, "LIMIT", vec![ann(AnnKind::AttrRole, vec![arg("name", "limit")], 1)]);
    let out = impl_pymodule(module("m", vec![c])).unwrap();
    assert_eq!(out.entries.len(), 1);
    match &out.entries[0].stmt {
        Statement::BindValue { ident, py_name, invoke } => {
            assert_eq!(ident, "LIMIT");
            assert_eq!(py_name, "limit");
            assert!(!*invoke);
        }
        _ => panic!("expected a value binding"),
    }
    // the attribute-role annotation is consumed
    assert_eq!(out.items[0].anns.len(), 0);
}

#[test]
fn attribute_role_on_function_invokes_with_runtime() {
    let f = item(DeclKind::Function, "build", vec![ann(AnnKind::AttrRole, vec![arg("name", "built")], 1)]);
    let out = impl_pymodule(module("m", vec![f])).unwrap();
    match &out.entries[0].stmt {
        Statement::BindValue { ident, py_name, invoke } => {
            assert_eq!(ident, "build");
            assert_eq!(py_name, "built");
            assert!(*invoke);
        }
        _ => panic!("expected a value binding"),
    }
}

#[test]
fn attribute_role_on_renamed_import_uses_the_rename() {
    let u = item(DeclKind::UseRename, "alias", vec![ann(AnnKind::AttrRole, vec![arg("name", "thing")], 1)]);
    let out = impl_pymodule(module("m", vec![u])).unwrap();
    match &out.entries[0].stmt {
        Statement::BindValue { ident, py_name, invoke } => {
            assert_eq!(ident, "alias");
            assert_eq!(py_name, "thing");
            assert!(!*invoke);
        }
        _ => panic!("expected a value binding"),
    }
}

#[test]
fn empty_module_name_is_rejected() {
    let err = impl_pymodule(module("", vec![])).unwrap_err();
    assert_eq!(err.kind, ErrorKind::InvalidModuleName);
}

#[test]
fn module_name_starting_with_digit_is_rejected() {
    let err = impl_pymodule(module("1abc", vec![])).unwrap_err();
    assert_eq!(err.kind, ErrorKind::InvalidModuleName);
}

#[test]
fn explicit_module_name_argument_wins() {
    let decl = ModuleDeclaration {
        ident: "raw".to_string(),
        attr_args: vec![arg("name", "custom")],
        items: vec![item(DeclKind::Function, "f", vec![ann(AnnKind::FunctionRole, vec![], 1)])],
    };
    let out = impl_pymodule(decl).unwrap();
    assert_eq!(out.name, "custom");
    match &out.entries[0].stmt {
        Statement::BindFunction { module, .. } => assert_eq!(module, "custom"),
        _ => panic!("expected a callable binding"),
    }
}

#[test]
fn empty_module_processes_to_nothing() {
    let out = impl_pymodule(module("empty_mod", vec![])).unwrap();
    assert_eq!(out.name, "empty_mod");
    assert_eq!(out.entries.len(), 0);
    assert_eq!(out.items.len(), 0);
}

#[test]
fn entries_preserve_module_order() {
    let a = item(DeclKind::Function, "one", vec![ann(AnnKind::FunctionRole, vec![], 1)]);
    let b = item(DeclKind::Const, "TWO", vec![ann(AnnKind::AttrRole, vec![arg("name", "two")], 2)]);
    let c = item(DeclKind::Function, "three", vec![ann(AnnKind::FunctionRole, vec![], 3)]);
    let out = impl_pymodule(module("m", vec![a, b, c])).unwrap();
    let names: Vec<&str> = out.entries.iter().map(|e| e.name.as_str()).collect();
    assert_eq!(names, vec!["one", "two", "three"]);
}

#[test]
fn nursery_rejects_a_duplicate_name_directly() {
    let mut nursery = ItemNursery::new();
    let e1 = RegistrationEntry {
        name: "x".to_string(),
        guards: vec![],
        stmt: Statement::BindValue { ident: "a".to_string(), py_name: "x".to_string(), invoke: false },
        loc: 1,
    };
    let e2 = RegistrationEntry {
        name: "x".to_string(),
        guards: vec![],
        stmt: Statement::BindValue { ident: "b".to_string(), py_name: "x".to_string(), invoke: false },
        loc: 2,
    };
    assert!(nursery.add_item(&e1).is_ok());
    let err = nursery.add_item(&e2).unwrap_err();
    assert_eq!(err.kind, ErrorKind::NameCollision);
    assert_eq!(err.loc, 2);
    let block = nursery.assemble();
    assert_eq!(block.len(), 1);
    assert_eq!(block[0].name, "x");
}

#[test]
fn unrecognized_annotations_between_guards_are_ignored() {
    let f = item(
        DeclKind::Function,
        "f",
        vec![
            ann(AnnKind::Guard, vec![arg("feature", "a")], 1),
            ann(AnnKind::Other, vec![], 2),
            ann(AnnKind::Guard, vec![arg("feature", "b")], 3),
            ann(AnnKind::FunctionRole, vec![], 4),
        ],
    );
    let out = impl_pymodule(module("m", vec![f])).unwrap();
    assert_eq!(out.entries.len(), 1);
    let e = &out.entries[0];
    assert_eq!(e.guards.len(), 2);
    assert_eq!(e.guards[0].args[0].value, "a");
    assert_eq!(e.guards[1].args[0].value, "b");
    // guards and the unrecognized annotation survive on the item
    assert_eq!(out.items[0].anns.len(), 3);
}

#[test]
fn class_entries_carry_guards_verbatim() {
    let s = item(
        DeclKind::Struct,
        "S",
        vec![
            ann(AnnKind::Guard, vec![arg("feature", "gated")], 1),
            ann(AnnKind::AttrRole, vec![arg("name", "S1")], 2),
            ann(AnnKind::AttrRole, vec![arg("name", "S2")], 3),
            ann(AnnKind::ClassRole, vec![], 4),
        ],
    );
    let out = impl_pymodule(module("m", vec![s])).unwrap();
    assert_eq!(out.entries.len(), 2);
    for e in &out.entries {
        assert_eq!(e.guards.len(), 1);
        assert_eq!(e.guards[0].kind, AnnKind::Guard);
        assert_eq!(e.guards[0].args[0].key, "feature");
        assert_eq!(e.guards[0].args[0].value, "gated");
    }
}

#[test]
fn attr_prefix_without_name_defaults_to_class_name() {
    let s = item(
        DeclKind::Struct,
        "Inner",
        vec![
            ann(AnnKind::AttrRole, vec![], 1),
            ann(AnnKind::ClassRole, vec![arg("name", "Alias")], 2),
        ],
    );
    let out = impl_pymodule(module("m", vec![s])).unwrap();
    assert_eq!(out.entries.len(), 1);
    assert_eq!(out.entries[0].name, "Alias");
    match &out.entries[0].stmt {
        Statement::BindClass { class_ident, py_name, .. } => {
            assert_eq!(class_ident, "Inner");
            assert_eq!(py_name, "Alias");
        }
        _ => panic!("expected a class binding"),
    }
}

#[test]
fn existing_module_metadata_is_never_overwritten() {
    let s = item(
        DeclKind::Struct,
        "Kept",
        vec![ann(AnnKind::ClassRole, vec![arg("noattr", ""), arg("module", "already")], 1)],
    );
    let out = impl_pymodule(module("m", vec![s])).unwrap();
    assert_eq!(out.entries.len(), 0);
    let retained = &out.items[0].anns[0];
    assert_eq!(retained.args.len(), 1);
    assert_eq!(retained.args[0].key, "module");
    assert_eq!(retained.args[0].value, "already");
}
