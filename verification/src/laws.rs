//! The laws the pipeline obeys, stated and proved over its specification.

use vstd::prelude::*;
use crate::ast::{AnnKind, AnnV, DeclKind, EntryV, ItemV, ModuleDeclV, StmtV};
use crate::assemble::{ModSt, add_entries_from, mod_init, module_name_spec, process_items_from,
    process_spec, valid_ident};
use crate::classify::{ClassifiedV, ResolveSt, RoleItemV, classify_spec, first_role_from,
    is_role, resolve_from, resolve_init};
use crate::errors::{ErrorKind, ModuleError};
use crate::generate::{GenSt, anns_at, explicit_name, fill_module, find_key_from,
    gen_class_attrs, gen_init, gen_role, gen_roles_from, item_spec, name_or_default, noattr_key,
    rebuild_from, ItemOutV};
use crate::nursery::has_name;

verus! {

/// Whether no two entries of a block share a binding name.
pub open spec fn distinct_names(s: Seq<EntryV>) -> bool {
    forall|i: int, j: int| 0 <= i < j < s.len() ==> s[i].name != s[j].name
}

proof fn lemma_add_entries_distinct(new: Seq<EntryV>, k: int, acc: Seq<EntryV>)
    requires
        distinct_names(acc),
    ensures
        (add_entries_from(new, k, acc) matches Ok(es) ==> distinct_names(es)),
    decreases new.len() - k,
{
    if k >= new.len() {
    } else if has_name(acc, new[k].name) {
    } else {
        let acc2 = acc.push(new[k]);
        assert forall|i: int, j: int| 0 <= i < j < acc2.len() implies acc2[i].name != acc2[j].name by {
            if j == acc.len() {
                if acc2[i].name == acc2[j].name {
                    assert(acc[i].name == new[k].name);
                    assert(has_name(acc, new[k].name));
                }
            }
        }
        lemma_add_entries_distinct(new, k + 1, acc2);
    }
}

proof fn lemma_process_items_distinct(items: Seq<ItemV>, module: Seq<char>, i: int, st: ModSt)
    requires
        distinct_names(st.entries),
    ensures
        (process_items_from(items, module, i, st) matches Ok(st2) ==> distinct_names(st2.entries)),
    decreases items.len() - i,
{
    if i >= items.len() {
    } else {
        match item_spec(items[i], module) {
            Err(_) => {},
            Ok(out) => {
                match add_entries_from(out.entries, 0, st.entries) {
                    Err(_) => {},
                    Ok(es) => {
                        lemma_add_entries_distinct(out.entries, 0, st.entries);
                        lemma_process_items_distinct(
                            items,
                            module,
                            i + 1,
                            ModSt {
                                items: st.items.push(
                                    ItemV {
                                        kind: items[i].kind,
                                        ident: items[i].ident,
                                        anns: out.anns,
                                    },
                                ),
                                entries: es,
                            },
                        );
                    },
                }
            },
        }
    }
}

/// Law: the binding names emitted for a module form a set. Whenever
/// processing succeeds, no two entries of the block share a name; a module
/// whose items resolve to a duplicate name fails with a name collision, and
/// an error means nothing at all is emitted.
pub proof fn lemma_binding_names_unique(decl: ModuleDeclV)
    ensures
        (process_spec(decl) matches Ok(p) ==> distinct_names(p.entries)),
{
    if valid_ident(module_name_spec(decl)) {
        lemma_process_items_distinct(decl.items, module_name_spec(decl), 0, mod_init());
    }
}

/// Law: a function-role item resolves to its explicit name argument when
/// one is given, and to the host function's own identifier otherwise. The
/// resolution depends only on the annotation and the item itself — not on
/// the item's position, nor on what was generated before it.
pub proof fn lemma_function_role_name(
    item: ItemV,
    module: Seq<char>,
    guards: Seq<AnnV>,
    idx: int,
    st: GenSt,
)
    requires
        item.kind == DeclKind::Function,
    ensures
        (gen_role(item, module, guards, RoleItemV::Function { idx }, st) matches Ok(st2)
            && st2.entries.len() == st.entries.len() + 1 && st2.entries.last().name
            == name_or_default(item.anns[idx], item.ident)),
        (explicit_name(item.anns[idx]) matches Some(n) ==> name_or_default(
            item.anns[idx],
            item.ident,
        ) == n),
        explicit_name(item.anns[idx]) is None ==> name_or_default(item.anns[idx], item.ident)
            == item.ident,
{
}

/// Law: a class-like item with no attribute-role prefix and no opt-out
/// marker always fails with a missing-exposure error, whatever guard
/// annotations stand before its role annotation.
pub proof fn lemma_missing_exposure(item: ItemV, module: Seq<char>, c: ClassifiedV)
    requires
        item.kind == DeclKind::Struct || item.kind == DeclKind::Enum,
        classify_spec(item.anns) == Ok::<ClassifiedV, ModuleError>(c),
        c.roles.len() > 0,
        (c.roles[0] matches RoleItemV::Class { idx, pyattrs } && pyattrs.len() == 0
            && find_key_from(item.anns[idx].args, noattr_key(), 0) >= item.anns[idx].args.len()),
    ensures
        (item_spec(item, module) matches Err(e) && e.kind == ErrorKind::MissingExposure),
{
    let guards = anns_at(item.anns, c.guards);
    let r0 = c.roles[0];
    assert(gen_role(item, module, guards, r0, gen_init()) is Err);
    assert(gen_roles_from(item, module, guards, c.roles, 0, gen_init()) is Err);
}

/// The first role position never precedes the start of the scan nor runs
/// past the end of the list.
proof fn lemma_first_role_bounds(anns: Seq<AnnV>, i: int)
    requires
        0 <= i <= anns.len(),
    ensures
        i <= first_role_from(anns, i) <= anns.len(),
    decreases anns.len() - i,
{
    if i < anns.len() && !is_role(anns[i].kind) {
        lemma_first_role_bounds(anns, i + 1);
    }
}

/// How far a run of annotations holds no role annotation.
proof fn lemma_first_role_skip(anns: Seq<AnnV>, i: int, j: int)
    requires
        0 <= i <= j <= anns.len(),
        forall|k: int| i <= k < j ==> !is_role((#[trigger] anns[k]).kind),
    ensures
        first_role_from(anns, i) == first_role_from(anns, j),
    decreases j - i,
{
    if i < j {
        lemma_first_role_skip(anns, i + 1, j);
    }
}

/// Law: a class-like item prefixed by two attribute-role annotations with
/// distinct explicit names yields exactly two registration entries, one per
/// name in reverse collection order, each constructing an independent class
/// value, and both carrying the same module name.
pub proof fn lemma_two_attr_class(
    item: ItemV,
    module: Seq<char>,
    pre: Seq<AnnV>,
    a1: AnnV,
    a2: AnnV,
    cls: AnnV,
    n1: Seq<char>,
    n2: Seq<char>,
)
    requires
        item.kind == DeclKind::Struct || item.kind == DeclKind::Enum,
        item.anns == pre + seq![a1, a2, cls],
        forall|k: int| 0 <= k < pre.len() ==> !is_role((#[trigger] pre[k]).kind),
        a1.kind == AnnKind::AttrRole,
        explicit_name(a1) == Some(n1),
        a2.kind == AnnKind::AttrRole,
        explicit_name(a2) == Some(n2),
        cls.kind == AnnKind::ClassRole,
        n1 != n2,
    ensures
        (item_spec(item, module) matches Ok(out) && out.entries.len() == 2 && out.entries[0].name
            == n2 && out.entries[1].name == n1 && out.entries[0].stmt == (StmtV::BindClass {
            class_ident: item.ident,
            module,
            py_name: n2,
        }) && out.entries[1].stmt == (StmtV::BindClass {
            class_ident: item.ident,
            module,
            py_name: n1,
        })),
{
    let anns = item.anns;
    let p = pre.len() as int;
    assert(anns.len() == p + 3);
    assert(anns[p] == a1);
    assert(anns[p + 1] == a2);
    assert(anns[p + 2] == cls);
    assert(forall|k: int| 0 <= k < p ==> !is_role((#[trigger] anns[k]).kind));
    lemma_first_role_skip(anns, 0, p);
    assert(first_role_from(anns, 0) == p);
    let st0 = resolve_init();
    // the resolver collects the two attribute roles, then closes on the
    // class-like role
    assert(resolve_from(anns, p, st0) == resolve_from(
        anns,
        p + 1,
        ResolveSt { pending: st0.pending.push(p), acc: st0.acc, closed: st0.closed },
    ));
    let sa = ResolveSt { pending: st0.pending.push(p), acc: st0.acc, closed: st0.closed };
    let sb = ResolveSt { pending: sa.pending.push(p + 1), acc: sa.acc, closed: sa.closed };
    assert(resolve_from(anns, p + 1, sa) == resolve_from(anns, p + 2, sb));
    let roles = seq![RoleItemV::Class { idx: p + 2, pyattrs: sb.pending }];
    let sc = ResolveSt {
        pending: Seq::empty(),
        acc: sb.acc.push(RoleItemV::Class { idx: p + 2, pyattrs: sb.pending }),
        closed: true,
    };
    assert(resolve_from(anns, p + 2, sb) == resolve_from(anns, p + 3, sc));
    assert(resolve_from(anns, p + 3, sc) == Ok::<Seq<RoleItemV>, ModuleError>(
        sc.acc + sc.pending.map_values(|j: int| RoleItemV::Attribute { idx: j }),
    ));
    assert(sc.acc + sc.pending.map_values(|j: int| RoleItemV::Attribute { idx: j }) =~= roles);
    assert(classify_spec(anns) matches Ok(c) && c.roles == roles);
    let c = classify_spec(anns)->Ok_0;
    let guards = anns_at(anns, c.guards);
    let pyattrs = sb.pending;
    assert(pyattrs.len() == 2);
    assert(pyattrs[0] == p);
    assert(pyattrs[1] == p + 1);
    let class_name = name_or_default(cls, item.ident);
    let gr = gen_role(item, module, guards, roles[0], gen_init());
    assert(gr is Ok);
    let stg = gr->Ok_0;
    // the two entries come out in reverse collection order
    assert(name_or_default(anns[p + 1], class_name) == n2);
    assert(name_or_default(anns[p], class_name) == n1);
    let st1 = GenSt {
        entries: gen_init().entries,
        consumed: gen_init().consumed,
        repl: gen_init().repl.insert(
            p + 2,
            AnnV { kind: cls.kind, args: fill_module(cls.args, module), loc: cls.loc },
        ),
    };
    let e2 = EntryV {
        name: n2,
        guards,
        stmt: StmtV::BindClass { class_ident: item.ident, module, py_name: n2 },
        loc: a2.loc,
    };
    let s2 = GenSt { entries: st1.entries.push(e2), consumed: st1.consumed.insert(p + 1), repl: st1.repl };
    assert(gen_class_attrs(item, module, guards, class_name, pyattrs, 2, st1)
        == gen_class_attrs(item, module, guards, class_name, pyattrs, 1, s2));
    let e1 = EntryV {
        name: n1,
        guards,
        stmt: StmtV::BindClass { class_ident: item.ident, module, py_name: n1 },
        loc: a1.loc,
    };
    let s1g = GenSt { entries: s2.entries.push(e1), consumed: s2.consumed.insert(p), repl: s2.repl };
    assert(gen_class_attrs(item, module, guards, class_name, pyattrs, 1, s2)
        == gen_class_attrs(item, module, guards, class_name, pyattrs, 0, s1g));
    assert(stg == s1g);
    assert(stg.entries.len() == 2);
    assert(stg.entries[0].name == n2);
    assert(stg.entries[1].name == n1);
    assert(gen_roles_from(item, module, guards, c.roles, 0, gen_init()) == gen_roles_from(
        item,
        module,
        guards,
        c.roles,
        1,
        stg,
    ));
}

/// Whether every entry of a block carries exactly the given guard set.
pub open spec fn all_guards(s: Seq<EntryV>, g: Seq<AnnV>) -> bool {
    forall|k: int| 0 <= k < s.len() ==> (#[trigger] s[k]).guards == g
}

proof fn lemma_gen_class_attrs_guards(
    item: ItemV,
    module: Seq<char>,
    guards: Seq<AnnV>,
    class_name: Seq<char>,
    pyattrs: Seq<int>,
    k: int,
    st: GenSt,
)
    requires
        all_guards(st.entries, guards),
    ensures
        all_guards(gen_class_attrs(item, module, guards, class_name, pyattrs, k, st).entries, guards),
    decreases k,
{
    if k > 0 {
        let p = pyattrs[k - 1];
        let ann = item.anns[p];
        let nm = name_or_default(ann, class_name);
        let st2 = GenSt {
            entries: st.entries.push(
                EntryV {
                    name: nm,
                    guards: guards,
                    stmt: StmtV::BindClass { class_ident: item.ident, module, py_name: nm },
                    loc: ann.loc,
                },
            ),
            consumed: st.consumed.insert(p),
            repl: st.repl,
        };
        lemma_gen_class_attrs_guards(item, module, guards, class_name, pyattrs, k - 1, st2);
    }
}

proof fn lemma_gen_roles_guards(
    item: ItemV,
    module: Seq<char>,
    guards: Seq<AnnV>,
    roles: Seq<RoleItemV>,
    r: int,
    st: GenSt,
)
    requires
        all_guards(st.entries, guards),
    ensures
        (gen_roles_from(item, module, guards, roles, r, st) matches Ok(st2) ==> all_guards(
            st2.entries,
            guards,
        )),
    decreases roles.len() - r,
{
    if r < roles.len() {
        match gen_role(item, module, guards, roles[r], st) {
            Err(_) => {},
            Ok(st2) => {
                assert(all_guards(st2.entries, guards)) by {
                    if roles[r] is Class {
                        let idx = roles[r]->Class_idx;
                        let pyattrs = roles[r]->Class_pyattrs;
                        if item.kind == DeclKind::Struct || item.kind == DeclKind::Enum {
                            if pyattrs.len() > 0 {
                                let ann = item.anns[idx];
                                let st1 = GenSt {
                                    entries: st.entries,
                                    consumed: st.consumed,
                                    repl: st.repl.insert(
                                        idx,
                                        AnnV {
                                            kind: ann.kind,
                                            args: crate::generate::fill_module(ann.args, module),
                                            loc: ann.loc,
                                        },
                                    ),
                                };
                                lemma_gen_class_attrs_guards(
                                    item,
                                    module,
                                    guards,
                                    name_or_default(ann, item.ident),
                                    pyattrs,
                                    pyattrs.len() as int,
                                    st1,
                                );
                            }
                        }
                    }
                }
                lemma_gen_roles_guards(item, module, guards, roles, r + 1, st2);
            },
        }
    }
}

/// Law: the guard annotations collected before an item's role annotations
/// are carried verbatim, unchanged and in order, onto every entry the item
/// yields.
pub proof fn lemma_guards_carried(item: ItemV, module: Seq<char>, c: ClassifiedV)
    requires
        classify_spec(item.anns) == Ok::<ClassifiedV, ModuleError>(c),
    ensures
        (item_spec(item, module) matches Ok(out) ==> all_guards(
            out.entries,
            anns_at(item.anns, c.guards),
        )),
{
    let guards = anns_at(item.anns, c.guards);
    lemma_gen_roles_guards(item, module, guards, c.roles, 0, gen_init());
}

proof fn lemma_resolve_err_on_guard(anns: Seq<AnnV>, i: int, j: int, st: ResolveSt)
    requires
        0 <= i <= j < anns.len(),
        anns[j].kind == AnnKind::Guard,
    ensures
        resolve_from(anns, i, st) is Err,
    decreases j - i,
{
    if i < j {
        let k = anns[i].kind;
        if k == AnnKind::Guard {
        } else if !is_role(k) {
            lemma_resolve_err_on_guard(anns, i + 1, j, st);
        } else if st.closed {
        } else if k == AnnKind::AttrRole {
            if st.acc.len() == 0 {
                lemma_resolve_err_on_guard(
                    anns,
                    i + 1,
                    j,
                    ResolveSt { pending: st.pending.push(i), acc: st.acc, closed: st.closed },
                );
            }
        } else if k == AnnKind::FunctionRole {
            if st.pending.len() == 0 {
                lemma_resolve_err_on_guard(
                    anns,
                    i + 1,
                    j,
                    ResolveSt {
                        pending: st.pending,
                        acc: st.acc.push(RoleItemV::Function { idx: i }),
                        closed: st.closed,
                    },
                );
            }
        } else {
            if st.pending.len() == 0 {
                lemma_resolve_err_on_guard(
                    anns,
                    i + 1,
                    j,
                    ResolveSt {
                        pending: st.pending,
                        acc: st.acc.push(RoleItemV::Class { idx: i, pyattrs: Seq::empty() }),
                        closed: st.closed,
                    },
                );
            } else {
                lemma_resolve_err_on_guard(
                    anns,
                    i + 1,
                    j,
                    ResolveSt {
                        pending: Seq::empty(),
                        acc: st.acc.push(RoleItemV::Class { idx: i, pyattrs: st.pending }),
                        closed: true,
                    },
                );
            }
        }
    }
}

/// Law: a guard annotation standing after the first role annotation of an
/// item makes its classification fail — guards must precede role
/// annotations, never follow them.
pub proof fn lemma_guard_after_role_rejected(anns: Seq<AnnV>, j: int)
    requires
        first_role_from(anns, 0) <= j < anns.len(),
        anns[j].kind == AnnKind::Guard,
    ensures
        classify_spec(anns) is Err,
{
    lemma_first_role_bounds(anns, 0);
    lemma_resolve_err_on_guard(anns, first_role_from(anns, 0), j, resolve_init());
}

proof fn lemma_rebuild_id(anns: Seq<AnnV>, j: int)
    requires
        0 <= j <= anns.len(),
    ensures
        rebuild_from(anns, Set::empty(), Map::empty(), j) == anns.subrange(
            j,
            anns.len() as int,
        ),
    decreases anns.len() - j,
{
    if j >= anns.len() {
        assert(rebuild_from(anns, Set::empty(), Map::empty(), j) =~= anns.subrange(
            j,
            anns.len() as int,
        ));
    } else {
        lemma_rebuild_id(anns, j + 1);
        assert(!Set::<int>::empty().contains(j));
        assert(!Map::<int, AnnV>::empty().dom().contains(j));
        assert(seq![anns[j]] + anns.subrange(j + 1, anns.len() as int) =~= anns.subrange(
            j,
            anns.len() as int,
        ));
    }
}

/// Law (round trip): processing an item that bears no role annotation at
/// all is a no-op — no entry is produced, and its annotation list comes
/// back unchanged.
pub proof fn lemma_no_roles_noop(item: ItemV, module: Seq<char>)
    requires
        forall|k: int| 0 <= k < item.anns.len() ==> !is_role((#[trigger] item.anns[k]).kind),
    ensures
        item_spec(item, module) == Ok::<ItemOutV, ModuleError>(
            ItemOutV { entries: Seq::empty(), anns: item.anns },
        ),
{
    let anns = item.anns;
    let n = anns.len() as int;
    lemma_first_role_skip(anns, 0, n);
    assert(first_role_from(anns, 0) == n);
    assert(resolve_from(anns, n, resolve_init()) == Ok::<Seq<RoleItemV>, ModuleError>(
        resolve_init().acc + resolve_init().pending.map_values(
            |j: int| RoleItemV::Attribute { idx: j },
        ),
    ));
    assert(resolve_init().acc + resolve_init().pending.map_values(
        |j: int| RoleItemV::Attribute { idx: j },
    ) =~= Seq::<RoleItemV>::empty());
    let c = classify_spec(anns)->Ok_0;
    assert(c.roles.len() == 0);
    let guards = anns_at(anns, c.guards);
    assert(gen_roles_from(item, module, guards, c.roles, 0, gen_init()) == Ok::<
        GenSt,
        ModuleError,
    >(gen_init()));
    lemma_rebuild_id(anns, 0);
    assert(anns.subrange(0, anns.len() as int) =~= anns);
}

} // verus!
