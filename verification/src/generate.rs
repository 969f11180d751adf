//! Generating the registration entries of one declared item.
//!
//! Each typed role item is validated against the kind of the underlying
//! declaration, resolves its binding name, and yields registration entries;
//! the item's annotation list is rebuilt with the consumed annotations
//! removed. A retained class-like annotation is rewritten: its opt-out
//! marker is dropped and the module's name is filled in as metadata if no
//! such key is present yet.

use vstd::prelude::*;
use crate::ast::{
    AnnArg, AnnArgV, AnnV, Annotation, DeclKind, DeclaredItem, EntryV, ItemV, RegistrationEntry,
    Statement, StmtV, anns_view, args_view, copy_ann, copy_anns, copy_arg, entries_view,
};
use crate::classify::{
    ClassifiedV, RoleItem, RoleItemV, attrs_to_pyitems, classify_spec, role_idxs_below,
};
use crate::errors::{ErrorKind, ModuleError};
use vstd::pervasive::VecAdditionalExecFns;
use vstd::string::StringExecFns;

verus! {

/// The position of the first argument with the given key at or after `i`,
/// or the list's length when there is none.
pub open spec fn find_key_from(args: Seq<AnnArgV>, key: Seq<char>, i: int) -> int
    decreases args.len() - i,
{
    if i >= args.len() {
        args.len() as int
    } else if args[i].key == key {
        i
    } else {
        find_key_from(args, key, i + 1)
    }
}

/// The key selecting an explicit binding name.
pub open spec fn name_key() -> Seq<char> {
    "name"@
}

/// The bare marker by which a class-like role opts out of exposure.
pub open spec fn noattr_key() -> Seq<char> {
    "noattr"@
}

/// The metadata key under which the module's name is recorded on a
/// retained class-like annotation.
pub open spec fn module_key() -> Seq<char> {
    "module"@
}

/// The explicit binding name an annotation carries, if any.
pub open spec fn explicit_name(a: AnnV) -> Option<Seq<char>> {
    let j = find_key_from(a.args, name_key(), 0);
    if j < a.args.len() {
        Some(a.args[j].value)
    } else {
        None
    }
}

/// The explicit binding name of an annotation, or the given default.
pub open spec fn name_or_default(a: AnnV, dflt: Seq<char>) -> Seq<char> {
    match explicit_name(a) {
        Some(n) => n,
        None => dflt,
    }
}

/// The argument list with the argument at `j` removed.
pub open spec fn remove_arg_at(args: Seq<AnnArgV>, j: int) -> Seq<AnnArgV> {
    args.subrange(0, j) + args.subrange(j + 1, args.len() as int)
}

/// The argument list with the module name filled in as metadata, unless a
/// module key is already present; an existing key is never overwritten.
pub open spec fn fill_module(args: Seq<AnnArgV>, module: Seq<char>) -> Seq<AnnArgV> {
    if find_key_from(args, module_key(), 0) < args.len() {
        args
    } else {
        args.push(AnnArgV { key: module_key(), value: module })
    }
}

/// The annotations standing at the given positions, in that order.
pub open spec fn anns_at(anns: Seq<AnnV>, idxs: Seq<int>) -> Seq<AnnV> {
    idxs.map_values(|j: int| anns[j])
}

/// The generator's running state over one item: the entries produced so
/// far, the indices of the consumed annotations, and the rewritten form of
/// each retained class-like annotation.
pub struct GenSt {
    pub entries: Seq<EntryV>,
    pub consumed: Set<int>,
    pub repl: Map<int, AnnV>,
}

/// The generator's initial state.
pub open spec fn gen_init() -> GenSt {
    GenSt { entries: Seq::empty(), consumed: Set::empty(), repl: Map::empty() }
}

/// Generates the entries of a class-like role for the pending attribute
/// roles at positions below `k` in `pyattrs`, processed in reverse
/// collection order. Each one resolves its own explicit name, defaulting to
/// the class's resolved name, and yields an independent entry.
pub open spec fn gen_class_attrs(
    item: ItemV,
    module: Seq<char>,
    guards: Seq<AnnV>,
    class_name: Seq<char>,
    pyattrs: Seq<int>,
    k: int,
    st: GenSt,
) -> GenSt
    decreases k,
{
    if k <= 0 {
        st
    } else {
        let p = pyattrs[k - 1];
        let ann = item.anns[p];
        let nm = name_or_default(ann, class_name);
        gen_class_attrs(
            item,
            module,
            guards,
            class_name,
            pyattrs,
            k - 1,
            GenSt {
                entries: st.entries.push(
                    EntryV {
                        name: nm,
                        guards: guards,
                        stmt: StmtV::BindClass {
                            class_ident: item.ident,
                            module: module,
                            py_name: nm,
                        },
                        loc: ann.loc,
                    },
                ),
                consumed: st.consumed.insert(p),
                repl: st.repl,
            },
        )
    }
}

/// Generates what one role item contributes: entries, consumed indices and
/// the rewritten class annotation, or the fatal error of its validation.
pub open spec fn gen_role(
    item: ItemV,
    module: Seq<char>,
    guards: Seq<AnnV>,
    role: RoleItemV,
    st: GenSt,
) -> Result<GenSt, ModuleError> {
    match role {
        RoleItemV::Function { idx } => {
            let ann = item.anns[idx];
            if item.kind != DeclKind::Function {
                Err(ModuleError { kind: ErrorKind::KindMismatch, loc: ann.loc })
            } else {
                let nm = name_or_default(ann, item.ident);
                Ok(
                    GenSt {
                        entries: st.entries.push(
                            EntryV {
                                name: nm,
                                guards: guards,
                                stmt: StmtV::BindFunction {
                                    fn_ident: item.ident,
                                    module: module,
                                    py_name: nm,
                                },
                                loc: ann.loc,
                            },
                        ),
                        consumed: st.consumed.insert(idx),
                        repl: st.repl,
                    },
                )
            }
        },
        RoleItemV::Class { idx, pyattrs } => {
            let ann = item.anns[idx];
            if item.kind != DeclKind::Struct && item.kind != DeclKind::Enum {
                Err(ModuleError { kind: ErrorKind::KindMismatch, loc: ann.loc })
            } else if pyattrs.len() == 0 {
                let j = find_key_from(ann.args, noattr_key(), 0);
                if j >= ann.args.len() {
                    Err(ModuleError { kind: ErrorKind::MissingExposure, loc: ann.loc })
                } else {
                    let args2 = fill_module(remove_arg_at(ann.args, j), module);
                    Ok(
                        GenSt {
                            entries: st.entries,
                            consumed: st.consumed,
                            repl: st.repl.insert(
                                idx,
                                AnnV { kind: ann.kind, args: args2, loc: ann.loc },
                            ),
                        },
                    )
                }
            } else {
                let class_name = name_or_default(ann, item.ident);
                let args2 = fill_module(ann.args, module);
                let st1 = GenSt {
                    entries: st.entries,
                    consumed: st.consumed,
                    repl: st.repl.insert(idx, AnnV { kind: ann.kind, args: args2, loc: ann.loc }),
                };
                Ok(
                    gen_class_attrs(
                        item,
                        module,
                        guards,
                        class_name,
                        pyattrs,
                        pyattrs.len() as int,
                        st1,
                    ),
                )
            }
        },
        RoleItemV::Attribute { idx } => {
            let ann = item.anns[idx];
            match item.kind {
                DeclKind::Function | DeclKind::Const | DeclKind::UseName | DeclKind::UseRename => {
                    match explicit_name(ann) {
                        Some(nm) => Ok(
                            GenSt {
                                entries: st.entries.push(
                                    EntryV {
                                        name: nm,
                                        guards: guards,
                                        stmt: StmtV::BindValue {
                                            ident: item.ident,
                                            py_name: nm,
                                            invoke: item.kind == DeclKind::Function,
                                        },
                                        loc: ann.loc,
                                    },
                                ),
                                consumed: st.consumed.insert(idx),
                                repl: st.repl,
                            },
                        ),
                        None => Err(
                            ModuleError { kind: ErrorKind::MissingBindingName, loc: ann.loc },
                        ),
                    }
                },
                DeclKind::UseOther => Err(
                    ModuleError { kind: ErrorKind::UnsupportedPath, loc: ann.loc },
                ),
                _ => Err(ModuleError { kind: ErrorKind::KindMismatch, loc: ann.loc }),
            }
        },
    }
}

/// Runs the generator over the role items from position `r` on.
pub open spec fn gen_roles_from(
    item: ItemV,
    module: Seq<char>,
    guards: Seq<AnnV>,
    roles: Seq<RoleItemV>,
    r: int,
    st: GenSt,
) -> Result<GenSt, ModuleError>
    decreases roles.len() - r,
{
    if r >= roles.len() {
        Ok(st)
    } else {
        match gen_role(item, module, guards, roles[r], st) {
            Ok(st2) => gen_roles_from(item, module, guards, roles, r + 1, st2),
            Err(e) => Err(e),
        }
    }
}

/// The retained annotation list: original order, consumed annotations
/// dropped, rewritten class-like annotations substituted.
pub open spec fn rebuild_from(
    anns: Seq<AnnV>,
    consumed: Set<int>,
    repl: Map<int, AnnV>,
    j: int,
) -> Seq<AnnV>
    decreases anns.len() - j,
{
    if j >= anns.len() {
        Seq::empty()
    } else {
        let rest = rebuild_from(anns, consumed, repl, j + 1);
        if consumed.contains(j) {
            rest
        } else if repl.dom().contains(j) {
            seq![repl[j]] + rest
        } else {
            seq![anns[j]] + rest
        }
    }
}

/// Mathematical value of an [`ItemOutput`].
pub struct ItemOutV {
    pub entries: Seq<EntryV>,
    pub anns: Seq<AnnV>,
}

/// What processing one declared item yields: its registration entries in
/// emission order, and its retained annotation list.
pub struct ItemOutput {
    pub entries: Vec<RegistrationEntry>,
    pub anns: Vec<Annotation>,
}

impl View for ItemOutput {
    type V = ItemOutV;

    open spec fn view(&self) -> ItemOutV {
        ItemOutV { entries: entries_view(self.entries@), anns: anns_view(self.anns@) }
    }
}

/// What processing one declared item yields, or the first fatal error:
/// classification, then generation role by role, then the rebuilt
/// annotation list.
pub open spec fn item_spec(item: ItemV, module: Seq<char>) -> Result<ItemOutV, ModuleError> {
    match classify_spec(item.anns) {
        Err(e) => Err(e),
        Ok(c) => {
            let guards = anns_at(item.anns, c.guards);
            match gen_roles_from(item, module, guards, c.roles, 0, gen_init()) {
                Err(e) => Err(e),
                Ok(st) => Ok(
                    ItemOutV {
                        entries: st.entries,
                        anns: rebuild_from(item.anns, st.consumed, st.repl, 0),
                    },
                ),
            }
        },
    }
}

/// Lifts an item-processing result to its mathematical value.
pub open spec fn item_result_view(r: Result<ItemOutput, ModuleError>) -> Result<
    ItemOutV,
    ModuleError,
> {
    match r {
        Ok(o) => Ok(o@),
        Err(e) => Err(e),
    }
}

/// Finds the first argument with the given key, as [`find_key_from`]
/// describes.
pub fn find_key(args: &Vec<AnnArg>, key: &str) -> (r: Option<usize>)
    ensures
        ({
            let j = find_key_from(args_view(args@), key@, 0);
            match r {
                Some(u) => u as int == j && j < args@.len(),
                None => j == args@.len() as int,
            }
        }),
{
    let ghost av = args_view(args@);
    let ks: String = key.to_owned();
    let n = args.len();
    let mut i: usize = 0;
    while i < n
        invariant
            i <= n,
            n == args.len(),
            av == args_view(args@),
            av.len() == n,
            ks@ == key@,
            find_key_from(av, key@, 0) == find_key_from(av, key@, i as int),
        decreases n - i,
    {
        assert(av[i as int] == args@[i as int]@);
        if args[i].key == ks {
            return Some(i);
        }
        i = i + 1;
    }
    None
}

/// Resolves an annotation's explicit binding name, or the given default.
fn resolve_name(ann: &Annotation, dflt: &String) -> (r: String)
    ensures
        r@ == name_or_default(ann@, dflt@),
{
    match find_key(&ann.args, "name") {
        Some(j) => ann.args[j].value.clone(),
        None => dflt.clone(),
    }
}

/// Whether the slot vector realizes the generator state: consumed slots are
/// cleared, rewritten class annotations substituted, all else untouched.
pub open spec fn slots_match(
    slots: Seq<Option<Annotation>>,
    anns: Seq<AnnV>,
    st: GenSt,
) -> bool {
    &&& slots.len() == anns.len()
    &&& forall|t: int|
        0 <= t < slots.len() && st.consumed.contains(t) ==> (#[trigger] slots[t]) is None
    &&& forall|t: int|
        0 <= t < slots.len() && !st.consumed.contains(t) && st.repl.dom().contains(t) ==> ((
        #[trigger] slots[t]) matches Some(a) && a@ == st.repl[t])
    &&& forall|t: int|
        0 <= t < slots.len() && !st.consumed.contains(t) && !st.repl.dom().contains(t) ==> ((
        #[trigger] slots[t]) matches Some(a) && a@ == anns[t])
}

/// Copies the arguments of an annotation with the argument at `j` dropped,
/// then fills in the module-name metadata if absent.
fn rewrite_class_args(args: &Vec<AnnArg>, j: Option<usize>, module: &String) -> (r: Vec<AnnArg>)
    requires
        j matches Some(u) ==> u < args@.len(),
    ensures
        ({
            let base = match j {
                Some(u) => remove_arg_at(args_view(args@), u as int),
                None => args_view(args@),
            };
            args_view(r@) == fill_module(base, module@)
        }),
{
    let ghost av = args_view(args@);
    let m = args.len();
    let mut out: Vec<AnnArg> = Vec::new();
    let mut t: usize = 0;
    while t < m
        invariant
            t <= m,
            m == args.len(),
            av == args_view(args@),
            av.len() == m,
            j matches Some(u) ==> u < m,
            ({
                let skipped: int = match j {
                    Some(u) => if t > u { 1int } else { 0int },
                    None => 0int,
                };
                args_view(out@) =~= (match j {
                    Some(u) => if t as int <= u as int {
                        av.subrange(0, t as int)
                    } else {
                        av.subrange(0, u as int) + av.subrange(u as int + 1, t as int)
                    },
                    None => av.subrange(0, t as int),
                })
            }),
        decreases m - t,
    {
        let skip = match j {
            Some(u) => t == u,
            None => false,
        };
        if !skip {
            let ghost o0 = out@;
            out.push(copy_arg(&args[t]));
            assert(args_view(out@) =~= args_view(o0).push(av[t as int]));
        }
        assert(match j {
            Some(u) => if t as int + 1 <= u as int {
                args_view(out@) =~= av.subrange(0, t as int + 1)
            } else {
                args_view(out@) =~= av.subrange(0, u as int) + av.subrange(u as int + 1, t as int + 1)
            },
            None => args_view(out@) =~= av.subrange(0, t as int + 1),
        });
        t = t + 1;
    }
    let ghost base: Seq<AnnArgV> = match j {
        Some(u) => remove_arg_at(av, u as int),
        None => av,
    };
    assert(args_view(out@) =~= base);
    match find_key(&out, "module") {
        Some(_) => {
            assert(fill_module(base, module@) == base);
        },
        None => {
            let ghost o0 = out@;
            out.push(AnnArg { key: "module".to_owned(), value: module.clone() });
            assert(args_view(out@) =~= args_view(o0).push(
                AnnArgV { key: module_key(), value: module@ },
            ));
        },
    }
    out
}

/// Processes one declared item against the module's resolved name, exactly
/// as [`item_spec`] describes: classification, generation role by role, and
/// the rebuilt annotation list. The first fatal error aborts the item.
#[verifier::rlimit(60)]
pub fn gen_module_item(item: &DeclaredItem, module: &String) -> (res: Result<
    ItemOutput,
    ModuleError,
>)
    ensures
        item_result_view(res) == item_spec(item@, module@),
{
    let ghost iv = item@;
    let ghost mv = module@;
    let c = match attrs_to_pyitems(&item.anns) {
        Ok(c) => c,
        Err(e) => {
            return Err(e);
        },
    };
    let ghost cv = c@;
    assert(classify_spec(iv.anns) == Ok::<ClassifiedV, ModuleError>(cv));
    let an = item.anns.len();
    assert(iv.anns.len() == an);

    // the guard set, copied verbatim from the annotation list
    let mut guards: Vec<Annotation> = Vec::new();
    let gn = c.guards.len();
    let mut g: usize = 0;
    while g < gn
        invariant
            g <= gn,
            gn == c.guards.len(),
            cv == c@,
            an == item.anns.len(),
            iv == item@,
            iv.anns.len() == an,
            forall|k: int| 0 <= k < cv.guards.len() ==> 0 <= #[trigger] cv.guards[k] < an,
            guards@.len() == g,
            forall|u: int| 0 <= u < g ==> #[trigger] guards@[u]@ == iv.anns[cv.guards[u]],
        decreases gn - g,
    {
        let j = c.guards[g];
        assert(cv.guards[g as int] == j as int);
        guards.push(copy_ann(&item.anns[j]));
        g = g + 1;
    }
    let ghost guardsv = anns_at(iv.anns, cv.guards);
    assert(anns_view(guards@) =~= guardsv);

    // one slot per annotation, cleared or rewritten as roles consume them
    let mut slots: Vec<Option<Annotation>> = Vec::new();
    let mut t0: usize = 0;
    while t0 < an
        invariant
            t0 <= an,
            an == item.anns.len(),
            iv == item@,
            iv.anns.len() == an,
            slots@.len() == t0,
            forall|t: int|
                0 <= t < t0 ==> ((#[trigger] slots@[t]) matches Some(a) && a@ == iv.anns[t]),
        decreases an - t0,
    {
        slots.push(Some(copy_ann(&item.anns[t0])));
        t0 = t0 + 1;
    }

    let mut entries: Vec<RegistrationEntry> = Vec::new();
    let ghost mut gst = gen_init();
    let rn = c.roles.len();
    let mut r: usize = 0;
    assert(slots_match(slots@, iv.anns, gst));
    while r < rn
        invariant
            r <= rn,
            rn == c.roles.len(),
            cv == c@,
            classify_spec(iv.anns) == Ok::<ClassifiedV, ModuleError>(cv),
            guardsv == anns_at(iv.anns, cv.guards),
            an == item.anns.len(),
            iv == item@,
            iv.anns.len() == an,
            mv == module@,
            anns_view(guards@) == guardsv,
            forall|k: int|
                0 <= k < cv.roles.len() ==> role_idxs_below(#[trigger] cv.roles[k], an as int),
            entries_view(entries@) == gst.entries,
            slots_match(slots@, iv.anns, gst),
            gen_roles_from(iv, mv, guardsv, cv.roles, 0, gen_init()) == gen_roles_from(
                iv,
                mv,
                guardsv,
                cv.roles,
                r as int,
                gst,
            ),
        decreases rn - r,
    {
        let ghost st0 = gst;
        assert(cv.roles[r as int] == c.roles@[r as int]@);
        match &c.roles[r] {
            RoleItem::Function { idx } => {
                let idx = *idx;
                assert(role_idxs_below(cv.roles[r as int], an as int));
                let loc = item.anns[idx].loc;
                if !matches!(item.kind, DeclKind::Function) {
                    let e = ModuleError { kind: ErrorKind::KindMismatch, loc };
                    assert(gen_role(iv, mv, guardsv, cv.roles[r as int], st0) == Err::<
                        GenSt,
                        ModuleError,
                    >(e));
                    assert(item_spec(iv, mv) == Err::<ItemOutV, ModuleError>(e));
                    return Err(e);
                }
                let py_name = resolve_name(&item.anns[idx], &item.ident);
                let ghost nm = name_or_default(iv.anns[idx as int], iv.ident);
                assert(py_name@ == nm);
                let ghost ev = EntryV {
                    name: nm,
                    guards: guardsv,
                    stmt: StmtV::BindFunction { fn_ident: iv.ident, module: mv, py_name: nm },
                    loc,
                };
                let ghost e0 = entries@;
                entries.push(
                    RegistrationEntry {
                        name: py_name.clone(),
                        guards: copy_anns(&guards),
                        stmt: Statement::BindFunction {
                            fn_ident: item.ident.clone(),
                            module: module.clone(),
                            py_name: py_name,
                        },
                        loc,
                    },
                );
                slots.set(idx, None);
                proof {
                    gst = GenSt {
                        entries: st0.entries.push(ev),
                        consumed: st0.consumed.insert(idx as int),
                        repl: st0.repl,
                    };
                }
                assert(entries_view(entries@) =~= entries_view(e0).push(ev));
                assert(gen_role(iv, mv, guardsv, cv.roles[r as int], st0) == Ok::<
                    GenSt,
                    ModuleError,
                >(gst));
            },
            RoleItem::Class { idx, pyattrs } => {
                let idx = *idx;
                assert(role_idxs_below(cv.roles[r as int], an as int));
                let loc = item.anns[idx].loc;
                if !(matches!(item.kind, DeclKind::Struct) || matches!(item.kind, DeclKind::Enum)) {
                    let e = ModuleError { kind: ErrorKind::KindMismatch, loc };
                    assert(gen_role(iv, mv, guardsv, cv.roles[r as int], st0) == Err::<
                        GenSt,
                        ModuleError,
                    >(e));
                    assert(item_spec(iv, mv) == Err::<ItemOutV, ModuleError>(e));
                    return Err(e);
                }
                let ghost pyv = cv.roles[r as int]->Class_pyattrs;
                if pyattrs.len() == 0 {
                    let noattr = find_key(&item.anns[idx].args, "noattr");
                    match noattr {
                        None => {
                            let e = ModuleError { kind: ErrorKind::MissingExposure, loc };
                            assert(gen_role(iv, mv, guardsv, cv.roles[r as int], st0) == Err::<
                                GenSt,
                                ModuleError,
                            >(e));
                            assert(item_spec(iv, mv) == Err::<ItemOutV, ModuleError>(e));
                            return Err(e);
                        },
                        Some(j) => {
                            let newargs = rewrite_class_args(&item.anns[idx].args, Some(j), module);
                            let newann = Annotation {
                                kind: item.anns[idx].kind,
                                args: newargs,
                                loc,
                            };
                            let ghost rv = newann@;
                            // a slot an earlier role consumed stays consumed
                            if slots[idx].is_some() {
                                slots.set(idx, Some(newann));
                            }
                            proof {
                                gst = GenSt {
                                    entries: st0.entries,
                                    consumed: st0.consumed,
                                    repl: st0.repl.insert(idx as int, rv),
                                };
                            }
                            assert(gen_role(iv, mv, guardsv, cv.roles[r as int], st0) == Ok::<
                                GenSt,
                                ModuleError,
                            >(gst));
                        },
                    }
                } else {
                    let class_name = resolve_name(&item.anns[idx], &item.ident);
                    let ghost cnv = name_or_default(iv.anns[idx as int], iv.ident);
                    assert(class_name@ == cnv);
                    let newargs = rewrite_class_args(&item.anns[idx].args, None, module);
                    let newann = Annotation { kind: item.anns[idx].kind, args: newargs, loc };
                    let ghost rv = newann@;
                    // a slot an earlier role consumed stays consumed
                    if slots[idx].is_some() {
                        slots.set(idx, Some(newann));
                    }
                    proof {
                        gst = GenSt {
                            entries: st0.entries,
                            consumed: st0.consumed,
                            repl: st0.repl.insert(idx as int, rv),
                        };
                    }
                    let ghost st1 = gst;
                    assert(gen_role(iv, mv, guardsv, cv.roles[r as int], st0) == Ok::<
                        GenSt,
                        ModuleError,
                    >(gen_class_attrs(
                        iv,
                        mv,
                        guardsv,
                        name_or_default(iv.anns[idx as int], iv.ident),
                        cv.roles[r as int]->Class_pyattrs,
                        cv.roles[r as int]->Class_pyattrs.len() as int,
                        st1,
                    )));
                    let pn = pyattrs.len();
                    assert(pyv == crate::classify::idxs_view(pyattrs@));
                    assert(pyv.len() == pn);
                    let mut k2: usize = pn;
                    while k2 > 0
                        invariant
                            k2 <= pn,
                            pn == pyattrs.len(),
                            cv == c@,
                            an == item.anns.len(),
                            iv == item@,
                            iv.anns.len() == an,
                            mv == module@,
                            anns_view(guards@) == guardsv,
                            cnv == class_name@,
                            pyv == crate::classify::idxs_view(pyattrs@),
                            pyv.len() == pn,
                            forall|u: int| 0 <= u < pyv.len() ==> 0 <= #[trigger] pyv[u] < an,
                            entries_view(entries@) == gst.entries,
                            slots_match(slots@, iv.anns, gst),
                            gen_class_attrs(iv, mv, guardsv, cnv, pyv, k2 as int, gst)
                                == gen_class_attrs(iv, mv, guardsv, cnv, pyv, pn as int, st1),
                        decreases k2,
                    {
                        let ghost stk = gst;
                        k2 = k2 - 1;
                        let p = pyattrs[k2];
                        assert(pyv[k2 as int] == p as int);
                        let ploc = item.anns[p].loc;
                        let py_name = resolve_name(&item.anns[p], &class_name);
                        let ghost nm = name_or_default(iv.anns[p as int], cnv);
                        assert(py_name@ == nm);
                        let ghost ev = EntryV {
                            name: nm,
                            guards: guardsv,
                            stmt: StmtV::BindClass {
                                class_ident: iv.ident,
                                module: mv,
                                py_name: nm,
                            },
                            loc: ploc,
                        };
                        let ghost e0 = entries@;
                        entries.push(
                            RegistrationEntry {
                                name: py_name.clone(),
                                guards: copy_anns(&guards),
                                stmt: Statement::BindClass {
                                    class_ident: item.ident.clone(),
                                    module: module.clone(),
                                    py_name: py_name,
                                },
                                loc: ploc,
                            },
                        );
                        slots.set(p, None);
                        proof {
                            gst = GenSt {
                                entries: stk.entries.push(ev),
                                consumed: stk.consumed.insert(p as int),
                                repl: stk.repl,
                            };
                        }
                        assert(entries_view(entries@) =~= entries_view(e0).push(ev));
                        assert(gen_class_attrs(iv, mv, guardsv, cnv, pyv, k2 as int + 1, stk)
                            == gen_class_attrs(iv, mv, guardsv, cnv, pyv, k2 as int, gst));
                    }
                    assert(gst == gen_class_attrs(iv, mv, guardsv, cnv, pyv, pn as int, st1));
                    assert(gen_role(iv, mv, guardsv, cv.roles[r as int], st0) == Ok::<
                        GenSt,
                        ModuleError,
                    >(gst));
                }
            },
            RoleItem::Attribute { idx } => {
                let idx = *idx;
                assert(role_idxs_below(cv.roles[r as int], an as int));
                let loc = item.anns[idx].loc;
                let kind_ok = matches!(
                    item.kind,
                    DeclKind::Function | DeclKind::Const | DeclKind::UseName | DeclKind::UseRename
                );
                if !kind_ok {
                    let e = if matches!(item.kind, DeclKind::UseOther) {
                        ModuleError { kind: ErrorKind::UnsupportedPath, loc }
                    } else {
                        ModuleError { kind: ErrorKind::KindMismatch, loc }
                    };
                    assert(gen_role(iv, mv, guardsv, cv.roles[r as int], st0) == Err::<
                        GenSt,
                        ModuleError,
                    >(e));
                    assert(item_spec(iv, mv) == Err::<ItemOutV, ModuleError>(e));
                    return Err(e);
                }
                let py_name = match find_key(&item.anns[idx].args, "name") {
                    Some(j) => item.anns[idx].args[j].value.clone(),
                    None => {
                        let e = ModuleError { kind: ErrorKind::MissingBindingName, loc };
                        assert(gen_role(iv, mv, guardsv, cv.roles[r as int], st0) == Err::<
                            GenSt,
                            ModuleError,
                        >(e));
                        assert(item_spec(iv, mv) == Err::<ItemOutV, ModuleError>(e));
                        return Err(e);
                    },
                };
                let ghost nm = explicit_name(iv.anns[idx as int])->Some_0;
                assert(py_name@ == nm);
                let invoke = matches!(item.kind, DeclKind::Function);
                let ghost ev = EntryV {
                    name: nm,
                    guards: guardsv,
                    stmt: StmtV::BindValue { ident: iv.ident, py_name: nm, invoke },
                    loc,
                };
                let ghost e0 = entries@;
                entries.push(
                    RegistrationEntry {
                        name: py_name.clone(),
                        guards: copy_anns(&guards),
                        stmt: Statement::BindValue {
                            ident: item.ident.clone(),
                            py_name: py_name,
                            invoke,
                        },
                        loc,
                    },
                );
                slots.set(idx, None);
                proof {
                    gst = GenSt {
                        entries: st0.entries.push(ev),
                        consumed: st0.consumed.insert(idx as int),
                        repl: st0.repl,
                    };
                }
                assert(entries_view(entries@) =~= entries_view(e0).push(ev));
                assert(gen_role(iv, mv, guardsv, cv.roles[r as int], st0) == Ok::<
                    GenSt,
                    ModuleError,
                >(gst));
            },
        }
        r = r + 1;
    }
    assert(gen_roles_from(iv, mv, guardsv, cv.roles, 0, gen_init()) == Ok::<GenSt, ModuleError>(
        gst,
    ));

    // rebuild the retained annotation list from the slots
    let mut newanns: Vec<Annotation> = Vec::new();
    let mut t: usize = 0;
    assert(anns_view(newanns@) + rebuild_from(iv.anns, gst.consumed, gst.repl, 0) =~= rebuild_from(
        iv.anns,
        gst.consumed,
        gst.repl,
        0,
    ));
    while t < an
        invariant
            t <= an,
            an == iv.anns.len(),
            slots@.len() == an,
            slots_match(slots@, iv.anns, gst),
            anns_view(newanns@) + rebuild_from(iv.anns, gst.consumed, gst.repl, t as int)
                == rebuild_from(iv.anns, gst.consumed, gst.repl, 0),
        decreases an - t,
    {
        let ghost n0 = newanns@;
        match &slots[t] {
            Some(a) => {
                newanns.push(copy_ann(a));
                assert(!gst.consumed.contains(t as int));
                assert(anns_view(newanns@) =~= anns_view(n0).push(
                    rebuild_from(iv.anns, gst.consumed, gst.repl, t as int)[0],
                ));
                assert(anns_view(newanns@) + rebuild_from(iv.anns, gst.consumed, gst.repl, t as int + 1)
                    =~= anns_view(n0) + rebuild_from(iv.anns, gst.consumed, gst.repl, t as int));
            },
            None => {
                assert(gst.consumed.contains(t as int)) by {
                    if !gst.consumed.contains(t as int) {
                        assert((slots@[t as int]) is Some);
                    }
                }
            },
        }
        t = t + 1;
    }
    assert(rebuild_from(iv.anns, gst.consumed, gst.repl, an as int) =~= Seq::<AnnV>::empty());
    assert(anns_view(newanns@) =~= rebuild_from(iv.anns, gst.consumed, gst.repl, 0));

    let out = ItemOutput { entries, anns: newanns };
    assert(out@ == (ItemOutV {
        entries: gst.entries,
        anns: rebuild_from(iv.anns, gst.consumed, gst.repl, 0),
    }));
    assert(item_spec(iv, mv) == Ok::<ItemOutV, ModuleError>(out@));
    Ok(out)
}

} // verus!
