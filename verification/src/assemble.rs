//! Driving the processing of a whole module declaration.
//!
//! The module's own name is resolved and validated once, up front. Each
//! item is then classified and generated in original order, its entries fed
//! into the shared nursery, and its annotation list rewritten. The first
//! fatal error aborts the whole module: no partial output is returned.

use vstd::prelude::*;
use crate::ast::{
    DeclaredItem, EntryV, ItemV, ModuleDeclV, ModuleDeclaration, ProcessedModule, ProcessedV,
    anns_view, items_view,
};
use crate::errors::{ErrorKind, ModuleError};
use crate::generate::{ItemOutV, find_key, find_key_from, gen_module_item, item_spec, name_key};
use crate::nursery::{ItemNursery, has_name};
use vstd::string::StrSliceExecFns;

verus! {

/// Whether a character may open an identifier: a basic letter or an
/// underscore.
pub open spec fn is_ident_start(c: char) -> bool {
    (97 <= c as u32 && c as u32 <= 122) || (65 <= c as u32 && c as u32 <= 90) || c as u32 == 95
}

/// Whether a character may continue an identifier: a basic letter, a
/// decimal digit or an underscore.
pub open spec fn is_ident_char(c: char) -> bool {
    is_ident_start(c) || (48 <= c as u32 && c as u32 <= 57)
}

/// Whether a string is a non-empty identifier-safe name.
pub open spec fn valid_ident(s: Seq<char>) -> bool {
    s.len() > 0 && is_ident_start(s[0]) && (forall|k: int|
        0 <= k < s.len() ==> is_ident_char(#[trigger] s[k]))
}

/// Checks a name for identifier-safety, as [`valid_ident`] describes.
pub fn check_ident(s: &String) -> (r: bool)
    ensures
        r == valid_ident(s@),
{
    let st = s.as_str();
    let n = st.unicode_len();
    if n == 0 {
        return false;
    }
    let c0 = st.get_char(0);
    let u0 = c0 as u32;
    if !((97 <= u0 && u0 <= 122) || (65 <= u0 && u0 <= 90) || u0 == 95) {
        assert(!is_ident_start(s@[0]));
        return false;
    }
    let mut k: usize = 0;
    while k < n
        invariant
            k <= n,
            n == st@.len(),
            st@ == s@,
            is_ident_start(s@[0]),
            forall|t: int| 0 <= t < k ==> is_ident_char(#[trigger] s@[t]),
        decreases n - k,
    {
        let c = st.get_char(k);
        let u = c as u32;
        if !((97 <= u && u <= 122) || (65 <= u && u <= 90) || u == 95 || (48 <= u && u <= 57)) {
            assert(!is_ident_char(s@[k as int]));
            return false;
        }
        k = k + 1;
    }
    true
}

/// The module's resolved name: the explicit name argument of the module
/// annotation if present, else the module's own identifier.
pub open spec fn module_name_spec(decl: ModuleDeclV) -> Seq<char> {
    let j = find_key_from(decl.attr_args, name_key(), 0);
    if j < decl.attr_args.len() {
        decl.attr_args[j].value
    } else {
        decl.ident
    }
}

/// Feeds the entries of one item into the accumulated block from position
/// `k` on, rejecting a binding name already present.
pub open spec fn add_entries_from(new: Seq<EntryV>, k: int, acc: Seq<EntryV>) -> Result<
    Seq<EntryV>,
    ModuleError,
>
    decreases new.len() - k,
{
    if k >= new.len() {
        Ok(acc)
    } else if has_name(acc, new[k].name) {
        Err(ModuleError { kind: ErrorKind::NameCollision, loc: new[k].loc })
    } else {
        add_entries_from(new, k + 1, acc.push(new[k]))
    }
}

/// The assembler's running state: the rewritten items and the accumulated
/// entries.
pub struct ModSt {
    pub items: Seq<ItemV>,
    pub entries: Seq<EntryV>,
}

/// The assembler's initial state.
pub open spec fn mod_init() -> ModSt {
    ModSt { items: Seq::empty(), entries: Seq::empty() }
}

/// Processes the module's items from position `i` on: generation, the
/// shared collision check, and the rewritten item list.
pub open spec fn process_items_from(
    items: Seq<ItemV>,
    module: Seq<char>,
    i: int,
    st: ModSt,
) -> Result<ModSt, ModuleError>
    decreases items.len() - i,
{
    if i >= items.len() {
        Ok(st)
    } else {
        match item_spec(items[i], module) {
            Err(e) => Err(e),
            Ok(out) => match add_entries_from(out.entries, 0, st.entries) {
                Err(e) => Err(e),
                Ok(es) => process_items_from(
                    items,
                    module,
                    i + 1,
                    ModSt {
                        items: st.items.push(
                            ItemV { kind: items[i].kind, ident: items[i].ident, anns: out.anns },
                        ),
                        entries: es,
                    },
                ),
            },
        }
    }
}

/// What processing a module declaration yields: its validated name, the
/// rewritten items and the ordered registration block — or the first fatal
/// error, in which case nothing is emitted.
pub open spec fn process_spec(decl: ModuleDeclV) -> Result<ProcessedV, ModuleError> {
    let m = module_name_spec(decl);
    if !valid_ident(m) {
        Err(ModuleError { kind: ErrorKind::InvalidModuleName, loc: 0 })
    } else {
        match process_items_from(decl.items, m, 0, mod_init()) {
            Ok(st) => Ok(ProcessedV { name: m, items: st.items, entries: st.entries }),
            Err(e) => Err(e),
        }
    }
}

/// Lifts a module-processing result to its mathematical value.
pub open spec fn processed_result_view(r: Result<ProcessedModule, ModuleError>) -> Result<
    ProcessedV,
    ModuleError,
> {
    match r {
        Ok(p) => Ok(p@),
        Err(e) => Err(e),
    }
}

/// Processes a whole module declaration, exactly as [`process_spec`]
/// describes: the name constant of the output is the validated module name,
/// the extend routine is determined by the returned entries run in order,
/// and the make routine builds a fresh module object and extends it.
pub fn impl_pymodule(decl: ModuleDeclaration) -> (res: Result<ProcessedModule, ModuleError>)
    ensures
        processed_result_view(res) == process_spec(decl@),
{
    let ghost dv = decl@;
    // resolve and validate the module's own name, once
    let name: String = match find_key(&decl.attr_args, "name") {
        Some(j) => decl.attr_args[j].value.clone(),
        None => decl.ident.clone(),
    };
    assert(name@ == module_name_spec(dv));
    if !check_ident(&name) {
        return Err(ModuleError { kind: ErrorKind::InvalidModuleName, loc: 0 });
    }
    let ghost mv = name@;
    let mut nursery = ItemNursery::new();
    let mut out_items: Vec<DeclaredItem> = Vec::new();
    let n = decl.items.len();
    let mut i: usize = 0;
    assert(items_view(out_items@) =~= Seq::<ItemV>::empty());
    while i < n
        invariant
            i <= n,
            n == decl.items.len(),
            dv == decl@,
            dv.items.len() == n,
            mv == name@,
            mv == module_name_spec(dv),
            valid_ident(mv),
            process_items_from(dv.items, mv, 0, mod_init()) == process_items_from(
                dv.items,
                mv,
                i as int,
                ModSt { items: items_view(out_items@), entries: nursery@ },
            ),
        decreases n - i,
    {
        let ghost stc = ModSt { items: items_view(out_items@), entries: nursery@ };
        assert(dv.items[i as int] == decl.items@[i as int]@);
        let out = match gen_module_item(&decl.items[i], &name) {
            Ok(o) => o,
            Err(e) => {
                assert(process_items_from(dv.items, mv, i as int, stc) == Err::<ModSt, ModuleError>(
                    e,
                ));
                assert(process_spec(dv) == Err::<ProcessedV, ModuleError>(e));
                return Err(e);
            },
        };
        let ghost ov = out@;
        assert(item_spec(dv.items[i as int], mv) == Ok::<ItemOutV, ModuleError>(ov));
        let en = out.entries.len();
        let mut k: usize = 0;
        while k < en
            invariant
                k <= en,
                en == out.entries.len(),
                ov == out@,
                dv == decl@,
                dv.items.len() == n,
                n == decl.items.len(),
                i < n,
                mv == module_name_spec(dv),
                valid_ident(mv),
                item_spec(dv.items[i as int], mv) == Ok::<ItemOutV, ModuleError>(ov),
                process_items_from(dv.items, mv, 0, mod_init()) == process_items_from(
                    dv.items,
                    mv,
                    i as int,
                    stc,
                ),
                add_entries_from(ov.entries, 0, stc.entries) == add_entries_from(
                    ov.entries,
                    k as int,
                    nursery@,
                ),
            decreases en - k,
        {
            assert(ov.entries[k as int] == out.entries@[k as int]@);
            match nursery.add_item(&out.entries[k]) {
                Ok(_) => {},
                Err(e) => {
                    assert(add_entries_from(ov.entries, k as int, nursery@) == Err::<
                        Seq<EntryV>,
                        ModuleError,
                    >(e));
                    assert(process_items_from(dv.items, mv, i as int, stc) == Err::<
                        ModSt,
                        ModuleError,
                    >(e));
                    assert(process_spec(dv) == Err::<ProcessedV, ModuleError>(e));
                    return Err(e);
                },
            }
            k = k + 1;
        }
        assert(add_entries_from(ov.entries, 0, stc.entries) == Ok::<Seq<EntryV>, ModuleError>(
            nursery@,
        ));
        let ghost o0 = out_items@;
        out_items.push(
            DeclaredItem {
                kind: decl.items[i].kind,
                ident: decl.items[i].ident.clone(),
                anns: out.anns,
            },
        );
        assert(items_view(out_items@) =~= items_view(o0).push(
            ItemV {
                kind: dv.items[i as int].kind,
                ident: dv.items[i as int].ident,
                anns: ov.anns,
            },
        ));
        assert(process_items_from(dv.items, mv, i as int, stc) == process_items_from(
            dv.items,
            mv,
            i as int + 1,
            ModSt { items: items_view(out_items@), entries: nursery@ },
        ));
        i = i + 1;
    }
    let entries = nursery.assemble();
    let res = ProcessedModule { name, items: out_items, entries };
    assert(process_spec(dv) == Ok::<ProcessedV, ModuleError>(res@));
    Ok(res)
}

} // verus!
