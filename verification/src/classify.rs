//! Classifying an item's annotation list.
//!
//! A left-to-right scan first collects the leading run of guard annotations
//! (unrecognized annotations may sit between them); the first role
//! annotation stops that collection. A second scan over the remaining
//! annotations resolves role annotations into typed role items, enforcing
//! the composition rules: a guard after a role is fatal, an attribute role
//! may only prefix a class-like role, one composing role per item.

use vstd::prelude::*;
use crate::ast::{AnnKind, AnnV, Annotation, anns_view};
use crate::errors::{ErrorKind, ModuleError};

verus! {

/// One typed role item produced for a declared item; indices point into the
/// item's annotation list.
pub enum RoleItem {
    /// A function role at annotation `idx`.
    Function { idx: usize },
    /// A class-like role at annotation `idx`, prefixed by the attribute
    /// roles at `pyattrs` (in collection order).
    Class { idx: usize, pyattrs: Vec<usize> },
    /// A standalone attribute role at annotation `idx`.
    Attribute { idx: usize },
}

/// Mathematical value of a [`RoleItem`].
pub enum RoleItemV {
    Function { idx: int },
    Class { idx: int, pyattrs: Seq<int> },
    Attribute { idx: int },
}

/// Lifts a sequence of indices to its mathematical value.
pub open spec fn idxs_view(s: Seq<usize>) -> Seq<int> {
    s.map_values(|x: usize| x as int)
}

impl View for RoleItem {
    type V = RoleItemV;

    open spec fn view(&self) -> RoleItemV {
        match self {
            RoleItem::Function { idx } => RoleItemV::Function { idx: *idx as int },
            RoleItem::Class { idx, pyattrs } => (RoleItemV::Class {
                idx: *idx as int,
                pyattrs: idxs_view(pyattrs@),
            }),
            RoleItem::Attribute { idx } => RoleItemV::Attribute { idx: *idx as int },
        }
    }
}

/// Lifts a sequence of role items to its mathematical value.
pub open spec fn roles_view(s: Seq<RoleItem>) -> Seq<RoleItemV> {
    s.map_values(|r: RoleItem| r@)
}

/// The outcome of classifying one item's annotation list: the typed role
/// items in resolution order, and the indices of the collected guards.
pub struct Classified {
    pub roles: Vec<RoleItem>,
    pub guards: Vec<usize>,
}

/// Mathematical value of a [`Classified`].
pub struct ClassifiedV {
    pub roles: Seq<RoleItemV>,
    pub guards: Seq<int>,
}

impl View for Classified {
    type V = ClassifiedV;

    open spec fn view(&self) -> ClassifiedV {
        ClassifiedV { roles: roles_view(self.roles@), guards: idxs_view(self.guards@) }
    }
}

/// Whether an annotation kind is a role annotation.
pub open spec fn is_role(k: AnnKind) -> bool {
    k == AnnKind::FunctionRole || k == AnnKind::AttrRole || k == AnnKind::ClassRole
}

/// The position of the first role annotation at or after `i`, or the list's
/// length when there is none.
pub open spec fn first_role_from(anns: Seq<AnnV>, i: int) -> int
    decreases anns.len() - i,
{
    if i >= anns.len() {
        anns.len() as int
    } else if is_role(anns[i].kind) {
        i
    } else {
        first_role_from(anns, i + 1)
    }
}

/// The indices of the guard annotations collected at or after `i` and
/// before the first role annotation.
pub open spec fn guard_idxs_from(anns: Seq<AnnV>, i: int) -> Seq<int>
    decreases anns.len() - i,
{
    if i >= anns.len() {
        Seq::empty()
    } else if is_role(anns[i].kind) {
        Seq::empty()
    } else if anns[i].kind == AnnKind::Guard {
        seq![i] + guard_idxs_from(anns, i + 1)
    } else {
        guard_idxs_from(anns, i + 1)
    }
}

/// The resolver's running state: the pending attribute-role prefix, the
/// role items produced so far, and whether a composition has closed.
pub struct ResolveSt {
    pub pending: Seq<int>,
    pub acc: Seq<RoleItemV>,
    pub closed: bool,
}

/// The resolver's initial state.
pub open spec fn resolve_init() -> ResolveSt {
    ResolveSt { pending: Seq::empty(), acc: Seq::empty(), closed: false }
}

/// Resolves the annotations from position `i` on, in state `st`. At the
/// end, attribute roles still pending become standalone attribute items.
pub open spec fn resolve_from(anns: Seq<AnnV>, i: int, st: ResolveSt) -> Result<
    Seq<RoleItemV>,
    ModuleError,
>
    decreases anns.len() - i,
{
    if i >= anns.len() {
        Ok(st.acc + st.pending.map_values(|j: int| RoleItemV::Attribute { idx: j }))
    } else {
        let k = anns[i].kind;
        let loc = anns[i].loc;
        if k == AnnKind::Guard {
            Err(ModuleError { kind: ErrorKind::GuardPlacement, loc })
        } else if !is_role(k) {
            resolve_from(anns, i + 1, st)
        } else if st.closed {
            Err(ModuleError { kind: ErrorKind::MultipleComposition, loc })
        } else if k == AnnKind::AttrRole {
            if st.acc.len() > 0 {
                Err(ModuleError { kind: ErrorKind::CompositionOrder, loc })
            } else {
                resolve_from(
                    anns,
                    i + 1,
                    ResolveSt { pending: st.pending.push(i), acc: st.acc, closed: st.closed },
                )
            }
        } else if k == AnnKind::FunctionRole {
            if st.pending.len() > 0 {
                Err(ModuleError { kind: ErrorKind::UnsupportedComposition, loc })
            } else {
                resolve_from(
                    anns,
                    i + 1,
                    ResolveSt {
                        pending: st.pending,
                        acc: st.acc.push(RoleItemV::Function { idx: i }),
                        closed: st.closed,
                    },
                )
            }
        } else {
            if st.pending.len() == 0 {
                resolve_from(
                    anns,
                    i + 1,
                    ResolveSt {
                        pending: st.pending,
                        acc: st.acc.push(RoleItemV::Class { idx: i, pyattrs: Seq::empty() }),
                        closed: st.closed,
                    },
                )
            } else {
                resolve_from(
                    anns,
                    i + 1,
                    ResolveSt {
                        pending: Seq::empty(),
                        acc: st.acc.push(RoleItemV::Class { idx: i, pyattrs: st.pending }),
                        closed: true,
                    },
                )
            }
        }
    }
}

/// What classifying an annotation list yields: the typed role items and the
/// collected guard indices, or the first fatal error of the scan.
pub open spec fn classify_spec(anns: Seq<AnnV>) -> Result<ClassifiedV, ModuleError> {
    match resolve_from(anns, first_role_from(anns, 0), resolve_init()) {
        Ok(roles) => Ok(ClassifiedV { roles, guards: guard_idxs_from(anns, 0) }),
        Err(e) => Err(e),
    }
}

/// Lifts a classification result to its mathematical value.
pub open spec fn classified_result_view(r: Result<Classified, ModuleError>) -> Result<
    ClassifiedV,
    ModuleError,
> {
    match r {
        Ok(c) => Ok(c@),
        Err(e) => Err(e),
    }
}

/// Whether every index a role item mentions lies below `n`.
pub open spec fn role_idxs_below(r: RoleItemV, n: int) -> bool {
    match r {
        RoleItemV::Function { idx } => 0 <= idx < n,
        RoleItemV::Class { idx, pyattrs } => 0 <= idx < n && (forall|k: int|
            0 <= k < pyattrs.len() ==> 0 <= #[trigger] pyattrs[k] < n),
        RoleItemV::Attribute { idx } => 0 <= idx < n,
    }
}

/// Whether an annotation kind is a role annotation.
pub fn is_role_ann(k: AnnKind) -> (r: bool)
    ensures
        r == is_role(k),
{
    matches!(k, AnnKind::FunctionRole | AnnKind::AttrRole | AnnKind::ClassRole)
}

/// Classifies one item's annotation list: splits the leading guard run from
/// the role annotations and resolves the roles into typed role items,
/// exactly as [`classify_spec`] describes. Every index in the result points
/// into `anns`.
pub fn attrs_to_pyitems(anns: &Vec<Annotation>) -> (res: Result<Classified, ModuleError>)
    ensures
        classified_result_view(res) == classify_spec(anns_view(anns@)),
        res matches Ok(c) ==> forall|k: int|
            0 <= k < c@.roles.len() ==> role_idxs_below(#[trigger] c@.roles[k], anns@.len() as int),
        res matches Ok(c) ==> forall|k: int|
            0 <= k < c@.guards.len() ==> 0 <= #[trigger] c@.guards[k] < anns@.len() as int,
{
    let ghost av = anns_view(anns@);
    let n = anns.len();
    assert(av.len() == n);
    let mut guards: Vec<usize> = Vec::new();
    let mut i: usize = 0;
    // first pass: collect guards until the first role annotation
    while i < n && !is_role_ann(anns[i].kind)
        invariant
            i <= n,
            n == anns.len(),
            av == anns_view(anns@),
            av.len() == n,
            first_role_from(av, 0) == first_role_from(av, i as int),
            guard_idxs_from(av, 0) == idxs_view(guards@) + guard_idxs_from(av, i as int),
            forall|k: int| 0 <= k < guards@.len() ==> #[trigger] guards@[k] < n,
        decreases n - i,
    {
        assert(av[i as int].kind == anns@[i as int]@.kind);
        if matches!(anns[i].kind, AnnKind::Guard) {
            let ghost g0 = guards@;
            guards.push(i);
            assert(idxs_view(guards@) =~= idxs_view(g0).push(i as int));
            assert(guard_idxs_from(av, i as int) == seq![i as int] + guard_idxs_from(
                av,
                i as int + 1,
            ));
            assert(idxs_view(guards@) + guard_idxs_from(av, i as int + 1) =~= idxs_view(g0) + (
            seq![i as int] + guard_idxs_from(av, i as int + 1)));
        }
        i = i + 1;
    }
    let ghost fr = i as int;
    assert(first_role_from(av, fr) == fr);
    assert(guard_idxs_from(av, fr) =~= Seq::<int>::empty());
    assert(guard_idxs_from(av, 0) =~= idxs_view(guards@));

    // second pass: resolve role annotations
    let mut pending: Vec<usize> = Vec::new();
    let mut roles: Vec<RoleItem> = Vec::new();
    let mut closed = false;
    assert(idxs_view(pending@) =~= Seq::<int>::empty());
    assert(roles_view(roles@) =~= Seq::<RoleItemV>::empty());
    assert((ResolveSt { pending: idxs_view(pending@), acc: roles_view(roles@), closed: closed })
        == resolve_init());
    while i < n
        invariant
            fr <= i <= n,
            n == anns.len(),
            av == anns_view(anns@),
            av.len() == n,
            first_role_from(av, 0) == fr,
            guard_idxs_from(av, 0) == idxs_view(guards@),
            forall|k: int| 0 <= k < guards@.len() ==> #[trigger] guards@[k] < n,
            forall|k: int| 0 <= k < pending@.len() ==> #[trigger] pending@[k] < n,
            forall|k: int|
                0 <= k < roles@.len() ==> role_idxs_below(#[trigger] roles_view(roles@)[k], n as int),
            resolve_from(av, fr, resolve_init()) == resolve_from(
                av,
                i as int,
                ResolveSt {
                    pending: idxs_view(pending@),
                    acc: roles_view(roles@),
                    closed: closed,
                },
            ),
        decreases n - i,
    {
        let ghost cur = ResolveSt {
            pending: idxs_view(pending@),
            acc: roles_view(roles@),
            closed: closed,
        };
        assert(av[i as int] == anns@[i as int]@);
        let loc = anns[i].loc;
        match anns[i].kind {
            AnnKind::Guard => {
                assert(resolve_from(av, i as int, cur) == Err::<Seq<RoleItemV>, ModuleError>(
                    ModuleError { kind: ErrorKind::GuardPlacement, loc },
                ));
                return Err(ModuleError { kind: ErrorKind::GuardPlacement, loc });
            },
            AnnKind::Other => {
                assert(resolve_from(av, i as int, cur) == resolve_from(av, i as int + 1, cur));
            },
            AnnKind::AttrRole => {
                if closed {
                    return Err(ModuleError { kind: ErrorKind::MultipleComposition, loc });
                }
                if roles.len() > 0 {
                    return Err(ModuleError { kind: ErrorKind::CompositionOrder, loc });
                }
                let ghost p0 = pending@;
                pending.push(i);
                assert(idxs_view(pending@) =~= idxs_view(p0).push(i as int));
            },
            AnnKind::FunctionRole => {
                if closed {
                    return Err(ModuleError { kind: ErrorKind::MultipleComposition, loc });
                }
                if pending.len() > 0 {
                    return Err(ModuleError { kind: ErrorKind::UnsupportedComposition, loc });
                }
                let ghost r0 = roles@;
                roles.push(RoleItem::Function { idx: i });
                assert(roles_view(roles@) =~= roles_view(r0).push(
                    RoleItemV::Function { idx: i as int },
                ));
            },
            AnnKind::ClassRole => {
                if closed {
                    return Err(ModuleError { kind: ErrorKind::MultipleComposition, loc });
                }
                let ghost r0 = roles@;
                if pending.len() == 0 {
                    roles.push(RoleItem::Class { idx: i, pyattrs: Vec::new() });
                    assert(idxs_view(Seq::<usize>::empty()) =~= Seq::<int>::empty());
                    assert(roles_view(roles@) =~= roles_view(r0).push(
                        RoleItemV::Class { idx: i as int, pyattrs: Seq::empty() },
                    ));
                } else {
                    let ghost pv = idxs_view(pending@);
                    roles.push(RoleItem::Class { idx: i, pyattrs: pending });
                    pending = Vec::new();
                    closed = true;
                    assert(idxs_view(pending@) =~= Seq::<int>::empty());
                    assert(roles_view(roles@) =~= roles_view(r0).push(
                        RoleItemV::Class { idx: i as int, pyattrs: pv },
                    ));
                }
            },
        }
        i = i + 1;
    }
    // append the still-pending attribute roles as standalone items
    let ghost accv = roles_view(roles@);
    let ghost pendv = idxs_view(pending@);
    assert(resolve_from(av, n as int, ResolveSt { pending: pendv, acc: accv, closed: closed })
        == Ok::<Seq<RoleItemV>, ModuleError>(
        accv + pendv.map_values(|j: int| RoleItemV::Attribute { idx: j }),
    ));
    let m = pending.len();
    let mut k: usize = 0;
    while k < m
        invariant
            k <= m,
            m == pending.len(),
            pendv == idxs_view(pending@),
            forall|t: int| 0 <= t < pending@.len() ==> #[trigger] pending@[t] < n,
            forall|t: int|
                0 <= t < roles@.len() ==> role_idxs_below(#[trigger] roles_view(roles@)[t], n as int),
            roles_view(roles@) =~= accv + pendv.subrange(0, k as int).map_values(
                |j: int| RoleItemV::Attribute { idx: j },
            ),
        decreases m - k,
    {
        let ghost r0 = roles@;
        roles.push(RoleItem::Attribute { idx: pending[k] });
        assert(roles_view(roles@) =~= roles_view(r0).push(
            RoleItemV::Attribute { idx: pending@[k as int] as int },
        ));
        assert(pendv.subrange(0, k as int + 1).map_values(|j: int| RoleItemV::Attribute { idx: j })
            =~= pendv.subrange(0, k as int).map_values(
            |j: int| RoleItemV::Attribute { idx: j },
        ).push(RoleItemV::Attribute { idx: pendv[k as int] }));
        k = k + 1;
    }
    assert(pendv.subrange(0, m as int) =~= pendv);
    let res = Classified { roles, guards };
    assert(res@.roles =~= accv + pendv.map_values(|j: int| RoleItemV::Attribute { idx: j }));
    Ok(res)
}

} // verus!
