//! The syntactic model a module is processed over.
//!
//! An external parser supplies a [`ModuleDeclaration`]: the module's own
//! identifier, the arguments of the module annotation, and the ordered items,
//! each carrying an ordered annotation list. Processing returns the same
//! items with their consumed annotations removed, together with the ordered
//! registration entries; rendering those entries into real code is the
//! caller's concern.

use vstd::prelude::*;

verus! {

/// The classification of one annotation's name, as the parser reports it.
#[derive(Clone, Copy, Debug, PartialEq, Eq, Structural)]
pub enum AnnKind {
    /// A conditional-compilation guard; carried verbatim onto every entry
    /// generated for the roles it precedes, and left on the item.
    Guard,
    /// The function role: expose a callable under a binding name.
    FunctionRole,
    /// The attribute role: expose a plain value, or prefix a class-like role.
    AttrRole,
    /// The class-like composing role, legal on structs and enums.
    ClassRole,
    /// Any unrecognized annotation; ignored and left untouched.
    Other,
}

/// One key/value argument of an annotation; a bare marker (such as the
/// class role's opt-out) has an empty value.
#[derive(Debug)]
pub struct AnnArg {
    pub key: String,
    pub value: String,
}

/// Mathematical value of an [`AnnArg`].
pub struct AnnArgV {
    pub key: Seq<char>,
    pub value: Seq<char>,
}

impl View for AnnArg {
    type V = AnnArgV;

    open spec fn view(&self) -> AnnArgV {
        AnnArgV { key: self.key@, value: self.value@ }
    }
}

/// One annotation on a declared item: its kind, its ordered arguments and
/// an opaque source location used only in diagnostics.
#[derive(Debug)]
pub struct Annotation {
    pub kind: AnnKind,
    pub args: Vec<AnnArg>,
    pub loc: usize,
}

/// Mathematical value of an [`Annotation`].
pub struct AnnV {
    pub kind: AnnKind,
    pub args: Seq<AnnArgV>,
    pub loc: usize,
}

/// Lifts a sequence of annotation arguments to its mathematical value.
pub open spec fn args_view(s: Seq<AnnArg>) -> Seq<AnnArgV> {
    s.map_values(|a: AnnArg| a@)
}

impl View for Annotation {
    type V = AnnV;

    open spec fn view(&self) -> AnnV {
        AnnV { kind: self.kind, args: args_view(self.args@), loc: self.loc }
    }
}

/// Lifts a sequence of annotations to its mathematical value.
pub open spec fn anns_view(s: Seq<Annotation>) -> Seq<AnnV> {
    s.map_values(|a: Annotation| a@)
}

/// The kind of the declaration underlying an item, together with the one
/// identifier the generators read off it.
#[derive(Clone, Copy, Debug, PartialEq, Eq, Structural)]
pub enum DeclKind {
    /// A function declaration.
    Function,
    /// A struct declaration.
    Struct,
    /// An enum declaration.
    Enum,
    /// A constant declaration.
    Const,
    /// A plain single-segment import alias; the item's identifier holds the
    /// imported name.
    UseName,
    /// A renamed single-segment import alias; the item's identifier holds
    /// the new name.
    UseRename,
    /// Any other import alias shape; never legal under an attribute role.
    UseOther,
    /// Any other declaration; never legal under a role annotation.
    Other,
}

/// One declared item of the module: the underlying declaration's kind, its
/// identifier, and its ordered, rewritable annotation list.
#[derive(Debug)]
pub struct DeclaredItem {
    pub kind: DeclKind,
    pub ident: String,
    pub anns: Vec<Annotation>,
}

/// Mathematical value of a [`DeclaredItem`].
pub struct ItemV {
    pub kind: DeclKind,
    pub ident: Seq<char>,
    pub anns: Seq<AnnV>,
}

impl View for DeclaredItem {
    type V = ItemV;

    open spec fn view(&self) -> ItemV {
        ItemV { kind: self.kind, ident: self.ident@, anns: anns_view(self.anns@) }
    }
}

/// Lifts a sequence of declared items to its mathematical value.
pub open spec fn items_view(s: Seq<DeclaredItem>) -> Seq<ItemV> {
    s.map_values(|i: DeclaredItem| i@)
}

/// The module declaration handed in by the parser: the module's identifier,
/// the arguments of the module annotation itself (which may override the
/// exposed name), and the ordered items.
#[derive(Debug)]
pub struct ModuleDeclaration {
    pub ident: String,
    pub attr_args: Vec<AnnArg>,
    pub items: Vec<DeclaredItem>,
}

/// Mathematical value of a [`ModuleDeclaration`].
pub struct ModuleDeclV {
    pub ident: Seq<char>,
    pub attr_args: Seq<AnnArgV>,
    pub items: Seq<ItemV>,
}

impl View for ModuleDeclaration {
    type V = ModuleDeclV;

    open spec fn view(&self) -> ModuleDeclV {
        ModuleDeclV {
            ident: self.ident@,
            attr_args: args_view(self.attr_args@),
            items: items_view(self.items@),
        }
    }
}

/// One generated registration statement, in structured form. The caller
/// renders each variant into runtime calls against a module object.
#[derive(Debug)]
pub enum Statement {
    /// Construct a callable from `fn_ident`, tagged with the module and
    /// binding names, and bind it under `py_name`.
    BindFunction { fn_ident: String, module: String, py_name: String },
    /// Construct the class value of `class_ident`, attach the module name to
    /// it as metadata, and bind it under `py_name`.
    BindClass { class_ident: String, module: String, py_name: String },
    /// Convert the value of `ident` into a generic interpreter object and
    /// bind it under `py_name`; when `invoke` holds, the identifier is a
    /// function first applied to the runtime handle.
    BindValue { ident: String, py_name: String, invoke: bool },
}

/// Mathematical value of a [`Statement`].
pub enum StmtV {
    BindFunction { fn_ident: Seq<char>, module: Seq<char>, py_name: Seq<char> },
    BindClass { class_ident: Seq<char>, module: Seq<char>, py_name: Seq<char> },
    BindValue { ident: Seq<char>, py_name: Seq<char>, invoke: bool },
}

impl View for Statement {
    type V = StmtV;

    open spec fn view(&self) -> StmtV {
        match self {
            Statement::BindFunction { fn_ident, module, py_name } => (StmtV::BindFunction {
                fn_ident: fn_ident@,
                module: module@,
                py_name: py_name@,
            }),
            Statement::BindClass { class_ident, module, py_name } => (StmtV::BindClass {
                class_ident: class_ident@,
                module: module@,
                py_name: py_name@,
            }),
            Statement::BindValue { ident, py_name, invoke } => (StmtV::BindValue {
                ident: ident@,
                py_name: py_name@,
                invoke: *invoke,
            }),
        }
    }
}

/// One unit accumulated by the nursery: the resolved binding name, the guard
/// annotations to wrap the statement in (verbatim copies), the statement,
/// and the source location of the role annotation that produced it.
#[derive(Debug)]
pub struct RegistrationEntry {
    pub name: String,
    pub guards: Vec<Annotation>,
    pub stmt: Statement,
    pub loc: usize,
}

/// Mathematical value of a [`RegistrationEntry`].
pub struct EntryV {
    pub name: Seq<char>,
    pub guards: Seq<AnnV>,
    pub stmt: StmtV,
    pub loc: usize,
}

impl View for RegistrationEntry {
    type V = EntryV;

    open spec fn view(&self) -> EntryV {
        EntryV { name: self.name@, guards: anns_view(self.guards@), stmt: self.stmt@, loc: self.loc }
    }
}

/// Lifts a sequence of registration entries to its mathematical value.
pub open spec fn entries_view(s: Seq<RegistrationEntry>) -> Seq<EntryV> {
    s.map_values(|e: RegistrationEntry| e@)
}

/// The outcome of processing a module: its validated name, the items with
/// their consumed annotations removed, and the ordered registration block.
/// The two derived routines are determined by this value: the extend routine
/// runs `entries` in order against a given module object, and the make
/// routine builds a fresh module object named `name` and extends it.
#[derive(Debug)]
pub struct ProcessedModule {
    pub name: String,
    pub items: Vec<DeclaredItem>,
    pub entries: Vec<RegistrationEntry>,
}

/// Mathematical value of a [`ProcessedModule`].
pub struct ProcessedV {
    pub name: Seq<char>,
    pub items: Seq<ItemV>,
    pub entries: Seq<EntryV>,
}

impl View for ProcessedModule {
    type V = ProcessedV;

    open spec fn view(&self) -> ProcessedV {
        ProcessedV {
            name: self.name@,
            items: items_view(self.items@),
            entries: entries_view(self.entries@),
        }
    }
}

/// Builds a fresh copy of an annotation argument, equal in value.
pub fn copy_arg(a: &AnnArg) -> (r: AnnArg)
    ensures
        r@ == a@,
{
    AnnArg { key: a.key.clone(), value: a.value.clone() }
}

/// Builds a fresh copy of an argument list, equal in value.
pub fn copy_args(args: &Vec<AnnArg>) -> (r: Vec<AnnArg>)
    ensures
        args_view(r@) == args_view(args@),
{
    let mut r: Vec<AnnArg> = Vec::new();
    let n = args.len();
    let mut i: usize = 0;
    while i < n
        invariant
            i <= n,
            n == args.len(),
            r@.len() == i,
            forall|j: int| 0 <= j < i ==> #[trigger] r@[j]@ == args@[j]@,
        decreases n - i,
    {
        r.push(copy_arg(&args[i]));
        i = i + 1;
    }
    assert(args_view(r@) =~= args_view(args@));
    r
}

/// Builds a fresh copy of an annotation, equal in value.
pub fn copy_ann(a: &Annotation) -> (r: Annotation)
    ensures
        r@ == a@,
{
    Annotation { kind: a.kind, args: copy_args(&a.args), loc: a.loc }
}

/// Builds a fresh copy of an annotation list, equal in value.
pub fn copy_anns(anns: &Vec<Annotation>) -> (r: Vec<Annotation>)
    ensures
        anns_view(r@) == anns_view(anns@),
{
    let mut r: Vec<Annotation> = Vec::new();
    let n = anns.len();
    let mut i: usize = 0;
    while i < n
        invariant
            i <= n,
            n == anns.len(),
            r@.len() == i,
            forall|j: int| 0 <= j < i ==> #[trigger] r@[j]@ == anns@[j]@,
        decreases n - i,
    {
        r.push(copy_ann(&anns[i]));
        i = i + 1;
    }
    assert(anns_view(r@) =~= anns_view(anns@));
    r
}

/// Builds a fresh copy of a statement, equal in value.
pub fn copy_stmt(s: &Statement) -> (r: Statement)
    ensures
        r@ == s@,
{
    match s {
        Statement::BindFunction { fn_ident, module, py_name } => (Statement::BindFunction {
            fn_ident: fn_ident.clone(),
            module: module.clone(),
            py_name: py_name.clone(),
        }),
        Statement::BindClass { class_ident, module, py_name } => (Statement::BindClass {
            class_ident: class_ident.clone(),
            module: module.clone(),
            py_name: py_name.clone(),
        }),
        Statement::BindValue { ident, py_name, invoke } => (Statement::BindValue {
            ident: ident.clone(),
            py_name: py_name.clone(),
            invoke: *invoke,
        }),
    }
}

/// Builds a fresh copy of a registration entry, equal in value.
pub fn copy_entry(e: &RegistrationEntry) -> (r: RegistrationEntry)
    ensures
        r@ == e@,
{
    RegistrationEntry {
        name: e.name.clone(),
        guards: copy_anns(&e.guards),
        stmt: copy_stmt(&e.stmt),
        loc: e.loc,
    }
}

} // verus!
