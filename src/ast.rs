use vstd::prelude::*;

verus! {

/// One binding of an import statement, by its local name.
#[derive(Clone, Debug, PartialEq, Eq)]
pub enum ImportSpecifier {
    /// `import local from "m"`
    Default { local: String },
    /// `import { local } from "m"`, or `import { imported as local } from "m"`
    Named { local: String, imported: Option<String> },
    /// `import * as local from "m"`
    Namespace { local: String },
}

/// An import statement.
#[derive(Clone, Debug, PartialEq, Eq)]
pub struct ImportDecl {
    /// The module imported from.
    pub src: String,
    pub specifiers: Vec<ImportSpecifier>,
    pub type_only: bool,
    /// For a statement that stands for one of the program's own, the handle of that statement,
    /// whose position, attributes and phase it keeps; `None` for a statement made here.
    pub origin: Option<usize>,
}

/// A top-level statement of a program: an import, or any other statement, carried by a
/// handle that the host gives it.
#[derive(Clone, Debug, PartialEq, Eq)]
pub enum ModuleItem {
    Import(ImportDecl),
    Other(usize),
}

pub enum SpecifierView {
    Default(Seq<char>),
    Named(Seq<char>, Option<Seq<char>>),
    Namespace(Seq<char>),
}

pub struct ImportView {
    pub src: Seq<char>,
    pub specifiers: Seq<SpecifierView>,
    pub type_only: bool,
    pub origin: Option<usize>,
}

pub enum ItemView {
    Import(ImportView),
    Other(usize),
}

impl View for ImportSpecifier {
    type V = SpecifierView;

    open spec fn view(&self) -> SpecifierView {
        match self {
            ImportSpecifier::Default { local } => SpecifierView::Default(local@),
            ImportSpecifier::Named { local, imported } => SpecifierView::Named(
                local@,
                match imported {
                    Some(s) => Some(s@),
                    None => None,
                },
            ),
            ImportSpecifier::Namespace { local } => SpecifierView::Namespace(local@),
        }
    }
}

/// The views of a sequence of specifiers.
pub open spec fn specifiers_view(v: Seq<ImportSpecifier>) -> Seq<SpecifierView> {
    v.map_values(|s: ImportSpecifier| s@)
}

impl View for ImportDecl {
    type V = ImportView;

    open spec fn view(&self) -> ImportView {
        ImportView {
            src: self.src@,
            specifiers: specifiers_view(self.specifiers@),
            type_only: self.type_only,
            origin: self.origin,
        }
    }
}

impl View for ModuleItem {
    type V = ItemView;

    open spec fn view(&self) -> ItemView {
        match self {
            ModuleItem::Import(d) => ItemView::Import(d@),
            ModuleItem::Other(h) => ItemView::Other(*h),
        }
    }
}

/// The views of a sequence of statements.
pub open spec fn items_view(v: Seq<ModuleItem>) -> Seq<ItemView> {
    v.map_values(|i: ModuleItem| i@)
}

/// A copy of a string.
fn copy_string(s: &String) -> (r: String)
    ensures
        r@ == s@,
{
    s.clone()
}

/// A copy of a specifier.
pub fn copy_specifier(s: &ImportSpecifier) -> (r: ImportSpecifier)
    ensures
        r@ == s@,
{
    match s {
        ImportSpecifier::Default { local } => ImportSpecifier::Default { local: copy_string(local) },
        ImportSpecifier::Named { local, imported } => ImportSpecifier::Named {
            local: copy_string(local),
            imported: match imported {
                Some(i) => Some(copy_string(i)),
                None => None,
            },
        },
        ImportSpecifier::Namespace { local } => ImportSpecifier::Namespace {
            local: copy_string(local),
        },
    }
}

/// A copy of an import statement.
pub fn copy_decl(d: &ImportDecl) -> (r: ImportDecl)
    ensures
        r@ == d@,
{
    let mut specifiers: Vec<ImportSpecifier> = Vec::new();
    let mut j: usize = 0;
    while j < d.specifiers.len()
        invariant
            j <= d.specifiers@.len(),
            specifiers@.len() == j,
            forall|k: int| 0 <= k < j ==> specifiers@[k]@ == d.specifiers@[k]@,
        decreases d.specifiers@.len() - j,
    {
        specifiers.push(copy_specifier(&d.specifiers[j]));
        j = j + 1;
    }
    assert(specifiers_view(specifiers@) =~= specifiers_view(d.specifiers@));
    ImportDecl {
        src: copy_string(&d.src),
        specifiers,
        type_only: d.type_only,
        origin: d.origin,
    }
}

} // verus!
