use crate::ast::{
    copy_decl, copy_specifier, items_view, specifiers_view, ImportDecl, ImportSpecifier,
    ImportView, ItemView, ModuleItem, SpecifierView,
};
use crate::case::{filename_of, transform_filename};
use crate::config::{PluginConfig, RuleView, SpecifierType, TransformConfig};
use crate::text::{replace_all, replace_all_occurrences};
use vstd::prelude::*;
use vstd::string::*;

verus! {

/// The token that an output template holds where the file name goes.
pub open spec fn placeholder() -> Seq<char> {
    "{{ filename }}"@
}

/// The path that `template` gives for the file name `filename`.
pub open spec fn import_path(template: Seq<char>, filename: Seq<char>) -> Seq<char> {
    replace_all(template, placeholder(), filename)
}

/// The binding of the primary import of `name`, in the shape that `t` asks for.
pub open spec fn primary_specifier(t: SpecifierType, name: Seq<char>) -> SpecifierView {
    match t {
        SpecifierType::Default => SpecifierView::Default(name),
        SpecifierType::Named => SpecifierView::Named(name, None),
        SpecifierType::Namespace => SpecifierView::Namespace(name),
    }
}

/// The import that template `k` of `rule` gives for the symbol `name`, whose file name is
/// `filename`: the primary import for the first template, a side-effect import for the others.
pub open spec fn synthesized_import(rule: RuleView, name: Seq<char>, filename: Seq<char>, k: int) -> ItemView {
    ItemView::Import(
        ImportView {
            src: import_path(rule.output[k], filename),
            specifiers: if k == 0 {
                seq![primary_specifier(rule.specifier, name)]
            } else {
                Seq::empty()
            },
            type_only: false,
            origin: None,
        },
    )
}

/// The imports that `rule` makes of the symbol `name` under the file name `filename`, one per
/// template, in template order.
pub open spec fn imports_for(rule: RuleView, name: Seq<char>, filename: Seq<char>) -> Seq<ItemView> {
    Seq::new(rule.output.len(), |k: int| synthesized_import(rule, name, filename, k))
}

/// The imports that `rule` makes of the symbol `name`.
pub open spec fn synthesize(rule: RuleView, name: Seq<char>) -> Seq<ItemView> {
    imports_for(rule, name, filename_of(name, rule.filename))
}

/// Whether some rule of the table is about the module `src`.
pub open spec fn has_rule_for(table: Seq<RuleView>, src: Seq<char>) -> bool {
    exists|i: int| 0 <= i < table.len() && table[i].source == src
}

/// Whether `rule` is about the module `src` and takes the symbol `name`.
pub open spec fn claims(rule: RuleView, src: Seq<char>, name: Seq<char>) -> bool {
    rule.source == src && rule.matches(name)
}

/// The position of the first rule, from position `i` on, that claims `name` imported from `src`.
pub open spec fn first_claim_from(table: Seq<RuleView>, src: Seq<char>, name: Seq<char>, i: int) -> Option<int>
    decreases table.len() - i,
{
    if i < 0 || i >= table.len() {
        None
    } else if claims(table[i], src, name) {
        Some(i)
    } else {
        first_claim_from(table, src, name, i + 1)
    }
}

/// The position of the first rule of the table that claims `name` imported from `src`.
pub open spec fn first_claim(table: Seq<RuleView>, src: Seq<char>, name: Seq<char>) -> Option<int> {
    first_claim_from(table, src, name, 0)
}

/// The imports made for the specifiers `specs` of an import from `src`: for each named
/// specifier in turn, those of the first rule that claims it; nothing for the others.
pub open spec fn expand(table: Seq<RuleView>, src: Seq<char>, specs: Seq<SpecifierView>) -> Seq<ItemView>
    decreases specs.len(),
{
    if specs.len() == 0 {
        Seq::empty()
    } else {
        let prev = expand(table, src, specs.drop_last());
        match specs.last() {
            SpecifierView::Named(local, _) => match first_claim(table, src, local) {
                Some(k) => prev + synthesize(table[k], local),
                None => prev,
            },
            _ => prev,
        }
    }
}

/// The specifiers that stay on the original statement: all but the named ones, in order.
pub open spec fn retained(specs: Seq<SpecifierView>) -> Seq<SpecifierView>
    decreases specs.len(),
{
    if specs.len() == 0 {
        Seq::empty()
    } else {
        let prev = retained(specs.drop_last());
        match specs.last() {
            SpecifierView::Named(_, _) => prev,
            _ => prev.push(specs.last()),
        }
    }
}

/// What an import statement becomes: itself where no rule is about its module; else the
/// imports made for its named specifiers, then the statement with what is left of its
/// specifiers, if anything is.
pub open spec fn rewrite_import(table: Seq<RuleView>, d: ImportView) -> Seq<ItemView> {
    if !has_rule_for(table, d.src) {
        seq![ItemView::Import(d)]
    } else {
        let kept = retained(d.specifiers);
        expand(table, d.src, d.specifiers) + if kept.len() > 0 {
            seq![ItemView::Import(ImportView { src: d.src, specifiers: kept, type_only: d.type_only, origin: d.origin })]
        } else {
            Seq::empty()
        }
    }
}

/// What one statement becomes.
pub open spec fn rewrite_item(table: Seq<RuleView>, item: ItemView) -> Seq<ItemView> {
    match item {
        ItemView::Import(d) => rewrite_import(table, d),
        ItemView::Other(h) => seq![ItemView::Other(h)],
    }
}

/// What a statement list becomes: the contributions of its statements, in order.
pub open spec fn rewrite(table: Seq<RuleView>, items: Seq<ItemView>) -> Seq<ItemView>
    decreases items.len(),
{
    if items.len() == 0 {
        Seq::empty()
    } else {
        rewrite(table, items.drop_last()) + rewrite_item(table, items.last())
    }
}

proof fn lemma_first_claim_in_range(table: Seq<RuleView>, src: Seq<char>, name: Seq<char>, i: int)
    requires
        0 <= i,
    ensures
        match first_claim_from(table, src, name, i) {
            Some(k) => i <= k < table.len() && claims(table[k], src, name),
            None => true,
        },
    decreases table.len() - i,
{
    if i < table.len() && !claims(table[i], src, name) {
        lemma_first_claim_in_range(table, src, name, i + 1);
    }
}

/// The imports that `config` makes of the symbol `local_name` once its file name is known:
/// each template with `{{ filename }}` replaced by `filename`, the first bound to `local_name`
/// in the shape that `config` asks for, the others as side-effect imports.
pub fn build_imports(local_name: &str, filename: &str, config: &TransformConfig) -> (r: Vec<ModuleItem>)
    ensures
        items_view(r@) == imports_for(config@, local_name@, filename@),
{
    let pattern = "{{ filename }}";
    proof {
        reveal_strlit("{{ filename }}");
    }
    let mut imports: Vec<ModuleItem> = Vec::new();
    let mut k: usize = 0;
    while k < config.output.len()
        invariant
            k <= config.output@.len(),
            pattern@ == placeholder(),
            pattern@.len() > 0,
            imports@.len() == k,
            forall|j: int| 0 <= j < k ==> imports@[j]@ == synthesized_import(config@, local_name@, filename@, j),
        decreases config.output@.len() - k,
    {
        let path = replace_all_occurrences(config.output[k].as_str(), pattern, filename);
        let mut specifiers: Vec<ImportSpecifier> = Vec::new();
        if k == 0 {
            let local = String::from_str(local_name);
            let s = match config.specifier {
                SpecifierType::Default => ImportSpecifier::Default { local },
                SpecifierType::Named => ImportSpecifier::Named { local, imported: None },
                SpecifierType::Namespace => ImportSpecifier::Namespace { local },
            };
            specifiers.push(s);
        }
        let ghost before = specifiers@;
        let item = ModuleItem::Import(ImportDecl { src: path, specifiers, type_only: false, origin: None });
        assert(config@.output[k as int] == config.output@[k as int]@);
        if k == 0 {
            assert(specifiers_view(before) =~= seq![primary_specifier(config.specifier, local_name@)]);
        } else {
            assert(specifiers_view(before) =~= Seq::<SpecifierView>::empty());
        }
        imports.push(item);
        k = k + 1;
    }
    assert(items_view(imports@) =~= imports_for(config@, local_name@, filename@));
    imports
}

/// Rewrites barrel imports by the rules of a table.
pub struct ImportTransformer {
    config: PluginConfig,
}

impl View for ImportTransformer {
    type V = Seq<RuleView>;

    closed spec fn view(&self) -> Seq<RuleView> {
        self.config@
    }
}

impl ImportTransformer {
    pub fn new(config: PluginConfig) -> (r: Self)
        ensures
            r@ == config@,
    {
        Self { config }
    }

    /// The imports that `config` makes of the symbol `local_name`: the primary import of the
    /// converted path from the first template, then a side-effect import for each further one.
    pub fn generate_imports(&self, local_name: &str, config: &TransformConfig) -> (r: Vec<ModuleItem>)
        ensures
            items_view(r@) == synthesize(config@, local_name@),
    {
        let filename = transform_filename(local_name, &config.filename);
        build_imports(local_name, filename.as_str(), config)
    }

    /// Whether some rule of the table is about the module `src`.
    fn has_rule_for(&self, src: &String) -> (r: bool)
        ensures
            r == has_rule_for(self@, src@),
    {
        let mut i: usize = 0;
        while i < self.config.config.len()
            invariant
                i <= self.config.config@.len(),
                forall|j: int| 0 <= j < i ==> self@[j].source != src@,
            decreases self.config.config@.len() - i,
        {
            if self.config.config[i].source.eq(src) {
                assert(self@[i as int].source == src@);
                return true;
            }
            i = i + 1;
        }
        false
    }

    /// The position of the first rule that claims `name` imported from `src`.
    fn first_claim(&self, src: &String, name: &String) -> (r: Option<usize>)
        ensures
            match r {
                Some(k) => first_claim(self@, src@, name@) == Some(k as int),
                None => first_claim(self@, src@, name@) is None,
            },
    {
        let mut i: usize = 0;
        while i < self.config.config.len()
            invariant
                i <= self.config.config@.len(),
                first_claim(self@, src@, name@) == first_claim_from(self@, src@, name@, i as int),
            decreases self.config.config@.len() - i,
        {
            let rule = &self.config.config[i];
            if rule.source.eq(src) && rule.matches(name.as_str()) {
                return Some(i);
            }
            i = i + 1;
        }
        None
    }

    /// Appends to `out` what the import statement `d` becomes.
    fn rewrite_import(&self, d: &ImportDecl, out: &mut Vec<ModuleItem>)
        ensures
            items_view(final(out)@) == items_view(old(out)@) + rewrite_import(self@, d@),
    {
        if !self.has_rule_for(&d.src) {
            out.push(ModuleItem::Import(copy_decl(d)));
            assert(items_view(out@) =~= items_view(old(out)@) + rewrite_import(self@, d@));
            return;
        }
        let ghost table = self@;
        let ghost specs = d@.specifiers;
        let mut kept: Vec<ImportSpecifier> = Vec::new();
        let mut j: usize = 0;
        while j < d.specifiers.len()
            invariant
                j <= d.specifiers@.len(),
                table == self@,
                specs == d@.specifiers,
                specs.len() == d.specifiers@.len(),
                items_view(out@) == items_view(old(out)@) + expand(table, d@.src, specs.take(j as int)),
                specifiers_view(kept@) == retained(specs.take(j as int)),
            decreases d.specifiers@.len() - j,
        {
            let ghost prefix = specs.take(j + 1);
            assert(prefix.drop_last() =~= specs.take(j as int));
            assert(prefix.last() == specs[j as int]);
            assert(specs[j as int] == d.specifiers@[j as int]@);
            let ghost out_before = items_view(out@);
            let ghost kept_before = specifiers_view(kept@);
            match &d.specifiers[j] {
                ImportSpecifier::Named { local, imported: _ } => {
                    match self.first_claim(&d.src, local) {
                        Some(k) => {
                            proof {
                                lemma_first_claim_in_range(table, d@.src, local@, 0);
                            }
                            let mut made = self.generate_imports(local.as_str(), &self.config.config[k]);
                            let ghost made_view = items_view(made@);
                            out.append(&mut made);
                            assert(items_view(out@) =~= out_before + made_view);
                        },
                        None => {},
                    }
                    assert(specifiers_view(kept@) =~= kept_before);
                },
                other => {
                    kept.push(copy_specifier(other));
                    assert(specifiers_view(kept@) =~= kept_before.push(specs[j as int]));
                },
            }
            j = j + 1;
        }
        assert(specs.take(j as int) =~= specs);
        if kept.len() > 0 {
            let rest = ImportDecl {
                src: d.src.clone(),
                specifiers: kept,
                type_only: d.type_only,
                origin: d.origin,
            };
            let ghost before = items_view(out@);
            out.push(ModuleItem::Import(rest));
            assert(items_view(out@) =~= before + seq![items_view(out@).last()]);
        } else {
            assert(items_view(out@) =~= items_view(out@) + Seq::<ItemView>::empty());
        }
        assert(items_view(out@) =~= items_view(old(out)@) + rewrite_import(self@, d@));
    }

    /// Rewrites a program's statement list: each import statement from a module that some rule
    /// is about is replaced by the imports made for its named specifiers, followed by the
    /// statement with its other specifiers, if it has any; every other statement is kept.
    pub fn visit_mut_module_items(&self, items: &mut Vec<ModuleItem>)
        ensures
            items_view(final(items)@) == rewrite(self@, items_view(old(items)@)),
    {
        let mut new_items: Vec<ModuleItem> = Vec::new();
        let mut i: usize = 0;
        while i < items.len()
            invariant
                i <= items@.len(),
                items@ == old(items)@,
                items_view(new_items@) == rewrite(self@, items_view(items@.take(i as int))),
            decreases items@.len() - i,
        {
            let ghost before = items_view(new_items@);
            assert(items_view(items@.take(i + 1)).drop_last() =~= items_view(items@.take(i as int)));
            assert(items_view(items@.take(i + 1)).last() == items@[i as int]@);
            match &items[i] {
                ModuleItem::Import(d) => {
                    self.rewrite_import(d, &mut new_items);
                },
                ModuleItem::Other(h) => {
                    new_items.push(ModuleItem::Other(*h));
                    assert(items_view(new_items@) =~= before + seq![ItemView::Other(*h)]);
                },
            }
            i = i + 1;
        }
        assert(items@.take(i as int) =~= items@);
        *items = new_items;
    }
}

} // verus!
