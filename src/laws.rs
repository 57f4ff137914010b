use crate::ast::ItemView;
use crate::config::RuleView;
use crate::transform::{expand, has_rule_for, rewrite, rewrite_import, rewrite_item};
use vstd::prelude::*;

verus! {

/// The handles of the statements that are not imports, in order.
pub open spec fn others(items: Seq<ItemView>) -> Seq<usize>
    decreases items.len(),
{
    if items.len() == 0 {
        Seq::empty()
    } else {
        let prev = others(items.drop_last());
        match items.last() {
            ItemView::Other(h) => prev.push(h),
            ItemView::Import(_) => prev,
        }
    }
}

proof fn lemma_others_concat(a: Seq<ItemView>, b: Seq<ItemView>)
    ensures
        others(a + b) == others(a) + others(b),
    decreases b.len(),
{
    if b.len() == 0 {
        assert(a + b =~= a);
        assert(others(a) + others(b) =~= others(a));
    } else {
        assert((a + b).drop_last() =~= a + b.drop_last());
        lemma_others_concat(a, b.drop_last());
        if let ItemView::Other(h) = b.last() {
            assert(others(a) + others(b.drop_last()).push(h) =~= (others(a) + others(b.drop_last())).push(h));
        }
    }
}

proof fn lemma_import_only(items: Seq<ItemView>)
    requires
        forall|k: int| 0 <= k < items.len() ==> items[k] is Import,
    ensures
        others(items) == Seq::<usize>::empty(),
    decreases items.len(),
{
    if items.len() > 0 {
        lemma_import_only(items.drop_last());
    }
}

proof fn lemma_expand_imports(table: Seq<RuleView>, src: Seq<char>, specs: Seq<crate::ast::SpecifierView>)
    ensures
        forall|k: int| 0 <= k < expand(table, src, specs).len() ==> expand(table, src, specs)[k] is Import,
    decreases specs.len(),
{
    if specs.len() > 0 {
        lemma_expand_imports(table, src, specs.drop_last());
    }
}

/// The statements that are not imports come out of a rewrite unchanged and in their order.
pub proof fn law_other_statements_keep_order(table: Seq<RuleView>, items: Seq<ItemView>)
    ensures
        others(rewrite(table, items)) == others(items),
    decreases items.len(),
{
    if items.len() > 0 {
        let last = items.last();
        law_other_statements_keep_order(table, items.drop_last());
        lemma_others_concat(rewrite(table, items.drop_last()), rewrite_item(table, last));
        assert(rewrite(table, items) == rewrite(table, items.drop_last()) + rewrite_item(table, last));
        match last {
            ItemView::Import(d) => {
                lemma_expand_imports(table, d.src, d.specifiers);
                let made = rewrite_import(table, d);
                let e = expand(table, d.src, d.specifiers);
                assert forall|k: int| 0 <= k < made.len() implies made[k] is Import by {
                    if has_rule_for(table, d.src) && k < e.len() {
                        assert(made[k] == e[k]);
                    }
                }
                lemma_import_only(made);
                assert(others(rewrite_item(table, last)) == Seq::<usize>::empty());
                assert(others(items) == others(items.drop_last()));
                assert(others(rewrite(table, items.drop_last())) + Seq::<usize>::empty() =~= others(
                    rewrite(table, items.drop_last()),
                ));
            },
            ItemView::Other(h) => {
                let single = seq![ItemView::Other(h)];
                assert(single.drop_last() =~= Seq::<ItemView>::empty());
                assert(single.last() == ItemView::Other(h));
                assert(others(single.drop_last()) == Seq::<usize>::empty());
                assert(others(single) =~= seq![h]);
                assert(others(items) == others(items.drop_last()).push(h));
                assert(others(rewrite(table, items.drop_last())) + seq![h] =~= others(
                    rewrite(table, items.drop_last()),
                ).push(h));
            },
        }
    }
}

} // verus!
