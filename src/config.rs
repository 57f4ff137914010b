use crate::case::FilenameCase;
use crate::text::{decimal, push_decimal};
use vstd::prelude::*;
use vstd::string::*;

verus! {

/// The shape of the binding that a rewritten primary import introduces.
#[derive(Clone, Copy, Debug, PartialEq, Eq, Structural)]
pub enum SpecifierType {
    /// `import Name from "path"`
    Default,
    /// `import { Name } from "path"`
    Named,
    /// `import * as Name from "path"`
    Namespace,
}

impl Default for SpecifierType {
    fn default() -> (r: Self)
        ensures
            r == SpecifierType::Default,
    {
        SpecifierType::Default
    }
}

/// One rewrite rule: imports from `source` are split into one import per symbol.
#[derive(Clone, Debug)]
pub struct TransformConfig {
    /// The module whose imports this rule rewrites.
    pub source: String,
    /// How a symbol name becomes a file name.
    pub filename: FilenameCase,
    /// Path templates; `{{ filename }}` in them stands for the converted name. The first is the
    /// path of the symbol's own import, the others are side-effect imports.
    pub output: Vec<String>,
    /// The shape of the symbol's own import.
    pub specifier: SpecifierType,
    /// When present, only these names are rewritten.
    pub allow: Option<Vec<String>>,
    /// When present, these names are not rewritten.
    pub exclude: Option<Vec<String>>,
}

/// The table of rules, in the order in which they are tried.
#[derive(Clone, Debug)]
pub struct PluginConfig {
    pub config: Vec<TransformConfig>,
}

/// What a rule says, as plain sequences of characters.
pub struct RuleView {
    pub source: Seq<char>,
    pub filename: FilenameCase,
    pub output: Seq<Seq<char>>,
    pub specifier: SpecifierType,
    pub allow: Option<Seq<Seq<char>>>,
    pub exclude: Option<Seq<Seq<char>>>,
}

/// The texts of a sequence of strings.
pub open spec fn texts(v: Seq<String>) -> Seq<Seq<char>> {
    v.map_values(|s: String| s@)
}

/// The texts of an optional list of strings.
pub open spec fn opt_texts(v: Option<Vec<String>>) -> Option<Seq<Seq<char>>> {
    match v {
        Some(l) => Some(texts(l@)),
        None => None,
    }
}

impl View for TransformConfig {
    type V = RuleView;

    open spec fn view(&self) -> RuleView {
        RuleView {
            source: self.source@,
            filename: self.filename,
            output: texts(self.output@),
            specifier: self.specifier,
            allow: opt_texts(self.allow),
            exclude: opt_texts(self.exclude),
        }
    }
}

impl RuleView {
    /// Whether the rule rewrites the symbol bound locally as `name`.
    pub open spec fn matches(self, name: Seq<char>) -> bool {
        match self.allow {
            Some(allowed) => allowed.contains(name),
            None => match self.exclude {
                Some(denied) => !denied.contains(name),
                None => true,
            },
        }
    }

    /// Both filters set: a configuration error.
    pub open spec fn has_both_filters(self) -> bool {
        self.allow is Some && self.exclude is Some
    }
}

impl View for PluginConfig {
    type V = Seq<RuleView>;

    open spec fn view(&self) -> Seq<RuleView> {
        self.config@.map_values(|r: TransformConfig| r@)
    }
}

/// The message that reports rule `index`, whose source is `source`, for setting both filters.
/// It names the filters by their configuration keys (`\u{69}` is `i`).
pub open spec fn conflict_message(index: nat, source: Seq<char>) -> Seq<char> {
    "配置 #"@ + decimal(index) + " (source: '"@ + source
        + "'): \u{69}nclude 和 exclude 不能同时配置。\n请选择其中一个：\n- 使用 \u{69}nclude 指定要处理的组件（白名单）\n- 使用 exclude 指定要排除的组件（黑名单）"@
}

/// Whether `name` is among `list`.
fn list_contains(list: &Vec<String>, name: &String) -> (r: bool)
    ensures
        r == texts(list@).contains(name@),
{
    let mut i: usize = 0;
    while i < list.len()
        invariant
            i <= list@.len(),
            forall|k: int| 0 <= k < i ==> list@[k]@ != name@,
        decreases list@.len() - i,
    {
        if list[i].eq(name) {
            assert(texts(list@)[i as int] == name@);
            return true;
        }
        i = i + 1;
    }
    assert forall|k: int| 0 <= k < texts(list@).len() implies texts(list@)[k] != name@ by {
        assert(texts(list@)[k] == list@[k]@);
    }
    false
}

impl TransformConfig {
    /// Whether this rule rewrites the symbol bound locally as `name`: with an allow list,
    /// exactly the names on it; else, with an exclude list, exactly the names not on it; else
    /// every name.
    pub fn matches(&self, name: &str) -> (r: bool)
        ensures
            r == self@.matches(name@),
    {
        let name_string = String::from_str(name);
        if let Some(allowed) = &self.allow {
            return list_contains(allowed, &name_string);
        }
        if let Some(denied) = &self.exclude {
            return !list_contains(denied, &name_string);
        }
        true
    }
}

impl PluginConfig {
    /// Checks the table: fails, naming the first offending rule, exactly when some rule has
    /// both an allow list and an exclude list.
    pub fn validate(&self) -> (r: Result<(), String>)
        ensures
            r is Ok <==> (forall|i: int| 0 <= i < self@.len() ==> !self@[i].has_both_filters()),
            r is Err ==> exists|i: int|
                0 <= i < self@.len() && self@[i].has_both_filters() && (forall|j: int|
                    0 <= j < i ==> !self@[j].has_both_filters()) && r->Err_0@ == conflict_message(
                    i as nat,
                    self@[i].source,
                ),
    {
        let mut index: usize = 0;
        while index < self.config.len()
            invariant
                index <= self.config@.len(),
                forall|j: int| 0 <= j < index ==> !self@[j].has_both_filters(),
            decreases self.config@.len() - index,
        {
            let rule = &self.config[index];
            if rule.allow.is_some() && rule.exclude.is_some() {
                let mut message = String::from_str("配置 #");
                push_decimal(&mut message, index);
                message.append(" (source: '");
                message.append(rule.source.as_str());
                message.append(
                    "'): \u{69}nclude 和 exclude 不能同时配置。\n请选择其中一个：\n- 使用 \u{69}nclude 指定要处理的组件（白名单）\n- 使用 exclude 指定要排除的组件（黑名单）",
                );
                assert(self@[index as int].has_both_filters());
                return Err(message);
            }
            index = index + 1;
        }
        Ok(())
    }
}

} // verus!
