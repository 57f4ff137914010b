use heck::{ToKebabCase, ToLowerCamelCase, ToPascalCase, ToSnakeCase};
use vstd::prelude::*;

verus! {

/// How a symbol name is turned into the file name of the module that holds it.
#[derive(Clone, Copy, Debug, PartialEq, Eq, Structural)]
pub enum FilenameCase {
    KebabCase,
    CamelCase,
    SnakeCase,
    PascalCase,
}

/// The words of the identifier, lower case, joined by `-`.
pub uninterp spec fn kebab_of(s: Seq<char>) -> Seq<char>;

/// The first word lower case, the others capitalized, no separator.
pub uninterp spec fn lower_camel_of(s: Seq<char>) -> Seq<char>;

/// The words of the identifier, lower case, joined by `_`.
pub uninterp spec fn snake_of(s: Seq<char>) -> Seq<char>;

/// Every word capitalized, no separator.
pub uninterp spec fn pascal_of(s: Seq<char>) -> Seq<char>;

/// The file name that `case` gives to the identifier `name`.
pub open spec fn filename_of(name: Seq<char>, case: FilenameCase) -> Seq<char> {
    match case {
        FilenameCase::KebabCase => kebab_of(name),
        FilenameCase::CamelCase => lower_camel_of(name),
        FilenameCase::SnakeCase => snake_of(name),
        FilenameCase::PascalCase => pascal_of(name),
    }
}

/// Relies on heck's `ToKebabCase::to_kebab_case`: its result depends on the characters alone.
#[verifier::external_body]
fn kebab(s: &str) -> (r: String)
    ensures
        r@ == kebab_of(s@),
{
    s.to_kebab_case()
}

/// Relies on heck's `ToLowerCamelCase::to_lower_camel_case`: its result depends on the
/// characters alone.
#[verifier::external_body]
fn lower_camel(s: &str) -> (r: String)
    ensures
        r@ == lower_camel_of(s@),
{
    s.to_lower_camel_case()
}

/// Relies on heck's `ToSnakeCase::to_snake_case`: its result depends on the characters alone.
#[verifier::external_body]
fn snake(s: &str) -> (r: String)
    ensures
        r@ == snake_of(s@),
{
    s.to_snake_case()
}

/// Relies on heck's `ToPascalCase::to_pascal_case`: its result depends on the characters alone.
#[verifier::external_body]
fn pascal(s: &str) -> (r: String)
    ensures
        r@ == pascal_of(s@),
{
    s.to_pascal_case()
}

/// Converts a symbol name into the file name that `case` asks for.
pub fn transform_filename(name: &str, case: &FilenameCase) -> (r: String)
    ensures
        r@ == filename_of(name@, *case),
{
    match case {
        FilenameCase::KebabCase => kebab(name),
        FilenameCase::CamelCase => lower_camel(name),
        FilenameCase::SnakeCase => snake(name),
        FilenameCase::PascalCase => pascal(name),
    }
}

/// Converting a name is a function of the name and the case alone: two conversions of the
/// same name in the same case give the same file name.
pub proof fn lemma_filename_deterministic(name: Seq<char>, case: FilenameCase, a: Seq<char>, b: Seq<char>)
    requires
        a == filename_of(name, case),
        b == filename_of(name, case),
    ensures
        a == b,
{
}

} // verus!
