//! Rewriting names into a casing convention.

use crate::model::options::RenameCase;
use crate::text::same_text;
use vstd::prelude::*;

verus! {

/// `text` rewritten into `case`: its words, split at the usual
/// boundaries (separators, lower-to-upper changes and the like), spelled
/// and joined as the convention demands.
pub uninterp spec fn case_converted(text: Seq<char>, case: RenameCase) -> Seq<char>;

/// Whether `text` already follows `case`: rewriting it changes nothing.
pub open spec fn follows_case(text: Seq<char>, case: RenameCase) -> bool {
    case_converted(text, case) == text
}

/// Calls `convert_case::Casing::to_case` with the convention that `case`
/// stands for (`ScreamingSnake` is the crate's `Constant`). The result
/// depends on the two arguments alone and is given the name
/// [`case_converted`]; nothing else is claimed about it.
#[verifier::external_body]
pub(crate) fn to_case(text: &str, case: RenameCase) -> (converted: String)
    ensures
        converted@ == case_converted(text@, case),
{
    let case = match case {
        RenameCase::Camel => convert_case::Case::Camel,
        RenameCase::Pascal => convert_case::Case::Pascal,
        RenameCase::Snake => convert_case::Case::Snake,
        RenameCase::Kebab => convert_case::Case::Kebab,
        RenameCase::ScreamingSnake => convert_case::Case::Constant,
    };
    convert_case::Casing::to_case(&text, case)
}

/// Whether `text` already follows `case`: rewriting it into the case
/// changes nothing.
pub fn is_case(text: &str, case: RenameCase) -> (follows: bool)
    ensures
        follows == follows_case(text@, case),
{
    let converted = to_case(text, case);
    same_text(converted.as_str(), text)
}

} // verus!
