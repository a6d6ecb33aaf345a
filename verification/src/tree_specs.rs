//! The passive tree spec manager: the name prompt for a new, copied or
//! renamed spec, and which row buttons a spec gets.

use vstd::prelude::*;

verus! {

/// What the spec name prompt is for; specs are numbered from 1.
#[derive(Clone, Copy, PartialEq, Eq, Structural, Debug)]
pub enum SpecAction {
    New,
    Copy(usize),
    Rename(usize),
}

/// The text the name prompt starts with: `Default` for a new spec, the
/// title with ` (copy)` for a copy, the title itself for a rename.
pub open spec fn prompt_text_of(action: SpecAction, title: Seq<char>) -> Seq<char> {
    match action {
        SpecAction::New => "Default"@,
        SpecAction::Copy(_) => title + " (copy)"@,
        SpecAction::Rename(_) => title,
    }
}

/// The starting text of the name prompt for `action` on a spec titled `title`.
pub fn spec_prompt_text(action: SpecAction, title: &str) -> (r: String)
    ensures
        r@ == prompt_text_of(action, title@),
{
    let mut r = String::new();
    match action {
        SpecAction::New => r.push_str("Default"),
        SpecAction::Copy(_) => {
            r.push_str(title);
            r.push_str(" (copy)");
        },
        SpecAction::Rename(_) => r.push_str(title),
    }
    r
}

/// Whether a successful `action` asks for the tree to be rebuilt: a new or
/// copied spec does, a rename does not.
pub fn spec_action_rebuilds(action: SpecAction) -> (r: bool)
    ensures
        r == !(action is Rename),
{
    match action {
        SpecAction::Rename(_) => false,
        _ => true,
    }
}

/// The buttons of spec number `index` in a list of `spec_count` specs whose
/// active one is `active_spec`: delete while another spec remains, activate
/// unless it is the active one.
pub fn spec_row_buttons(index: usize, active_spec: usize, spec_count: usize) -> (r: (bool, bool))
    ensures
        r.0 == (spec_count > 1),
        r.1 == (index != active_spec),
{
    (spec_count > 1, index != active_spec)
}

} // verus!
