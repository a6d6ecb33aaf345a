//! The open build's header: leaving it, saving it, the Save As dialog and
//! the points counters.

use vstd::prelude::*;
use crate::colors::Rgb;
use crate::tabs::BuildTab;
use crate::text::{chars_of, string_of, trim, trimmed};

verus! {

/// The Save As dialog: the name being typed and the last error.
pub struct SaveAsDialog {
    pub name: String,
    pub error: Option<String>,
}

/// What a frame of the Save As dialog leads to.
pub enum SaveAsStep {
    /// The dialog stays open, as given.
    Stay(SaveAsDialog),
    /// Save the build under this name.
    SaveAs(String),
    /// Close the dialog and leave the build without saving.
    Discard,
    /// Close the dialog and stay in the build.
    Close,
}

/// The message for an empty name.
pub open spec fn empty_name_message() -> Seq<char> {
    "Name cannot be empty."@
}

/// The Save As dialog after a frame in which the user asked to save, to
/// discard or to cancel (saving first, then discarding, then cancelling): a
/// save with a blank name keeps the dialog open with the empty-name message,
/// any other save asks to save under the trimmed name.
pub open spec fn save_as_next(
    name: Seq<char>,
    error: Option<Seq<char>>,
    save: bool,
    discard: bool,
    cancel: bool,
) -> (u8, Seq<char>, Option<Seq<char>>) {
    if save {
        if trimmed(name).len() == 0 {
            (0, name, Some(empty_name_message()))
        } else {
            (1, trimmed(name), error)
        }
    } else if discard {
        (2, name, error)
    } else if cancel {
        (3, name, error)
    } else {
        (0, name, error)
    }
}

/// The view of a step: its kind (stay, save, discard, close), the dialog's or
/// the save's name, and the dialog's error.
pub open spec fn step_view(step: SaveAsStep, name: Seq<char>, error: Option<Seq<char>>) -> (
    u8,
    Seq<char>,
    Option<Seq<char>>,
) {
    match step {
        SaveAsStep::Stay(d) => (
            0,
            d.name@,
            match d.error {
                Some(e) => Some(e@),
                None => None,
            },
        ),
        SaveAsStep::SaveAs(n) => (1, n@, error),
        SaveAsStep::Discard => (2, name, error),
        SaveAsStep::Close => (3, name, error),
    }
}

/// One frame of the Save As dialog.
pub fn save_as_step(dialog: SaveAsDialog, save: bool, discard: bool, cancel: bool) -> (r:
    SaveAsStep)
    ensures
        step_view(
            r,
            dialog.name@,
            match dialog.error {
                Some(e) => Some(e@),
                None => None,
            },
        ) == save_as_next(
            dialog.name@,
            match dialog.error {
                Some(e) => Some(e@),
                None => None,
            },
            save,
            discard,
            cancel,
        ),
{
    if save {
        let t = trim(&chars_of(dialog.name.as_str()));
        if t.len() == 0 {
            let mut msg = String::new();
            msg.push_str("Name cannot be empty.");
            SaveAsStep::Stay(SaveAsDialog { name: dialog.name, error: Some(msg) })
        } else {
            SaveAsStep::SaveAs(string_of(&t))
        }
    } else if discard {
        SaveAsStep::Discard
    } else if cancel {
        SaveAsStep::Close
    } else {
        SaveAsStep::Stay(dialog)
    }
}

/// The dialog after saving under its name failed with `message`: it stays
/// open with `Save failed: ` and the message.
pub fn save_failed(dialog: SaveAsDialog, message: &str) -> (r: SaveAsDialog)
    ensures
        r.name@ == dialog.name@,
        r.error matches Some(e) && e@ == "Save failed: "@ + message@,
{
    let mut e = String::new();
    e.push_str("Save failed: ");
    e.push_str(message);
    SaveAsDialog { name: dialog.name, error: Some(e) }
}

/// What the back and Save buttons do.
pub enum HeaderAction {
    /// Open the Save As dialog with this name.
    OpenSaveAs(String),
    /// Go back to the build list.
    Leave,
    /// Save to the build's own file.
    SaveNow,
}

/// The back button: a new build that was never saved asks for a name first,
/// any other build is left.
pub fn back_clicked(is_unsaved_new: bool, build_name: &str) -> (r: HeaderAction)
    ensures
        is_unsaved_new ==> (r matches HeaderAction::OpenSaveAs(n) && n@ == build_name@),
        !is_unsaved_new ==> r is Leave,
{
    if is_unsaved_new {
        let mut n = String::new();
        n.push_str(build_name);
        HeaderAction::OpenSaveAs(n)
    } else {
        HeaderAction::Leave
    }
}

/// The Save button: a new build that was never saved asks for a name first,
/// any other build is saved to its file.
pub fn save_clicked(is_unsaved_new: bool, build_name: &str) -> (r: HeaderAction)
    ensures
        is_unsaved_new ==> (r matches HeaderAction::OpenSaveAs(n) && n@ == build_name@),
        !is_unsaved_new ==> r is SaveNow,
{
    if is_unsaved_new {
        let mut n = String::new();
        n.push_str(build_name);
        HeaderAction::OpenSaveAs(n)
    } else {
        HeaderAction::SaveNow
    }
}

/// The colour of a points counter: red once more points are used than
/// there are, grey otherwise.
pub fn points_colour(used: u32, max: u32) -> (c: Rgb)
    ensures
        c == if used > max {
            Rgb { r: 255, g: 80, b: 80 }
        } else {
            Rgb { r: 200, g: 200, b: 200 }
        },
{
    if used > max {
        Rgb { r: 255, g: 80, b: 80 }
    } else {
        Rgb { r: 200, g: 200, b: 200 }
    }
}

/// The ascendancy position after the class list's choice moved from
/// `previous_class` to `class`: back to the first one when the class changed.
pub fn ascendancy_after_class(previous_class: usize, class: usize, ascend: usize) -> (r: usize)
    ensures
        r == if class != previous_class {
            0
        } else {
            ascend
        },
{
    if class != previous_class {
        0
    } else {
        ascend
    }
}

/// The class and ascendancy lists after a frame in which `picked_class` and
/// `picked_ascend` may have been chosen: a different class starts at its
/// first ascendancy. The flag says whether the choice changed, so that the
/// scripts are told.
pub fn class_pick(class: usize, ascend: usize, picked_class: Option<usize>, picked_ascend: Option<usize>) -> (r: (usize, usize, bool))
    ensures
        ({
            let c = match picked_class {
                Some(p) => p,
                None => class,
            };
            let a0 = if c != class {
                0
            } else {
                ascend
            };
            let a = match picked_ascend {
                Some(p) => p,
                None => a0,
            };
            r == (c, a, c != class || a != a0)
        }),
{
    let c = match picked_class {
        Some(p) => p,
        None => class,
    };
    let a0 = ascendancy_after_class(class, c, ascend);
    let a = match picked_ascend {
        Some(p) => p,
        None => a0,
    };
    (c, a, c != class || a != a0)
}

/// The level controls in a frame: the mode button switches between automatic
/// and manual levels, and it or Enter in the level field asks for the header
/// to be applied. The result is the new mode and whether to apply.
pub fn level_header_step(auto_mode: bool, enter: bool, mode_clicked: bool) -> (r: (bool, bool))
    ensures
        r == (if mode_clicked {
            !auto_mode
        } else {
            auto_mode
        }, enter || mode_clicked),
{
    (if mode_clicked {
        !auto_mode
    } else {
        auto_mode
    }, enter || mode_clicked)
}

/// What the main skill controls of the side bar asked for.
pub enum MainSkillEvent {
    /// Socket group, active skill or skill part `i` was picked while
    /// `current` was selected.
    Group(usize, usize),
    Skill(usize, usize),
    Part(usize, usize),
    /// The stage or mine count's minus or plus button, with the current
    /// count (1 when it does not read as a number).
    StageMinus(i32),
    StagePlus(i32),
    MineMinus(i32),
    MinePlus(i32),
    Idle,
}

/// The change the main skill controls ask the scripts for.
#[derive(Clone, Copy, PartialEq, Eq, Structural, Debug)]
pub enum MainSkillAction {
    Nothing,
    SetGroup(usize),
    SetSkill(usize),
    SetPart(usize),
    SetStages(i64),
    SetMines(i64),
}

/// The main skill controls in a frame: a different socket group, active
/// skill or part is selected; minus lowers a count down to no less than 1,
/// plus raises it by one.
pub fn main_skill_step(e: MainSkillEvent) -> (r: MainSkillAction)
    ensures
        r == match e {
            MainSkillEvent::Group(i, cur) => if i != cur {
                MainSkillAction::SetGroup(i)
            } else {
                MainSkillAction::Nothing
            },
            MainSkillEvent::Skill(i, cur) => if i != cur {
                MainSkillAction::SetSkill(i)
            } else {
                MainSkillAction::Nothing
            },
            MainSkillEvent::Part(i, cur) => if i != cur {
                MainSkillAction::SetPart(i)
            } else {
                MainSkillAction::Nothing
            },
            MainSkillEvent::StageMinus(c) => MainSkillAction::SetStages(
                if c - 1 < 1 {
                    1
                } else {
                    (c - 1) as i64
                },
            ),
            MainSkillEvent::StagePlus(c) => MainSkillAction::SetStages((c + 1) as i64),
            MainSkillEvent::MineMinus(c) => MainSkillAction::SetMines(
                if c - 1 < 1 {
                    1
                } else {
                    (c - 1) as i64
                },
            ),
            MainSkillEvent::MinePlus(c) => MainSkillAction::SetMines((c + 1) as i64),
            MainSkillEvent::Idle => MainSkillAction::Nothing,
        },
{
    match e {
        MainSkillEvent::Group(i, cur) => if i != cur {
            MainSkillAction::SetGroup(i)
        } else {
            MainSkillAction::Nothing
        },
        MainSkillEvent::Skill(i, cur) => if i != cur {
            MainSkillAction::SetSkill(i)
        } else {
            MainSkillAction::Nothing
        },
        MainSkillEvent::Part(i, cur) => if i != cur {
            MainSkillAction::SetPart(i)
        } else {
            MainSkillAction::Nothing
        },
        MainSkillEvent::StageMinus(c) => MainSkillAction::SetStages(lower_count(c)),
        MainSkillEvent::StagePlus(c) => MainSkillAction::SetStages(c as i64 + 1),
        MainSkillEvent::MineMinus(c) => MainSkillAction::SetMines(lower_count(c)),
        MainSkillEvent::MinePlus(c) => MainSkillAction::SetMines(c as i64 + 1),
        MainSkillEvent::Idle => MainSkillAction::Nothing,
    }
}

fn lower_count(c: i32) -> (r: i64)
    ensures
        r == if c - 1 < 1 {
            1
        } else {
            (c - 1) as i64
        },
{
    let d = c as i64 - 1;
    if d < 1 {
        1
    } else {
        d
    }
}

/// What is read again after a tab reported a change.
#[derive(Clone, Copy, PartialEq, Eq, Structural, Debug)]
pub enum TabRefresh {
    Nothing,
    /// The calculated stats.
    Stats,
    /// The stats, and the skills panel is built anew.
    StatsAndSkills,
    /// The stats and every panel (a build was imported).
    Everything,
}

/// What a change reported by tab `tab` asks to be read again: the stats for
/// the tree and config tabs, the stats and the skills panel for the skills
/// tab, everything after an import; the items tab asks for nothing.
pub fn tab_refresh(tab: BuildTab, changed: bool) -> (r: TabRefresh)
    ensures
        r == if !changed {
            TabRefresh::Nothing
        } else {
            match tab {
                BuildTab::Tree => TabRefresh::Stats,
                BuildTab::Config => TabRefresh::Stats,
                BuildTab::Skills => TabRefresh::StatsAndSkills,
                BuildTab::Import => TabRefresh::Everything,
                BuildTab::Items => TabRefresh::Nothing,
            }
        },
{
    if !changed {
        return TabRefresh::Nothing;
    }
    match tab {
        BuildTab::Tree => TabRefresh::Stats,
        BuildTab::Config => TabRefresh::Stats,
        BuildTab::Skills => TabRefresh::StatsAndSkills,
        BuildTab::Import => TabRefresh::Everything,
        BuildTab::Items => TabRefresh::Nothing,
    }
}

} // verus!
