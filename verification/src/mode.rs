//! The three ways a run can go, and how the user picks one.

use vstd::prelude::*;
use crate::text::{same_text, trim, trimmed};

verus! {

/// How the coupon is claimed.
#[derive(Clone, Copy, Debug, PartialEq, Eq, Structural)]
pub enum Mode {
    /// Redeem right away at the start time, without validating first.
    Fast,
    /// Look the catalog id up from a coupon slug, then redeem.
    FastSlug,
    /// Validate the coupon first, then redeem.
    Normal,
}

/// The menu entry the user types for a mode.
pub open spec fn menu_number(m: Mode) -> Seq<char> {
    match m {
        Mode::Normal => "1"@,
        Mode::Fast => "2"@,
        Mode::FastSlug => "3"@,
    }
}

/// The mode a (trimmed) menu answer selects, if any.
pub open spec fn mode_of_choice(choice: Seq<char>) -> Option<Mode> {
    if choice == "1"@ {
        Some(Mode::Normal)
    } else if choice == "2"@ {
        Some(Mode::Fast)
    } else if choice == "3"@ {
        Some(Mode::FastSlug)
    } else {
        None
    }
}

/// The mode selected by an already trimmed menu answer.
pub fn mode_from_choice(choice: &str) -> (r: Option<Mode>)
    ensures
        r == mode_of_choice(choice@),
{
    if same_text(choice, "1") {
        Some(Mode::Normal)
    } else if same_text(choice, "2") {
        Some(Mode::Fast)
    } else if same_text(choice, "3") {
        Some(Mode::FastSlug)
    } else {
        None
    }
}

/// The mode selected by a raw menu answer: surrounding whitespace is ignored,
/// and anything but `1`, `2` or `3` is rejected (the menu is then shown again).
pub fn parse_mode(input: &str) -> (r: Option<Mode>)
    ensures
        r == mode_of_choice(trimmed(input@)),
{
    mode_from_choice(trim(input))
}

/// Typing a mode's menu number selects exactly that mode.
pub proof fn lemma_menu_number_selects_mode(m: Mode)
    ensures
        mode_of_choice(menu_number(m)) == Some(m),
{
    reveal_strlit("1");
    reveal_strlit("2");
    reveal_strlit("3");
    assert("1"@[0] != "2"@[0]);
    assert("1"@[0] != "3"@[0]);
    assert("2"@[0] != "3"@[0]);
}

/// The menu answers: `1` is the normal mode (validate, then redeem), `2` the
/// fast mode, `3` the slug mode; nothing else, and no other spelling, selects
/// a mode.
pub proof fn lemma_menu_answers(choice: Seq<char>)
    ensures
        mode_of_choice("1"@) == Some(Mode::Normal),
        mode_of_choice("2"@) == Some(Mode::Fast),
        mode_of_choice("3"@) == Some(Mode::FastSlug),
        choice != "1"@ && choice != "2"@ && choice != "3"@ ==> mode_of_choice(choice) is None,
        spec_plan_for(Mode::Normal).validate_before_redeem && !spec_plan_for(Mode::Fast).validate_before_redeem
            && !spec_plan_for(Mode::FastSlug).validate_before_redeem,
        spec_plan_for(Mode::FastSlug).catalog_from_slug && !spec_plan_for(Mode::Normal).catalog_from_slug
            && !spec_plan_for(Mode::Fast).catalog_from_slug,
{
    reveal_strlit("1");
    reveal_strlit("2");
    reveal_strlit("3");
    assert("1"@[0] != "2"@[0]);
    assert("1"@[0] != "3"@[0]);
    assert("2"@[0] != "3"@[0]);
}

/// The slug whose page the redeem requests claim to come from when the run
/// does not start from a slug.
pub const DEFAULT_SLUG: &'static str = "GC10DECA";

/// The steps a run takes before the countdown and the redeem.
#[derive(Clone, Copy, Debug, PartialEq, Eq, Structural)]
pub struct RunPlan {
    /// The catalog id is looked up from a slug (otherwise it is typed in).
    pub catalog_from_slug: bool,
    /// The coupon is validated once the start time is reached, before redeeming.
    pub validate_before_redeem: bool,
}

/// What each mode does.
pub open spec fn spec_plan_for(m: Mode) -> RunPlan {
    RunPlan {
        catalog_from_slug: m == Mode::FastSlug,
        validate_before_redeem: m == Mode::Normal,
    }
}

/// The steps of a run in mode `m`.
pub fn plan_for(m: Mode) -> (r: RunPlan)
    ensures
        r == spec_plan_for(m),
{
    match m {
        Mode::Fast => RunPlan { catalog_from_slug: false, validate_before_redeem: false },
        Mode::FastSlug => RunPlan { catalog_from_slug: true, validate_before_redeem: false },
        Mode::Normal => RunPlan { catalog_from_slug: false, validate_before_redeem: true },
    }
}

} // verus!
