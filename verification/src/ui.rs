//! Menu-navigation logic.
//!
//! The interactive menus render a scrollable list of options and move a
//! selection cursor under key presses. The navigation decisions are verified
//! here over plain values; reading key events and drawing the screen are the
//! surrounding driver's job.

use vstd::prelude::*;
use vstd::string::*;

use crate::text::eq_str;

verus! {

/// What a key press asks the menu loop to do.
#[derive(Debug, PartialEq, Eq, Structural, Clone, Copy)]
pub enum KeyAction {
    /// Leave the menu.
    Exit,
    /// Act on the currently selected option.
    Select,
    /// Stay in the menu (the cursor may have moved).
    Idle,
}

/// The keys the menu reacts to.
#[derive(Debug, PartialEq, Eq, Structural, Clone, Copy)]
pub enum NavKey {
    Up,
    Down,
    PageUp,
    PageDown,
    Enter,
    Esc,
    Other,
}

/// `a - b`, floored at zero.
pub open spec fn sat_sub(a: int, b: int) -> int {
    if a >= b {
        a - b
    } else {
        0
    }
}

/// The smaller of `a` and `b`.
pub open spec fn min_int(a: int, b: int) -> int {
    if a <= b {
        a
    } else {
        b
    }
}

/// How many options fit in the list area: the visible rows less the two
/// scroll-indicator rows.
pub open spec fn visible_count(max_visible: int) -> int {
    sat_sub(max_visible, 2)
}

/// The selection, scroll offset and action after one key press:
/// arrows move the cursor one step and drag the scroll window along, page
/// keys jump by a window, enter selects, escape exits, and anything else is
/// ignored.
pub open spec fn nav_next(key: NavKey, sel: int, scroll: int, total: int, max_visible: int) -> (
    int,
    int,
    Option<KeyAction>,
) {
    let visible = visible_count(max_visible);
    match key {
        NavKey::Up => if sel > 0 {
            let s = sel - 1;
            (s, if s < scroll {
                s
            } else {
                scroll
            }, Some(KeyAction::Idle))
        } else {
            (sel, scroll, None)
        },
        NavKey::Down => if sel < total - 1 {
            let s = sel + 1;
            if s >= scroll + visible {
                (s, sat_sub(s, visible - 1), Some(KeyAction::Idle))
            } else {
                (s, scroll, Some(KeyAction::Idle))
            }
        } else {
            (sel, scroll, None)
        },
        NavKey::PageUp => (sat_sub(sel, visible), sat_sub(scroll, visible), Some(KeyAction::Idle)),
        NavKey::PageDown => (
            min_int(sel + visible, total - 1),
            min_int(scroll + visible, sat_sub(total, visible)),
            Some(KeyAction::Idle),
        ),
        NavKey::Enter => (sel, scroll, Some(KeyAction::Select)),
        NavKey::Esc => (sel, scroll, Some(KeyAction::Exit)),
        NavKey::Other => (sel, scroll, None),
    }
}

/// Applies one key press to the menu cursor. Returns the action the menu
/// loop should take, updating the selection and scroll offset in place.
pub fn handle_key_event(
    key: NavKey,
    current_selection: &mut usize,
    scroll_offset: &mut usize,
    total_options: usize,
    max_visible_options: usize,
) -> (r: Option<KeyAction>)
    requires
        total_options >= 1,
        *old(current_selection) < total_options,
        *old(scroll_offset) <= total_options,
        max_visible_options >= 3,
        total_options + max_visible_options <= usize::MAX,
    ensures
        (*final(current_selection) as int, *final(scroll_offset) as int, r) == nav_next(
            key,
            *old(current_selection) as int,
            *old(scroll_offset) as int,
            total_options as int,
            max_visible_options as int,
        ),
        *final(current_selection) < total_options,
{
    let visible = max_visible_options - 2;
    match key {
        NavKey::Up => {
            if *current_selection > 0 {
                *current_selection = *current_selection - 1;
                if *current_selection < *scroll_offset {
                    *scroll_offset = *current_selection;
                }
                Some(KeyAction::Idle)
            } else {
                None
            }
        },
        NavKey::Down => {
            if *current_selection < total_options - 1 {
                *current_selection = *current_selection + 1;
                if *current_selection >= *scroll_offset + visible {
                    *scroll_offset = current_selection.saturating_sub(visible - 1);
                }
                Some(KeyAction::Idle)
            } else {
                None
            }
        },
        NavKey::PageUp => {
            *current_selection = current_selection.saturating_sub(visible);
            *scroll_offset = scroll_offset.saturating_sub(visible);
            Some(KeyAction::Idle)
        },
        NavKey::PageDown => {
            let jumped = *current_selection + visible;
            *current_selection = if jumped <= total_options - 1 {
                jumped
            } else {
                total_options - 1
            };
            let scrolled = *scroll_offset + visible;
            let scroll_cap = total_options.saturating_sub(visible);
            *scroll_offset = if scrolled <= scroll_cap {
                scrolled
            } else {
                scroll_cap
            };
            Some(KeyAction::Idle)
        },
        NavKey::Enter => Some(KeyAction::Select),
        NavKey::Esc => Some(KeyAction::Exit),
        NavKey::Other => None,
    }
}

/// The half-open range of option indices the list area shows, given the
/// scroll offset: at most `visible_count` options starting at the offset.
pub fn visible_window(scroll_offset: usize, max_visible_options: usize, total_options: usize) -> (r:
    (usize, usize))
    requires
        scroll_offset <= total_options,
        total_options + max_visible_options <= usize::MAX,
    ensures
        r.0 == scroll_offset,
        r.1 == min_int(
            scroll_offset + visible_count(max_visible_options as int),
            total_options as int,
        ),
        r.0 <= r.1 <= total_options,
{
    let visible = max_visible_options.saturating_sub(2);
    let end = scroll_offset + visible;
    let end_index = if end <= total_options {
        end
    } else {
        total_options
    };
    (scroll_offset, end_index)
}

/// What selecting a menu option of the service installer means: the two
/// fixed control entries, or a batch file to install.
#[derive(Debug, PartialEq, Eq, Structural, Clone, Copy)]
pub enum SelectionKind {
    DeleteService,
    RunBlockcheck,
    InstallFile,
}

/// The meaning of the option string `option`.
pub open spec fn selection_kind_of(option: Seq<char>) -> SelectionKind {
    if option == "Delete service from autorun"@ {
        SelectionKind::DeleteService
    } else if option == "Run BLOCKCHECK (Auto-setting BAT parameters)"@ {
        SelectionKind::RunBlockcheck
    } else {
        SelectionKind::InstallFile
    }
}

/// Classifies a selected menu option of the service installer.
pub fn selection_kind(option: &str) -> (r: SelectionKind)
    ensures
        r == selection_kind_of(option@),
{
    if eq_str(option, "Delete service from autorun") {
        SelectionKind::DeleteService
    } else if eq_str(option, "Run BLOCKCHECK (Auto-setting BAT parameters)") {
        SelectionKind::RunBlockcheck
    } else {
        SelectionKind::InstallFile
    }
}

/// The fixed control entries shown above the batch files in the service
/// installer's menu, followed by the given file names in order.
pub fn prepend_control_options(files: &Vec<String>) -> (r: Vec<String>)
    ensures
        r@.len() == files@.len() + 2,
        r@[0]@ == "Delete service from autorun"@,
        r@[1]@ == "Run BLOCKCHECK (Auto-setting BAT parameters)"@,
        forall|i: int| 0 <= i < files@.len() ==> r@[i + 2] == files@[i],
{
    let mut out: Vec<String> = Vec::new();
    out.push(String::from_str("Delete service from autorun"));
    out.push(String::from_str("Run BLOCKCHECK (Auto-setting BAT parameters)"));
    let n = files.len();
    let mut i: usize = 0;
    while i < n
        invariant
            n == files@.len(),
            i <= n,
            out@.len() == i + 2,
            out@[0]@ == "Delete service from autorun"@,
            out@[1]@ == "Run BLOCKCHECK (Auto-setting BAT parameters)"@,
            forall|k: int| 0 <= k < i ==> out@[k + 2] == files@[k],
        decreases n - i,
    {
        let entry = files[i].clone();
        out.push(entry);
        i = i + 1;
    }
    out
}

} // verus!
