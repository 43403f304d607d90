use preconfig_tester::lists::{
    is_list_file_name, list_menu_kind, merge_contents, sort_names, ListMenuKind,
};
use preconfig_tester::ui::{
    handle_key_event, prepend_control_options, selection_kind, visible_window, KeyAction, NavKey,
    SelectionKind,
};

#[test]
fn arrow_down_moves_cursor() {
    let mut sel = 0usize;
    let mut scroll = 0usize;
    let action = handle_key_event(NavKey::Down, &mut sel, &mut scroll, 10, 8);
    assert_eq!(action, Some(KeyAction::Idle));
    assert_eq!(sel, 1);
    assert_eq!(scroll, 0);
}

#[test]
fn arrow_down_at_bottom_is_ignored() {
    let mut sel = 9usize;
    let mut scroll = 4usize;
    let action = handle_key_event(NavKey::Down, &mut sel, &mut scroll, 10, 8);
    assert_eq!(action, None);
    assert_eq!(sel, 9);
    assert_eq!(scroll, 4);
}

#[test]
fn arrow_down_scrolls_past_window() {
    // 6 visible rows (8 less the two indicators); moving to row 6 scrolls.
    let mut sel = 5usize;
    let mut scroll = 0usize;
    let action = handle_key_event(NavKey::Down, &mut sel, &mut scroll, 10, 8);
    assert_eq!(action, Some(KeyAction::Idle));
    assert_eq!(sel, 6);
    assert_eq!(scroll, 1);
}

#[test]
fn arrow_up_drags_scroll() {
    let mut sel = 3usize;
    let mut scroll = 3usize;
    let action = handle_key_event(NavKey::Up, &mut sel, &mut scroll, 10, 8);
    assert_eq!(action, Some(KeyAction::Idle));
    assert_eq!(sel, 2);
    assert_eq!(scroll, 2);
}

#[test]
fn arrow_up_at_top_is_ignored() {
    let mut sel = 0usize;
    let mut scroll = 0usize;
    assert_eq!(handle_key_event(NavKey::Up, &mut sel, &mut scroll, 10, 8), None);
    assert_eq!((sel, scroll), (0, 0));
}

#[test]
fn page_keys_jump_by_a_window() {
    let mut sel = 9usize;
    let mut scroll = 4usize;
    handle_key_event(NavKey::PageUp, &mut sel, &mut scroll, 10, 8);
    assert_eq!((sel, scroll), (3, 0));

    let mut sel = 0usize;
    let mut scroll = 0usize;
    handle_key_event(NavKey::PageDown, &mut sel, &mut scroll, 10, 8);
    assert_eq!((sel, scroll), (6, 4));

    // Jumps clamp at the last option.
    let mut sel = 7usize;
    let mut scroll = 4usize;
    handle_key_event(NavKey::PageDown, &mut sel, &mut scroll, 10, 8);
    assert_eq!((sel, scroll), (9, 4));
}

#[test]
fn enter_and_escape() {
    let mut sel = 2usize;
    let mut scroll = 0usize;
    assert_eq!(
        handle_key_event(NavKey::Enter, &mut sel, &mut scroll, 10, 8),
        Some(KeyAction::Select)
    );
    assert_eq!(
        handle_key_event(NavKey::Esc, &mut sel, &mut scroll, 10, 8),
        Some(KeyAction::Exit)
    );
    assert_eq!(handle_key_event(NavKey::Other, &mut sel, &mut scroll, 10, 8), None);
    assert_eq!((sel, scroll), (2, 0));
}

#[test]
fn visible_window_bounds() {
    assert_eq!(visible_window(0, 8, 10), (0, 6));
    assert_eq!(visible_window(7, 8, 10), (7, 10));
    assert_eq!(visible_window(0, 8, 3), (0, 3));
    assert_eq!(visible_window(0, 2, 10), (0, 0));
}

#[test]
fn selection_kinds() {
    assert_eq!(
        selection_kind("Delete service from autorun"),
        SelectionKind::DeleteService
    );
    assert_eq!(
        selection_kind("Run BLOCKCHECK (Auto-setting BAT parameters)"),
        SelectionKind::RunBlockcheck
    );
    assert_eq!(selection_kind("general.bat"), SelectionKind::InstallFile);
}

#[test]
fn control_options_come_first() {
    let files = vec!["a.bat".to_string(), "b.bat".to_string()];
    let options = prepend_control_options(&files);
    assert_eq!(
        options,
        vec![
            "Delete service from autorun".to_string(),
            "Run BLOCKCHECK (Auto-setting BAT parameters)".to_string(),
            "a.bat".to_string(),
            "b.bat".to_string(),
        ]
    );
}

#[test]
fn list_file_names() {
    assert!(is_list_file_name("list-discord.txt"));
    assert!(is_list_file_name("list-.txt"));
    assert!(!is_list_file_name("list-ultimate.txt"));
    assert!(!is_list_file_name("lists.txt"));
    assert!(!is_list_file_name("list-discord.md"));
    assert!(!is_list_file_name("readme"));
}

#[test]
fn list_menu_kinds() {
    assert_eq!(list_menu_kind("SAVE LIST"), ListMenuKind::SaveList);
    assert_eq!(list_menu_kind("CANCEL"), ListMenuKind::Cancel);
    assert_eq!(list_menu_kind("list-discord.txt"), ListMenuKind::ToggleFile);
}

#[test]
fn list_names_sort_lexicographically() {
    let mut names = vec![
        "list-youtube.txt".to_string(),
        "list-discord.txt".to_string(),
        "list-general.txt".to_string(),
    ];
    sort_names(&mut names);
    assert_eq!(
        names,
        vec![
            "list-discord.txt".to_string(),
            "list-general.txt".to_string(),
            "list-youtube.txt".to_string(),
        ]
    );
}

#[test]
fn merged_lists_are_trimmed_and_newline_separated() {
    let contents = vec![
        "a.com\nb.com\n\n".to_string(),
        "  c.com  ".to_string(),
    ];
    assert_eq!(merge_contents(&contents), "a.com\nb.com\nc.com\n");
    let empty: Vec<String> = vec![];
    assert_eq!(merge_contents(&empty), "");
}
