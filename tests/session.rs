use concmd::{App, CurrentArea, Effect, Message, Page, PageState, SortDirection, Space, Step};

fn space(id: &str, name: &str) -> Space {
    Space { id: id.to_string(), key: id.to_string(), name: name.to_string() }
}

fn page(id: &str, title: &str, created: &str) -> Page {
    let mut p = Page::new(title.to_string(), "S1".to_string());
    p.id = id.to_string();
    p.created_at = Some(created.to_string());
    p
}

fn store_pages() -> Vec<Page> {
    vec![
        page("P2", "Roadmap", "2024-03-01T10:00:00Z"),
        page("P1", "Onboarding", "2023-11-20T09:00:00Z"),
        page("P3", "Release notes", "2024-01-15T08:00:00Z"),
    ]
}

fn titles(app: &App) -> Vec<String> {
    app.page_list.iter().map(|p| p.title.clone()).collect()
}

/// A session browsing the pages of space S1, as the store returns them.
fn browsing() -> App {
    let mut app = App::new(vec![space("S1", "Eng")]);
    app.update(Message::ListNext);
    let step = app.update(Message::Select);
    assert!(matches!(step.effect, Effect::LoadPages { space: 0 }));
    app.pages_loaded(store_pages());
    app
}

fn type_text(app: &mut App, s: &str) {
    for c in s.chars() {
        app.update(Message::TypeChar(c));
    }
}

#[test]
fn select_space_lists_pages_oldest_first() {
    let app = browsing();
    assert_eq!(app.current_area, CurrentArea::Pages);
    assert_eq!(titles(&app), vec!["Onboarding", "Release notes", "Roadmap"]);
    assert_eq!(app.page_list_state.selected(), None);
}

#[test]
fn edit_confirm_save_scenario() {
    let mut app = browsing();
    app.update(Message::ListNext);
    let step = app.update(Message::Select);
    assert!(matches!(step.effect, Effect::Nothing));
    assert_eq!(step.next, Some(Message::OpenEditor));
    let step = app.update(Message::OpenEditor);
    assert!(matches!(step.effect, Effect::Edit { page: 0 }));
    app.editor_closed("/tmp/P1.md".to_string());
    assert_eq!(app.current_area, CurrentArea::SavePopup);
    assert_eq!(app.edited_file_path.as_deref(), Some("/tmp/P1.md"));
    let step = app.update(Message::ConfirmSave);
    assert_eq!(step.next, Some(Message::Save));
    let step = app.update(Message::Save);
    match &step.effect {
        Effect::Upload { page, path } => {
            assert_eq!(*page, 0);
            assert_eq!(path, "/tmp/P1.md");
        }
        _ => panic!("expected an upload"),
    }
    assert_eq!(step.next, Some(Message::Refresh));
    assert_eq!(app.edited_file_path, None);
    let step = app.update(Message::Refresh);
    assert!(matches!(step.effect, Effect::LoadPages { space: 0 }));
    app.pages_loaded(store_pages());
    assert_eq!(app.current_area, CurrentArea::Pages);
    assert_eq!(app.page_state("P1"), Some(PageState::Saved));
    assert_eq!(app.page_state("P2"), None);
}

#[test]
fn reject_save_marks_not_saved_and_reopening_clears() {
    let mut app = browsing();
    app.update(Message::ListNext);
    app.update(Message::OpenEditor);
    app.editor_closed("/tmp/P1.md".to_string());
    let step = app.update(Message::RejectSave);
    assert_eq!(step.next, None);
    assert_eq!(app.current_area, CurrentArea::Pages);
    assert_eq!(app.edited_file_path, None);
    assert_eq!(app.page_state("P1"), Some(PageState::NotSaved));
    app.update(Message::OpenEditor);
    assert_eq!(app.page_state("P1"), None);
}

#[test]
fn delete_without_selection_is_a_no_op() {
    let mut app = browsing();
    let step = app.update(Message::DeletePage);
    assert!(matches!(step.effect, Effect::Nothing));
    assert_eq!(app.current_area, CurrentArea::Pages);
}

#[test]
fn delete_selected_page_asks_then_deletes() {
    let mut app = browsing();
    app.update(Message::ListPrevious);
    app.update(Message::DeletePage);
    assert_eq!(app.current_area, CurrentArea::DeletePopup);
    let step = app.update(Message::ConfirmDeletePage);
    assert!(matches!(step.effect, Effect::Delete { page: 2 }));
    assert_eq!(step.next, Some(Message::Refresh));
    assert_eq!(app.current_area, CurrentArea::Pages);
}

#[test]
fn cancelled_new_page_leaves_empty_title() {
    let mut app = browsing();
    app.update(Message::NewPage);
    assert_eq!(app.current_area, CurrentArea::NewPagePopup);
    type_text(&mut app, "Draft");
    assert_eq!(app.new_page_title.text(), "Draft");
    app.update(Message::CancelNewPage);
    assert_eq!(app.current_area, CurrentArea::Pages);
    app.update(Message::NewPage);
    assert_eq!(app.new_page_title.text(), "");
    assert_eq!(app.new_page_title.offset(), 0);
}

#[test]
fn save_new_page_creates_in_selected_space() {
    let mut app = browsing();
    app.update(Message::NewPage);
    type_text(&mut app, "Drft");
    app.update(Message::CursorLeft);
    app.update(Message::CursorLeft);
    app.update(Message::TypeChar('a'));
    let step: Step = app.update(Message::SaveNewPage);
    match &step.effect {
        Effect::Create { space, title } => {
            assert_eq!(*space, 0);
            assert_eq!(title, "Draft");
        }
        _ => panic!("expected a creation"),
    }
    assert_eq!(step.next, Some(Message::Refresh));
    assert_eq!(app.new_page_title.offset(), 0);
}

#[test]
fn click_outside_lists_clears_selection() {
    let mut app = browsing();
    app.set_layout(
        concmd::Bounds::of_area(0, 0, 20),
        0,
        concmd::Bounds::of_area(20, 0, 30),
        0,
    );
    app.update(Message::MouseSelect(25, 2));
    assert_eq!(app.page_list_state.selected(), Some(1));
    app.update(Message::MouseSelect(70, 2));
    assert_eq!(app.page_list_state.selected(), None);
    assert_eq!(app.current_area, CurrentArea::Pages);
    app.update(Message::MouseSelect(25, 2));
    app.update(Message::MouseSelect(25, 40));
    assert_eq!(app.page_list_state.selected(), None);
    assert_eq!(app.current_area, CurrentArea::Pages);
}

#[test]
fn sort_cancel_restores_previous_order() {
    let mut app = browsing();
    app.update(Message::StartSort);
    assert_eq!(app.current_area, CurrentArea::SortPopup);
    app.update(Message::ToggleSortDir);
    assert_eq!(app.sort.dir, SortDirection::Desc);
    app.update(Message::CancelSort);
    assert_eq!(app.current_area, CurrentArea::Pages);
    assert_eq!(app.sort.dir, SortDirection::Asc);
    assert_eq!(app.sort.type_cursor.selected(), Some(0));
    assert_eq!(titles(&app), vec!["Onboarding", "Release notes", "Roadmap"]);
}

#[test]
fn sort_confirm_flips_direction_and_reorders() {
    let mut app = browsing();
    app.update(Message::StartSort);
    app.update(Message::ToggleSortDir);
    app.update(Message::ConfirmSort);
    assert_eq!(app.sort.dir, SortDirection::Desc);
    assert_eq!(titles(&app), vec!["Roadmap", "Release notes", "Onboarding"]);
    app.update(Message::StartSort);
    app.update(Message::ListNext);
    app.update(Message::ToggleSortDir);
    app.update(Message::ConfirmSort);
    assert_eq!(app.sort.get_selected_sort(), Some((concmd::SortType::Title, SortDirection::Asc)));
    assert_eq!(titles(&app), vec!["Onboarding", "Release notes", "Roadmap"]);
}

#[test]
fn search_filters_ignoring_case() {
    let mut app = browsing();
    app.update(Message::StartSearch);
    type_text(&mut app, "RE");
    let step = app.update(Message::ConfirmSearch);
    assert!(matches!(step.effect, Effect::Nothing));
    assert!(app.search.search_active);
    assert_eq!(titles(&app), vec!["Release notes"]);
}

#[test]
fn second_search_does_not_compound() {
    let mut app = browsing();
    app.update(Message::StartSearch);
    type_text(&mut app, "release");
    app.update(Message::ConfirmSearch);
    assert_eq!(titles(&app), vec!["Release notes"]);
    app.update(Message::StartSearch);
    for _ in 0.."release".len() {
        app.update(Message::Backspace);
    }
    type_text(&mut app, "road");
    let step = app.update(Message::ConfirmSearch);
    assert!(matches!(step.effect, Effect::SearchPages { space: 0 }));
    app.search_loaded(store_pages());
    assert_eq!(titles(&app), vec!["Roadmap"]);

    let mut once = browsing();
    once.update(Message::StartSearch);
    type_text(&mut once, "road");
    once.update(Message::ConfirmSearch);
    assert_eq!(titles(&once), titles(&app));
}

#[test]
fn cancel_search_keeps_query_only_when_active() {
    let mut app = browsing();
    app.update(Message::StartSearch);
    type_text(&mut app, "zz");
    app.update(Message::CancelSearch);
    assert_eq!(app.search.current_search.text(), "");
    app.update(Message::StartSearch);
    type_text(&mut app, "road");
    app.update(Message::ConfirmSearch);
    app.update(Message::StartSearch);
    app.update(Message::CancelSearch);
    assert_eq!(app.search.current_search.text(), "road");
}

#[test]
fn back_leaves_pages_and_ends_search() {
    let mut app = browsing();
    app.update(Message::StartSearch);
    type_text(&mut app, "road");
    app.update(Message::ConfirmSearch);
    app.update(Message::Back);
    assert_eq!(app.current_area, CurrentArea::Spaces);
    assert!(app.page_list.is_empty());
    assert!(!app.search.search_active);
    assert_eq!(app.search.current_search.text(), "");
    app.update(Message::Back);
    assert_eq!(app.space_list_state.selected(), None);
}

#[test]
fn refresh_in_spaces_reloads_spaces() {
    let mut app = App::new(vec![space("S1", "Eng")]);
    app.update(Message::ListNext);
    let step = app.update(Message::Refresh);
    assert!(matches!(step.effect, Effect::LoadSpaces));
    app.spaces_loaded(vec![space("S1", "Eng"), space("S2", "Ops")]);
    assert_eq!(app.space_list.len(), 2);
    assert_eq!(app.space_list_state.selected(), None);
}

#[test]
fn update_title_seeds_and_confirms() {
    let mut app = browsing();
    app.update(Message::ListNext);
    app.update(Message::UpdateTitle);
    assert_eq!(app.current_area, CurrentArea::TitlePopup);
    assert_eq!(app.page_updated_title.text(), "Onboarding");
    app.update(Message::Backspace);
    let step = app.update(Message::ConfirmTitle);
    match &step.effect {
        Effect::Retitle { page, title } => {
            assert_eq!(*page, 0);
            assert_eq!(title, "Onboardin");
        }
        _ => panic!("expected a new title"),
    }
    assert_eq!(step.next, Some(Message::Refresh));
}

#[test]
fn toggles_and_exit() {
    let mut app = App::new(vec![]);
    app.update(Message::TogglePreview);
    app.update(Message::ToggleHelp);
    assert!(app.show_preview && app.show_help);
    app.update(Message::Exit);
    assert!(app.exit);
}
