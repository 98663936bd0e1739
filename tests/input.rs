use concmd::{handle_key_event, handle_mouse_event, CurrentArea, KeyCode, Message, MouseInput};

#[test]
fn check_exit_all_areas() {
    let areas: [CurrentArea; 7] = [
        CurrentArea::Spaces,
        CurrentArea::Pages,
        CurrentArea::SavePopup,
        CurrentArea::NewPagePopup,
        CurrentArea::DeletePopup,
        CurrentArea::SearchPopup,
        CurrentArea::SortPopup,
    ];
    for area in areas.iter() {
        let result = handle_key_event(KeyCode::Char('q'), &area);
        assert!(matches!(result, Some(Message::Exit)));
    }
}

#[test]
fn keys_in_lists() {
    assert_eq!(handle_key_event(KeyCode::Down, &CurrentArea::Spaces), Some(Message::ListNext));
    assert_eq!(handle_key_event(KeyCode::Up, &CurrentArea::Pages), Some(Message::ListPrevious));
    assert_eq!(handle_key_event(KeyCode::Enter, &CurrentArea::Spaces), Some(Message::Select));
    assert_eq!(handle_key_event(KeyCode::Right, &CurrentArea::Pages), Some(Message::Select));
    assert_eq!(handle_key_event(KeyCode::Left, &CurrentArea::Pages), Some(Message::Back));
    assert_eq!(handle_key_event(KeyCode::Char('r'), &CurrentArea::Spaces), Some(Message::Refresh));
    assert_eq!(handle_key_event(KeyCode::Char('n'), &CurrentArea::Spaces), None);
    assert_eq!(handle_key_event(KeyCode::Char('n'), &CurrentArea::Pages), Some(Message::NewPage));
    assert_eq!(handle_key_event(KeyCode::Char('/'), &CurrentArea::Pages), Some(Message::StartSearch));
    assert_eq!(handle_key_event(KeyCode::Char('o'), &CurrentArea::Pages), Some(Message::StartSort));
    assert_eq!(handle_key_event(KeyCode::Char('t'), &CurrentArea::Pages), Some(Message::UpdateTitle));
    assert_eq!(handle_key_event(KeyCode::Char('?'), &CurrentArea::SortPopup), Some(Message::ToggleHelp));
}

#[test]
fn keys_in_popups() {
    assert_eq!(handle_key_event(KeyCode::Char('Y'), &CurrentArea::SavePopup), Some(Message::ConfirmSave));
    assert_eq!(handle_key_event(KeyCode::Char('n'), &CurrentArea::SavePopup), Some(Message::RejectSave));
    assert_eq!(handle_key_event(KeyCode::Char('y'), &CurrentArea::DeletePopup), Some(Message::ConfirmDeletePage));
    assert_eq!(handle_key_event(KeyCode::Char('x'), &CurrentArea::DeletePopup), None);
    assert_eq!(handle_key_event(KeyCode::Char('x'), &CurrentArea::SearchPopup), Some(Message::TypeChar('x')));
    assert_eq!(handle_key_event(KeyCode::Esc, &CurrentArea::TitlePopup), Some(Message::CancelTitle));
    assert_eq!(handle_key_event(KeyCode::Enter, &CurrentArea::NewPagePopup), Some(Message::SaveNewPage));
    assert_eq!(handle_key_event(KeyCode::Backspace, &CurrentArea::NewPagePopup), Some(Message::Backspace));
    assert_eq!(handle_key_event(KeyCode::Char('d'), &CurrentArea::SortPopup), Some(Message::ToggleSortDir));
    assert_eq!(handle_key_event(KeyCode::Other, &CurrentArea::SortPopup), None);
}

#[test]
fn mouse_only_in_lists() {
    assert_eq!(
        handle_mouse_event(MouseInput::LeftClick(3, 4), &CurrentArea::Pages),
        Some(Message::MouseSelect(3, 4))
    );
    assert_eq!(handle_mouse_event(MouseInput::ScrollDown, &CurrentArea::Spaces), Some(Message::ListNext));
    assert_eq!(handle_mouse_event(MouseInput::ScrollUp, &CurrentArea::SearchPopup), None);
}

#[test]
fn space_choice_is_a_number_in_range() {
    assert_eq!(concmd::parse_space_choice("1", 3), Some(0));
    assert_eq!(concmd::parse_space_choice("3", 3), Some(2));
    assert_eq!(concmd::parse_space_choice("4", 3), None);
    assert_eq!(concmd::parse_space_choice("0", 3), None);
    assert_eq!(concmd::parse_space_choice("", 3), None);
    assert_eq!(concmd::parse_space_choice("2x", 3), None);
    assert_eq!(concmd::parse_space_choice("007", 10), Some(6));
    assert_eq!(concmd::parse_space_choice("99999999999999999999999", 10), None);
}

#[test]
fn publish_answers() {
    assert!(concmd::accepts_publish("y"));
    assert!(concmd::accepts_publish("Yes"));
    assert!(!concmd::accepts_publish("YES"));
    assert!(!concmd::accepts_publish("n"));
    assert!(!concmd::accepts_publish(""));
}

#[test]
fn names_of_sorts_and_methods() {
    assert_eq!(concmd::SortType::CreatedOn.name(), "Created Date");
    assert_eq!(concmd::SortType::Title.name(), "Title");
    assert_eq!(concmd::SortDirection::Desc.name(), "Desc");
    assert_eq!(concmd::Method::Delete.name(), "DEL");
}
