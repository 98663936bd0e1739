use vstd::prelude::*;

use crate::cursor::{next_selection, previous_selection, row_at, Bounds, ListCursor};
use crate::order::{
    flip, initial_sort, is_sorted, lemma_sorted_pages, sort_pages, sorted_pages, Sort, SortDirection,
    SortType, SORT_TYPE_COUNT,
};
use crate::page::{Page, Space};
use crate::saved::{PageState, SaveStates};
use crate::search::{lower_of, matching, retain_matching};
use crate::text::string_of;
use crate::text_field::{TextField, TextView};

verus! {

/// The part of the screen that has the user's attention: one of the two lists,
/// or one of the popups over the page list.
#[derive(Clone, Copy, Debug, PartialEq, Eq, Structural)]
pub enum CurrentArea {
    Spaces,
    Pages,
    SavePopup,
    NewPagePopup,
    DeletePopup,
    SearchPopup,
    SortPopup,
    TitlePopup,
}

/// What a user can ask of the session.
#[derive(Clone, Copy, Debug, PartialEq, Eq, Structural)]
pub enum Message {
    ListNext,
    ListPrevious,
    Select,
    Back,
    Exit,
    Save,
    ConfirmSave,
    RejectSave,
    Refresh,
    OpenEditor,
    NewPage,
    SaveNewPage,
    CancelNewPage,
    Backspace,
    TypeChar(char),
    CursorLeft,
    CursorRight,
    DeletePage,
    ConfirmDeletePage,
    CancelDeletePage,
    StartSearch,
    ConfirmSearch,
    CancelSearch,
    TogglePreview,
    ToggleHelp,
    StartSort,
    ConfirmSort,
    CancelSort,
    ToggleSortDir,
    MouseSelect(u16, u16),
    UpdateTitle,
    ConfirmTitle,
    CancelTitle,
}

/// Work outside the session that a transition asks for. Indices are rows of
/// the space list or the page list as they stand after the transition.
#[derive(Debug)]
pub enum Effect {
    Nothing,
    /// Load the space list afresh; hand it to `spaces_loaded`.
    LoadSpaces,
    /// Load the pages of a space; hand them to `pages_loaded`.
    LoadPages { space: usize },
    /// Load the pages of a space to search them again; hand them to
    /// `search_loaded`.
    SearchPages { space: usize },
    /// Open a page in the editor; hand the edited file's path to
    /// `editor_closed`.
    Edit { page: usize },
    /// Publish the edited file as the page's new content.
    Upload { page: usize, path: String },
    /// Create a page with this title in a space.
    Create { space: usize, title: String },
    /// Delete a page.
    Delete { page: usize },
    /// Give a page a new title.
    Retitle { page: usize, title: String },
}

pub enum EffectView {
    Nothing,
    LoadSpaces,
    LoadPages { space: usize },
    SearchPages { space: usize },
    Edit { page: usize },
    Upload { page: usize, path: Seq<char> },
    Create { space: usize, title: Seq<char> },
    Delete { page: usize },
    Retitle { page: usize, title: Seq<char> },
}

impl View for Effect {
    type V = EffectView;

    open spec fn view(&self) -> EffectView {
        match self {
            Effect::Nothing => EffectView::Nothing,
            Effect::LoadSpaces => EffectView::LoadSpaces,
            Effect::LoadPages { space } => EffectView::LoadPages { space: *space },
            Effect::SearchPages { space } => EffectView::SearchPages { space: *space },
            Effect::Edit { page } => EffectView::Edit { page: *page },
            Effect::Upload { page, path } => EffectView::Upload { page: *page, path: path@ },
            Effect::Create { space, title } => EffectView::Create { space: *space, title: title@ },
            Effect::Delete { page } => EffectView::Delete { page: *page },
            Effect::Retitle { page, title } => EffectView::Retitle { page: *page, title: title@ },
        }
    }
}

/// What a transition hands back: outside work to do, and the message to
/// handle next once that work has succeeded.
#[derive(Debug)]
pub struct Step {
    pub effect: Effect,
    pub next: Option<Message>,
}

/// The search box and whether a search is in force.
#[derive(Debug)]
pub struct Search {
    pub current_search: TextField,
    pub search_active: bool,
}

/// The whole state of an interactive session.
#[derive(Debug)]
pub struct App {
    pub space_list: Vec<Space>,
    pub page_list: Vec<Page>,
    pub space_list_state: ListCursor,
    pub page_list_state: ListCursor,
    pub current_area: CurrentArea,
    pub exit: bool,
    /// The file that the editor wrote, while the user decides whether to
    /// publish it.
    pub edited_file_path: Option<String>,
    pub page_states_map: SaveStates,
    pub new_page_title: TextField,
    pub search: Search,
    pub show_preview: bool,
    pub show_help: bool,
    pub sort: Sort,
    pub space_list_pos: Bounds,
    pub page_list_pos: Bounds,
    pub page_updated_title: TextField,
}

/// A session as mathematical values.
#[verifier::ext_equal]
pub struct AppView {
    pub space_list: Seq<Space>,
    pub page_list: Seq<Page>,
    pub space_list_state: ListCursor,
    pub page_list_state: ListCursor,
    pub current_area: CurrentArea,
    pub exit: bool,
    pub edited_file_path: Option<Seq<char>>,
    pub page_states: Map<Seq<char>, PageState>,
    pub new_page_title: TextView,
    pub current_search: TextView,
    pub search_active: bool,
    pub show_preview: bool,
    pub show_help: bool,
    pub sort: Sort,
    pub space_list_pos: Bounds,
    pub page_list_pos: Bounds,
    pub page_updated_title: TextView,
}

impl View for App {
    type V = AppView;

    open spec fn view(&self) -> AppView {
        AppView {
            space_list: self.space_list@,
            page_list: self.page_list@,
            space_list_state: self.space_list_state,
            page_list_state: self.page_list_state,
            current_area: self.current_area,
            exit: self.exit,
            edited_file_path: match self.edited_file_path {
                Some(p) => Some(p@),
                None => None,
            },
            page_states: self.page_states_map@,
            new_page_title: self.new_page_title@,
            current_search: self.search.current_search@,
            search_active: self.search.search_active,
            show_preview: self.show_preview,
            show_help: self.show_help,
            sort: self.sort,
            space_list_pos: self.space_list_pos,
            page_list_pos: self.page_list_pos,
            page_updated_title: self.page_updated_title@,
        }
    }
}

/// `post` and `r` are what handling `msg` in `pre` gives.
pub open spec fn handled(pre: AppView, post: AppView, msg: Message, r: Step) -> bool {
    &&& post == pre.after(msg)
    &&& r.effect@ == pre.effect_of(msg)
    &&& r.next == pre.next_of(msg)
    &&& post.wf()
}

/// An empty text field.
pub open spec fn empty_text() -> TextView {
    TextView { text: Seq::empty(), offset: 0 }
}

/// A cursor with nothing selected, scrolled to the top.
pub open spec fn no_selection() -> ListCursor {
    ListCursor { selected: None, offset: 0 }
}

impl AppView {
    /// The invariants of a session.
    pub open spec fn wf(self) -> bool {
        &&& self.space_list_state.valid_for(self.space_list.len())
        &&& self.page_list_state.valid_for(self.page_list.len())
        &&& self.sort.wf()
        &&& self.new_page_title.wf()
        &&& self.current_search.wf()
        &&& self.page_updated_title.wf()
        &&& (self.current_area != CurrentArea::Spaces ==> self.space_list_state.selected is Some)
        &&& (self.current_area == CurrentArea::Spaces ==> self.page_list.len() == 0)
        &&& (self.edited_file_path is Some <==> self.current_area == CurrentArea::SavePopup)
    }

    /// The selected row of the space list.
    pub open spec fn space_sel(self) -> Option<usize> {
        match self.space_list_state.selected {
            Some(i) => if i < self.space_list.len() {
                Some(i)
            } else {
                None
            },
            None => None,
        }
    }

    /// The selected row of the page list.
    pub open spec fn page_sel(self) -> Option<usize> {
        match self.page_list_state.selected {
            Some(i) => if i < self.page_list.len() {
                Some(i)
            } else {
                None
            },
            None => None,
        }
    }

    /// Ends the search in force, if any, and empties the search box.
    pub open spec fn search_reset(self) -> AppView {
        if self.search_active {
            AppView { search_active: false, current_search: empty_text(), ..self }
        } else {
            self
        }
    }

    /// Applies `f` to the text field of the popup that has the user's
    /// attention, if it has one.
    pub open spec fn edit_text(self, f: spec_fn(TextView) -> TextView) -> AppView {
        match self.current_area {
            CurrentArea::NewPagePopup => AppView { new_page_title: f(self.new_page_title), ..self },
            CurrentArea::SearchPopup => AppView { current_search: f(self.current_search), ..self },
            CurrentArea::TitlePopup => AppView {
                page_updated_title: f(self.page_updated_title),
                ..self
            },
            _ => self,
        }
    }

    /// The session after `msg`, before any outside work it asks for.
    pub open spec fn after(self, msg: Message) -> AppView {
        let v = self;
        let area = v.current_area;
        match msg {
            Message::Exit => AppView { exit: true, ..v },
            Message::ListNext => match area {
                CurrentArea::Spaces => AppView {
                    space_list_state: ListCursor {
                        selected: next_selection(v.space_list_state.selected, v.space_list.len()),
                        ..v.space_list_state
                    },
                    ..v
                },
                CurrentArea::Pages => AppView {
                    page_list_state: ListCursor {
                        selected: next_selection(v.page_list_state.selected, v.page_list.len()),
                        ..v.page_list_state
                    },
                    ..v
                },
                CurrentArea::SortPopup => AppView {
                    sort: Sort {
                        type_cursor: ListCursor {
                            selected: next_selection(
                                v.sort.type_cursor.selected,
                                SORT_TYPE_COUNT as nat,
                            ),
                            ..v.sort.type_cursor
                        },
                        ..v.sort
                    },
                    ..v
                },
                _ => v,
            },
            Message::ListPrevious => match area {
                CurrentArea::Spaces => AppView {
                    space_list_state: ListCursor {
                        selected: previous_selection(
                            v.space_list_state.selected,
                            v.space_list.len(),
                        ),
                        ..v.space_list_state
                    },
                    ..v
                },
                CurrentArea::Pages => AppView {
                    page_list_state: ListCursor {
                        selected: previous_selection(v.page_list_state.selected, v.page_list.len()),
                        ..v.page_list_state
                    },
                    ..v
                },
                CurrentArea::SortPopup => AppView {
                    sort: Sort {
                        type_cursor: ListCursor {
                            selected: previous_selection(
                                v.sort.type_cursor.selected,
                                SORT_TYPE_COUNT as nat,
                            ),
                            ..v.sort.type_cursor
                        },
                        ..v.sort
                    },
                    ..v
                },
                _ => v,
            },
            Message::Select => v,
            Message::OpenEditor => match v.page_sel() {
                Some(i) => if area == CurrentArea::Pages {
                    AppView { page_states: v.page_states.remove(v.page_list[i as int].id@), ..v }
                } else {
                    v
                },
                None => v,
            },
            Message::ConfirmSave => match v.page_sel() {
                Some(i) => if area == CurrentArea::SavePopup {
                    AppView {
                        page_states: v.page_states.insert(
                            v.page_list[i as int].id@,
                            PageState::Saved,
                        ),
                        ..v
                    }
                } else {
                    v
                },
                None => v,
            },
            Message::RejectSave => if area == CurrentArea::SavePopup {
                AppView {
                    current_area: CurrentArea::Pages,
                    edited_file_path: None,
                    page_states: match v.page_sel() {
                        Some(i) => v.page_states.insert(
                            v.page_list[i as int].id@,
                            PageState::NotSaved,
                        ),
                        None => v.page_states,
                    },
                    ..v
                }
            } else {
                v
            },
            Message::Save => if area == CurrentArea::SavePopup && v.page_sel() is Some
                && v.edited_file_path is Some {
                AppView { current_area: CurrentArea::Pages, edited_file_path: None, ..v }
            } else {
                v
            },
            Message::Back => match area {
                CurrentArea::Pages => AppView {
                    page_list: Seq::empty(),
                    page_list_state: no_selection(),
                    current_area: CurrentArea::Spaces,
                    ..v
                }.search_reset(),
                CurrentArea::Spaces => AppView {
                    space_list_state: no_selection(),
                    ..v
                }.search_reset(),
                _ => v.search_reset(),
            },
            Message::Refresh => if area == CurrentArea::Spaces || area == CurrentArea::Pages {
                AppView { sort: initial_sort(), ..v.search_reset() }
            } else {
                v
            },
            Message::NewPage => if area == CurrentArea::Pages {
                AppView {
                    current_area: CurrentArea::NewPagePopup,
                    new_page_title: empty_text(),
                    ..v
                }
            } else {
                v
            },
            Message::CancelNewPage => if area == CurrentArea::NewPagePopup {
                AppView { current_area: CurrentArea::Pages, new_page_title: empty_text(), ..v }
            } else {
                v
            },
            Message::SaveNewPage => if area == CurrentArea::NewPagePopup && v.space_sel() is Some {
                AppView {
                    current_area: CurrentArea::Pages,
                    new_page_title: v.new_page_title.reset(),
                    ..v
                }
            } else {
                v
            },
            Message::Backspace => v.edit_text(|t: TextView| t.backspace()),
            Message::CursorLeft => v.edit_text(|t: TextView| t.cursor_left()),
            Message::CursorRight => v.edit_text(|t: TextView| t.cursor_right()),
            Message::TypeChar(c) => v.edit_text(|t: TextView| t.type_char(c)),
            Message::DeletePage => if area == CurrentArea::Pages && v.page_sel() is Some {
                AppView { current_area: CurrentArea::DeletePopup, ..v }
            } else {
                v
            },
            Message::ConfirmDeletePage => if area == CurrentArea::DeletePopup && v.page_sel() is Some {
                AppView { current_area: CurrentArea::Pages, ..v }
            } else {
                v
            },
            Message::CancelDeletePage => if area == CurrentArea::DeletePopup {
                AppView { current_area: CurrentArea::Pages, ..v }
            } else {
                v
            },
            Message::StartSearch => if area == CurrentArea::Pages {
                AppView { current_area: CurrentArea::SearchPopup, ..v }
            } else {
                v
            },
            Message::ConfirmSearch => if area == CurrentArea::SearchPopup {
                if v.search_active {
                    AppView {
                        current_area: CurrentArea::Pages,
                        current_search: v.current_search.reset(),
                        ..v
                    }
                } else {
                    AppView {
                        current_area: CurrentArea::Pages,
                        current_search: v.current_search.reset(),
                        page_list: matching(v.page_list, lower_of(v.current_search.text)),
                        page_list_state: no_selection(),
                        search_active: true,
                        ..v
                    }
                }
            } else {
                v
            },
            Message::CancelSearch => if area == CurrentArea::SearchPopup {
                AppView {
                    current_area: CurrentArea::Pages,
                    current_search: if v.search_active {
                        v.current_search.reset()
                    } else {
                        empty_text()
                    },
                    ..v
                }
            } else {
                v
            },
            Message::TogglePreview => AppView { show_preview: !v.show_preview, ..v },
            Message::ToggleHelp => AppView { show_help: !v.show_help, ..v },
            Message::StartSort => if area == CurrentArea::Pages {
                AppView { current_area: CurrentArea::SortPopup, sort: v.sort.started(), ..v }
            } else {
                v
            },
            Message::ConfirmSort => if area == CurrentArea::SortPopup {
                AppView {
                    current_area: CurrentArea::Pages,
                    sort: v.sort.confirmed(),
                    page_list: match v.sort.selected_type() {
                        Some(k) => sorted_pages(v.page_list, k, v.sort.dir),
                        None => v.page_list,
                    },
                    ..v
                }
            } else {
                v
            },
            Message::CancelSort => if area == CurrentArea::SortPopup {
                AppView { current_area: CurrentArea::Pages, sort: v.sort.cancelled(), ..v }
            } else {
                v
            },
            Message::ToggleSortDir => if area == CurrentArea::SortPopup {
                AppView { sort: v.sort.toggled(), ..v }
            } else {
                v
            },
            Message::MouseSelect(x, y) => match area {
                CurrentArea::Spaces => AppView {
                    space_list_state: ListCursor {
                        selected: row_at(
                            v.space_list_pos,
                            v.space_list_state.offset,
                            v.space_list.len(),
                            x,
                            y,
                        ),
                        ..v.space_list_state
                    },
                    ..v
                },
                CurrentArea::Pages => AppView {
                    page_list_state: ListCursor {
                        selected: row_at(
                            v.page_list_pos,
                            v.page_list_state.offset,
                            v.page_list.len(),
                            x,
                            y,
                        ),
                        ..v.page_list_state
                    },
                    ..v
                },
                _ => v,
            },
            Message::UpdateTitle => match v.page_sel() {
                Some(i) => if area == CurrentArea::Pages {
                    AppView {
                        current_area: CurrentArea::TitlePopup,
                        page_updated_title: TextView {
                            text: v.page_list[i as int].title@,
                            offset: 0,
                        },
                        ..v
                    }
                } else {
                    v
                },
                None => v,
            },
            Message::CancelTitle => if area == CurrentArea::TitlePopup {
                AppView {
                    current_area: CurrentArea::Pages,
                    page_updated_title: empty_text(),
                    ..v
                }
            } else {
                v
            },
            Message::ConfirmTitle => if area == CurrentArea::TitlePopup && v.page_sel() is Some {
                AppView {
                    current_area: CurrentArea::Pages,
                    page_updated_title: v.page_updated_title.reset(),
                    ..v
                }
            } else {
                v
            },
        }
    }

    /// The outside work that `msg` asks for.
    pub open spec fn effect_of(self, msg: Message) -> EffectView {
        let v = self;
        let area = v.current_area;
        match msg {
            Message::Select => match v.space_sel() {
                Some(j) => if area == CurrentArea::Spaces {
                    EffectView::LoadPages { space: j }
                } else {
                    EffectView::Nothing
                },
                None => EffectView::Nothing,
            },
            Message::OpenEditor => match v.page_sel() {
                Some(i) => if area == CurrentArea::Pages {
                    EffectView::Edit { page: i }
                } else {
                    EffectView::Nothing
                },
                None => EffectView::Nothing,
            },
            Message::Save => match (v.page_sel(), v.edited_file_path) {
                (Some(i), Some(p)) => if area == CurrentArea::SavePopup {
                    EffectView::Upload { page: i, path: p }
                } else {
                    EffectView::Nothing
                },
                _ => EffectView::Nothing,
            },
            Message::Refresh => if area == CurrentArea::Spaces {
                EffectView::LoadSpaces
            } else if area == CurrentArea::Pages {
                match v.space_sel() {
                    Some(j) => EffectView::LoadPages { space: j },
                    None => EffectView::Nothing,
                }
            } else {
                EffectView::Nothing
            },
            Message::SaveNewPage => match v.space_sel() {
                Some(j) => if area == CurrentArea::NewPagePopup {
                    EffectView::Create { space: j, title: v.new_page_title.text }
                } else {
                    EffectView::Nothing
                },
                None => EffectView::Nothing,
            },
            Message::ConfirmDeletePage => match v.page_sel() {
                Some(i) => if area == CurrentArea::DeletePopup {
                    EffectView::Delete { page: i }
                } else {
                    EffectView::Nothing
                },
                None => EffectView::Nothing,
            },
            Message::ConfirmSearch => match v.space_sel() {
                Some(j) => if area == CurrentArea::SearchPopup && v.search_active {
                    EffectView::SearchPages { space: j }
                } else {
                    EffectView::Nothing
                },
                None => EffectView::Nothing,
            },
            Message::ConfirmTitle => match v.page_sel() {
                Some(i) => if area == CurrentArea::TitlePopup {
                    EffectView::Retitle { page: i, title: v.page_updated_title.text }
                } else {
                    EffectView::Nothing
                },
                None => EffectView::Nothing,
            },
            _ => EffectView::Nothing,
        }
    }

    /// The message that `msg` leads to once its outside work has succeeded.
    pub open spec fn next_of(self, msg: Message) -> Option<Message> {
        let v = self;
        let area = v.current_area;
        match msg {
            Message::Select => if area == CurrentArea::Pages {
                Some(Message::OpenEditor)
            } else {
                None
            },
            Message::ConfirmSave => if area == CurrentArea::SavePopup && v.page_sel() is Some {
                Some(Message::Save)
            } else {
                None
            },
            Message::Save => if area == CurrentArea::SavePopup && v.page_sel() is Some
                && v.edited_file_path is Some {
                Some(Message::Refresh)
            } else {
                None
            },
            Message::SaveNewPage => if area == CurrentArea::NewPagePopup && v.space_sel() is Some {
                Some(Message::Refresh)
            } else {
                None
            },
            Message::ConfirmDeletePage => if area == CurrentArea::DeletePopup && v.page_sel() is Some {
                Some(Message::Refresh)
            } else {
                None
            },
            Message::ConfirmTitle => if area == CurrentArea::TitlePopup && v.page_sel() is Some {
                Some(Message::Refresh)
            } else {
                None
            },
            _ => None,
        }
    }

    /// The session once a fresh space list has arrived.
    pub open spec fn with_spaces(self, spaces: Seq<Space>) -> AppView {
        if self.current_area == CurrentArea::Spaces {
            AppView { space_list: spaces, space_list_state: no_selection(), ..self }
        } else {
            self
        }
    }

    /// The session once the pages of the selected space have arrived: they
    /// are listed by creation date, oldest first, with none selected.
    pub open spec fn with_pages(self, pages: Seq<Page>) -> AppView {
        if (self.current_area == CurrentArea::Spaces || self.current_area == CurrentArea::Pages)
            && self.space_sel() is Some {
            AppView {
                page_list: sorted_pages(pages, SortType::CreatedOn, SortDirection::Asc),
                page_list_state: no_selection(),
                current_area: CurrentArea::Pages,
                ..self
            }
        } else {
            self
        }
    }

    /// The session once the pages have been loaded afresh for a search: the
    /// search applies to the whole list.
    pub open spec fn with_search_results(self, pages: Seq<Page>) -> AppView {
        if self.current_area == CurrentArea::Pages {
            AppView {
                page_list: matching(
                    sorted_pages(pages, SortType::CreatedOn, SortDirection::Asc),
                    lower_of(self.current_search.text),
                ),
                page_list_state: no_selection(),
                search_active: true,
                ..self
            }
        } else {
            self
        }
    }

    /// The session once the editor has written the page to `path`.
    pub open spec fn with_edited_file(self, path: Seq<char>) -> AppView {
        if self.current_area == CurrentArea::Pages && self.page_sel() is Some {
            AppView {
                edited_file_path: Some(path),
                current_area: CurrentArea::SavePopup,
                ..self
            }
        } else {
            self
        }
    }
}

impl App {
    /// A fresh session over `space_list`: browsing spaces, nothing selected,
    /// no pages, empty text fields, pages ordered by creation date, oldest
    /// first.
    pub fn new(space_list: Vec<Space>) -> (app: App)
        ensures
            app@.wf(),
            app@.space_list == space_list@,
            app@.page_list.len() == 0,
            app@.space_list_state == no_selection(),
            app@.page_list_state == no_selection(),
            app@.current_area == CurrentArea::Spaces,
            !app@.exit,
            app@.edited_file_path is None,
            app@.page_states == Map::<Seq<char>, PageState>::empty(),
            app@.new_page_title == empty_text(),
            app@.current_search == empty_text(),
            !app@.search_active,
            !app@.show_preview,
            !app@.show_help,
            app@.sort == initial_sort(),
            app@.page_updated_title == empty_text(),
    {
        let app = App {
            space_list,
            page_list: Vec::new(),
            space_list_state: ListCursor::new(),
            page_list_state: ListCursor::new(),
            current_area: CurrentArea::Spaces,
            exit: false,
            edited_file_path: None,
            page_states_map: SaveStates::new(),
            new_page_title: TextField::new(),
            search: Search { current_search: TextField::new(), search_active: false },
            show_preview: false,
            show_help: false,
            sort: Sort::new(),
            space_list_pos: Bounds { left: 0, right: 0, top: 0 },
            page_list_pos: Bounds { left: 0, right: 0, top: 0 },
            page_updated_title: TextField::new(),
        };
        app
    }

    /// The selected row of the space list, if any.
    fn space_index(&self) -> (r: Option<usize>)
        ensures
            r == self@.space_sel(),
    {
        match self.space_list_state.selected {
            Some(i) => if i < self.space_list.len() {
                Some(i)
            } else {
                None
            },
            None => None,
        }
    }

    /// The selected row of the page list, if any.
    fn page_index(&self) -> (r: Option<usize>)
        ensures
            r == self@.page_sel(),
    {
        match self.page_list_state.selected {
            Some(i) => if i < self.page_list.len() {
                Some(i)
            } else {
                None
            },
            None => None,
        }
    }

    /// The selected space, if any.
    pub fn get_selected_space(&self) -> (r: Option<&Space>)
        ensures
            r == match self@.space_sel() {
                Some(j) => Some(&self.space_list@[j as int]),
                None => None,
            },
    {
        match self.space_index() {
            Some(j) => Some(&self.space_list[j]),
            None => None,
        }
    }

    /// The selected page, if any.
    pub fn get_selected_page(&self) -> (r: Option<&Page>)
        ensures
            r == match self@.page_sel() {
                Some(i) => Some(&self.page_list@[i as int]),
                None => None,
            },
    {
        match self.page_index() {
            Some(i) => Some(&self.page_list[i]),
            None => None,
        }
    }

    /// The save state recorded for the page `id`, if any.
    pub fn page_state(&self, id: &str) -> (r: Option<PageState>)
        ensures
            r == crate::saved::state_in(self@.page_states, id@),
    {
        self.page_states_map.get(id)
    }

    /// Records where the two lists were drawn and scrolled to.
    pub fn set_layout(
        &mut self,
        space_pos: Bounds,
        space_offset: usize,
        page_pos: Bounds,
        page_offset: usize,
    )
        requires
            old(self)@.wf(),
        ensures
            final(self)@ == (AppView {
                space_list_pos: space_pos,
                page_list_pos: page_pos,
                space_list_state: ListCursor { offset: space_offset, ..old(self)@.space_list_state },
                page_list_state: ListCursor { offset: page_offset, ..old(self)@.page_list_state },
                ..old(self)@
            }),
            final(self)@.wf(),
    {
        self.space_list_pos = space_pos;
        self.page_list_pos = page_pos;
        self.space_list_state.set_offset(space_offset);
        self.page_list_state.set_offset(page_offset);
    }

    /// Ends the search in force, if any.
    fn reset_search(&mut self)
        ensures
            final(self)@ == old(self)@.search_reset(),
    {
        if self.search.search_active {
            self.search.search_active = false;
            self.search.current_search.clear();
        }
    }

    /// Takes the page list out, leaving it empty.
    fn take_pages(&mut self) -> (r: Vec<Page>)
        ensures
            r@ == old(self).page_list@,
            final(self).page_list@.len() == 0,
            final(self).space_list == old(self).space_list,
            final(self).space_list_state == old(self).space_list_state,
            final(self).page_list_state == old(self).page_list_state,
            final(self).current_area == old(self).current_area,
            final(self).exit == old(self).exit,
            final(self).edited_file_path == old(self).edited_file_path,
            final(self).page_states_map == old(self).page_states_map,
            final(self).new_page_title == old(self).new_page_title,
            final(self).search == old(self).search,
            final(self).show_preview == old(self).show_preview,
            final(self).show_help == old(self).show_help,
            final(self).sort == old(self).sort,
            final(self).space_list_pos == old(self).space_list_pos,
            final(self).page_list_pos == old(self).page_list_pos,
            final(self).page_updated_title == old(self).page_updated_title,
    {
        let mut r: Vec<Page> = Vec::new();
        std::mem::swap(&mut r, &mut self.page_list);
        r
    }
}

impl App {
    /// Moves the selection of the list that has the user's attention.
    fn on_list_move(&mut self, msg: Message) -> (r: Step)
        requires
            old(self)@.wf(),
            msg is ListNext || msg is ListPrevious || msg is MouseSelect,
        ensures
            handled(old(self)@, final(self)@, msg, r),
    {
        let area = self.current_area;
        match msg {
            Message::ListNext => match area {
                CurrentArea::Spaces => self.space_list_state.next(self.space_list.len()),
                CurrentArea::Pages => self.page_list_state.next(self.page_list.len()),
                CurrentArea::SortPopup => self.sort.next(),
                _ => {},
            },
            Message::ListPrevious => match area {
                CurrentArea::Spaces => self.space_list_state.previous(self.space_list.len()),
                CurrentArea::Pages => self.page_list_state.previous(self.page_list.len()),
                CurrentArea::SortPopup => self.sort.previous(),
                _ => {},
            },
            Message::MouseSelect(x, y) => match area {
                CurrentArea::Spaces => {
                    let b = self.space_list_pos;
                    self.space_list_state.mouse_select(&b, self.space_list.len(), x, y);
                },
                CurrentArea::Pages => {
                    let b = self.page_list_pos;
                    self.page_list_state.mouse_select(&b, self.page_list.len(), x, y);
                },
                _ => {},
            },
            _ => {},
        }
        proof {
            assert(self@ =~= old(self)@.after(msg));
        }
        Step { effect: Effect::Nothing, next: None }
    }

    /// Opens the selected space, or the selected page in the editor.
    fn on_select(&mut self, msg: Message) -> (r: Step)
        requires
            old(self)@.wf(),
            msg is Select,
        ensures
            handled(old(self)@, final(self)@, msg, r),
    {
        let area = self.current_area;
        let mut effect = Effect::Nothing;
        let mut next: Option<Message> = None;
        match area {
            CurrentArea::Spaces => {
                if let Some(j) = self.space_index() {
                    effect = Effect::LoadPages { space: j };
                }
            },
            CurrentArea::Pages => {
                next = Some(Message::OpenEditor);
            },
            _ => {},
        }
        proof {
            assert(self@ =~= old(self)@.after(msg));
        }
        Step { effect, next }
    }

    /// Asks for the selected page to be opened in the editor.
    fn on_open_editor(&mut self, msg: Message) -> (r: Step)
        requires
            old(self)@.wf(),
            msg is OpenEditor,
        ensures
            handled(old(self)@, final(self)@, msg, r),
    {
        let area = self.current_area;
        let mut effect = Effect::Nothing;
        if area == CurrentArea::Pages {
            if let Some(i) = self.page_index() {
                self.page_states_map.remove(self.page_list[i].id.as_str());
                effect = Effect::Edit { page: i };
            }
        }
        proof {
            assert(self@ =~= old(self)@.after(msg));
        }
        Step { effect, next: None }
    }

    /// Records the user's answer to the question whether to publish an edit.
    fn on_save_answer(&mut self, msg: Message) -> (r: Step)
        requires
            old(self)@.wf(),
            msg is ConfirmSave || msg is RejectSave,
        ensures
            handled(old(self)@, final(self)@, msg, r),
    {
        let area = self.current_area;
        let mut next: Option<Message> = None;
        match msg {
            Message::ConfirmSave => {
                if area == CurrentArea::SavePopup {
                    if let Some(i) = self.page_index() {
                        let id = self.page_list[i].id.clone();
                        self.page_states_map.insert(id, PageState::Saved);
                        next = Some(Message::Save);
                    }
                }
            },
            Message::RejectSave => {
                if area == CurrentArea::SavePopup {
                    if let Some(i) = self.page_index() {
                        let id = self.page_list[i].id.clone();
                        self.page_states_map.insert(id, PageState::NotSaved);
                    }
                    self.current_area = CurrentArea::Pages;
                    self.edited_file_path = None;
                }
            },
            _ => {},
        }
        proof {
            assert(self@ =~= old(self)@.after(msg));
        }
        Step { effect: Effect::Nothing, next }
    }

    /// Asks for the edited file to be published.
    fn on_save(&mut self, msg: Message) -> (r: Step)
        requires
            old(self)@.wf(),
            msg is Save,
        ensures
            handled(old(self)@, final(self)@, msg, r),
    {
        let area = self.current_area;
        let mut effect = Effect::Nothing;
        let mut next: Option<Message> = None;
        if area == CurrentArea::SavePopup && self.edited_file_path.is_some() {
            if let Some(i) = self.page_index() {
                let path = self.edited_file_path.take().unwrap();
                self.current_area = CurrentArea::Pages;
                effect = Effect::Upload { page: i, path };
                next = Some(Message::Refresh);
            }
        }
        proof {
            assert(self@ =~= old(self)@.after(msg));
        }
        Step { effect, next }
    }

    /// Leaves the page list, or clears the space selection.
    fn on_back(&mut self, msg: Message) -> (r: Step)
        requires
            old(self)@.wf(),
            msg is Back,
        ensures
            handled(old(self)@, final(self)@, msg, r),
    {
        let area = self.current_area;
        match area {
            CurrentArea::Pages => {
                self.page_list = Vec::new();
                self.page_list_state = ListCursor::new();
                self.current_area = CurrentArea::Spaces;
            },
            CurrentArea::Spaces => {
                self.space_list_state = ListCursor::new();
            },
            _ => {},
        }
        self.reset_search();
        proof {
            assert(self@ =~= old(self)@.after(msg));
        }
        Step { effect: Effect::Nothing, next: None }
    }

    /// Asks for the list in view to be loaded afresh.
    fn on_refresh(&mut self, msg: Message) -> (r: Step)
        requires
            old(self)@.wf(),
            msg is Refresh,
        ensures
            handled(old(self)@, final(self)@, msg, r),
    {
        let area = self.current_area;
        let mut effect = Effect::Nothing;
        if area == CurrentArea::Spaces || area == CurrentArea::Pages {
            self.reset_search();
            self.sort = Sort::new();
            if area == CurrentArea::Spaces {
                effect = Effect::LoadSpaces;
            } else if let Some(j) = self.space_index() {
                effect = Effect::LoadPages { space: j };
            }
        }
        proof {
            assert(self@ =~= old(self)@.after(msg));
        }
        Step { effect, next: None }
    }

    /// Handles the popup for a new page's title.
    fn on_new_page(&mut self, msg: Message) -> (r: Step)
        requires
            old(self)@.wf(),
            msg is NewPage || msg is CancelNewPage || msg is SaveNewPage,
        ensures
            handled(old(self)@, final(self)@, msg, r),
    {
        let area = self.current_area;
        let mut effect = Effect::Nothing;
        let mut next: Option<Message> = None;
        match msg {
            Message::NewPage => {
                if area == CurrentArea::Pages {
                    self.new_page_title.clear();
                    self.current_area = CurrentArea::NewPagePopup;
                }
            },
            Message::CancelNewPage => {
                if area == CurrentArea::NewPagePopup {
                    self.new_page_title.clear();
                    self.current_area = CurrentArea::Pages;
                }
            },
            Message::SaveNewPage => {
                if area == CurrentArea::NewPagePopup {
                    if let Some(j) = self.space_index() {
                        let title = string_of(&self.new_page_title.text);
                        self.new_page_title.reset();
                        self.current_area = CurrentArea::Pages;
                        effect = Effect::Create { space: j, title };
                        next = Some(Message::Refresh);
                    }
                }
            },
            _ => {},
        }
        proof {
            assert(self@ =~= old(self)@.after(msg));
        }
        Step { effect, next }
    }

    /// Edits the text field of the popup that has the user's attention.
    fn on_text(&mut self, msg: Message) -> (r: Step)
        requires
            old(self)@.wf(),
            msg is Backspace || msg is CursorLeft || msg is CursorRight || msg is TypeChar,
        ensures
            handled(old(self)@, final(self)@, msg, r),
    {
        let area = self.current_area;
        match msg {
            Message::Backspace => match area {
                CurrentArea::NewPagePopup => self.new_page_title.backspace(),
                CurrentArea::SearchPopup => self.search.current_search.backspace(),
                CurrentArea::TitlePopup => self.page_updated_title.backspace(),
                _ => {},
            },
            Message::CursorLeft => match area {
                CurrentArea::NewPagePopup => self.new_page_title.cursor_left(),
                CurrentArea::SearchPopup => self.search.current_search.cursor_left(),
                CurrentArea::TitlePopup => self.page_updated_title.cursor_left(),
                _ => {},
            },
            Message::CursorRight => match area {
                CurrentArea::NewPagePopup => self.new_page_title.cursor_right(),
                CurrentArea::SearchPopup => self.search.current_search.cursor_right(),
                CurrentArea::TitlePopup => self.page_updated_title.cursor_right(),
                _ => {},
            },
            Message::TypeChar(c) => match area {
                CurrentArea::NewPagePopup => self.new_page_title.type_char(c),
                CurrentArea::SearchPopup => self.search.current_search.type_char(c),
                CurrentArea::TitlePopup => self.page_updated_title.type_char(c),
                _ => {},
            },
            _ => {},
        }
        proof {
            assert(self@ =~= old(self)@.after(msg));
        }
        Step { effect: Effect::Nothing, next: None }
    }

    /// Handles the question whether to delete the selected page.
    fn on_delete(&mut self, msg: Message) -> (r: Step)
        requires
            old(self)@.wf(),
            msg is DeletePage || msg is ConfirmDeletePage || msg is CancelDeletePage,
        ensures
            handled(old(self)@, final(self)@, msg, r),
    {
        let area = self.current_area;
        let mut effect = Effect::Nothing;
        let mut next: Option<Message> = None;
        match msg {
            Message::DeletePage => {
                if area == CurrentArea::Pages && self.page_index().is_some() {
                    self.current_area = CurrentArea::DeletePopup;
                }
            },
            Message::ConfirmDeletePage => {
                if area == CurrentArea::DeletePopup {
                    if let Some(i) = self.page_index() {
                        self.current_area = CurrentArea::Pages;
                        effect = Effect::Delete { page: i };
                        next = Some(Message::Refresh);
                    }
                }
            },
            Message::CancelDeletePage => {
                if area == CurrentArea::DeletePopup {
                    self.current_area = CurrentArea::Pages;
                }
            },
            _ => {},
        }
        proof {
            assert(self@ =~= old(self)@.after(msg));
        }
        Step { effect, next }
    }

    /// Handles the search popup.
    fn on_search(&mut self, msg: Message) -> (r: Step)
        requires
            old(self)@.wf(),
            msg is StartSearch || msg is ConfirmSearch || msg is CancelSearch,
        ensures
            handled(old(self)@, final(self)@, msg, r),
    {
        let area = self.current_area;
        let mut effect = Effect::Nothing;
        match msg {
            Message::StartSearch => {
                if area == CurrentArea::Pages {
                    self.current_area = CurrentArea::SearchPopup;
                }
            },
            Message::ConfirmSearch => {
                if area == CurrentArea::SearchPopup {
                    self.current_area = CurrentArea::Pages;
                    if self.search.search_active {
                        if let Some(j) = self.space_index() {
                            effect = Effect::SearchPages { space: j };
                        }
                    } else {
                        let query = self.search.current_search.text();
                        let pages = self.take_pages();
                        self.page_list = retain_matching(pages, query.as_str());
                        self.page_list_state = ListCursor::new();
                        self.search.search_active = true;
                    }
                    self.search.current_search.reset();
                }
            },
            Message::CancelSearch => {
                if area == CurrentArea::SearchPopup {
                    if self.search.search_active {
                        self.search.current_search.reset();
                    } else {
                        self.search.current_search.clear();
                    }
                    self.current_area = CurrentArea::Pages;
                }
            },
            _ => {},
        }
        proof {
            assert(self@ =~= old(self)@.after(msg));
        }
        Step { effect, next: None }
    }

    /// Handles the sort picker.
    fn on_sort(&mut self, msg: Message) -> (r: Step)
        requires
            old(self)@.wf(),
            msg is StartSort || msg is ConfirmSort || msg is CancelSort || msg is ToggleSortDir,
        ensures
            handled(old(self)@, final(self)@, msg, r),
    {
        let area = self.current_area;
        match msg {
            Message::StartSort => {
                if area == CurrentArea::Pages {
                    self.sort.start();
                    self.current_area = CurrentArea::SortPopup;
                }
            },
            Message::ConfirmSort => {
                if area == CurrentArea::SortPopup {
                    if let Some((kind, dir)) = self.sort.get_selected_sort() {
                        let pages = self.take_pages();
                        proof {
                            lemma_sorted_pages(pages@, kind, dir);
                        }
                        self.page_list = sort_pages(pages, kind, dir);
                    }
                    self.sort.confirm();
                    self.current_area = CurrentArea::Pages;
                }
            },
            Message::CancelSort => {
                if area == CurrentArea::SortPopup {
                    self.sort.cancel();
                    self.current_area = CurrentArea::Pages;
                }
            },
            Message::ToggleSortDir => {
                if area == CurrentArea::SortPopup {
                    self.sort.toggle_dir();
                }
            },
            _ => {},
        }
        proof {
            assert(self@ =~= old(self)@.after(msg));
        }
        Step { effect: Effect::Nothing, next: None }
    }

    /// Handles the popup for the selected page's new title.
    fn on_title(&mut self, msg: Message) -> (r: Step)
        requires
            old(self)@.wf(),
            msg is UpdateTitle || msg is CancelTitle || msg is ConfirmTitle,
        ensures
            handled(old(self)@, final(self)@, msg, r),
    {
        let area = self.current_area;
        let mut effect = Effect::Nothing;
        let mut next: Option<Message> = None;
        match msg {
            Message::UpdateTitle => {
                if area == CurrentArea::Pages {
                    if let Some(i) = self.page_index() {
                        self.page_updated_title = TextField::with_text(
                            self.page_list[i].title.as_str(),
                        );
                        self.current_area = CurrentArea::TitlePopup;
                    }
                }
            },
            Message::CancelTitle => {
                if area == CurrentArea::TitlePopup {
                    self.page_updated_title.clear();
                    self.current_area = CurrentArea::Pages;
                }
            },
            Message::ConfirmTitle => {
                if area == CurrentArea::TitlePopup {
                    if let Some(i) = self.page_index() {
                        let title = string_of(&self.page_updated_title.text);
                        self.page_updated_title.reset();
                        self.current_area = CurrentArea::Pages;
                        effect = Effect::Retitle { page: i, title };
                        next = Some(Message::Refresh);
                    }
                }
            },
            _ => {},
        }
        proof {
            assert(self@ =~= old(self)@.after(msg));
        }
        Step { effect, next }
    }

    /// Exits, or shows or hides the preview or the help line.
    fn on_flag(&mut self, msg: Message) -> (r: Step)
        requires
            old(self)@.wf(),
            msg is Exit || msg is TogglePreview || msg is ToggleHelp,
        ensures
            handled(old(self)@, final(self)@, msg, r),
    {
        match msg {
            Message::Exit => {
                self.exit = true;
            },
            Message::TogglePreview => {
                self.show_preview = !self.show_preview;
            },
            Message::ToggleHelp => {
                self.show_help = !self.show_help;
            },
            _ => {},
        }
        proof {
            assert(self@ =~= old(self)@.after(msg));
        }
        Step { effect: Effect::Nothing, next: None }
    }

    /// Handles one message: changes the session as `after` says, and hands
    /// back the outside work that the message asks for and the message to
    /// handle once that work has succeeded.
    pub fn update(&mut self, msg: Message) -> (r: Step)
        requires
            old(self)@.wf(),
        ensures
            final(self)@ == old(self)@.after(msg),
            r.effect@ == old(self)@.effect_of(msg),
            r.next == old(self)@.next_of(msg),
            final(self)@.wf(),
    {
        match msg {
            Message::ListNext | Message::ListPrevious | Message::MouseSelect(..) => self.on_list_move(msg),
            Message::Select => self.on_select(msg),
            Message::OpenEditor => self.on_open_editor(msg),
            Message::ConfirmSave | Message::RejectSave => self.on_save_answer(msg),
            Message::Save => self.on_save(msg),
            Message::Back => self.on_back(msg),
            Message::Refresh => self.on_refresh(msg),
            Message::NewPage | Message::CancelNewPage | Message::SaveNewPage => self.on_new_page(msg),
            Message::Backspace | Message::CursorLeft | Message::CursorRight | Message::TypeChar(..) => self.on_text(msg),
            Message::DeletePage | Message::ConfirmDeletePage | Message::CancelDeletePage => self.on_delete(msg),
            Message::StartSearch | Message::ConfirmSearch | Message::CancelSearch => self.on_search(msg),
            Message::StartSort | Message::ConfirmSort | Message::CancelSort | Message::ToggleSortDir => self.on_sort(msg),
            Message::UpdateTitle | Message::CancelTitle | Message::ConfirmTitle => self.on_title(msg),
            Message::Exit | Message::TogglePreview | Message::ToggleHelp => self.on_flag(msg),
        }
    }
}

impl App {
    /// Takes a fresh space list; nothing is selected in it.
    pub fn spaces_loaded(&mut self, spaces: Vec<Space>)
        requires
            old(self)@.wf(),
        ensures
            final(self)@ == old(self)@.with_spaces(spaces@),
            final(self)@.wf(),
    {
        if self.current_area == CurrentArea::Spaces {
            self.space_list = spaces;
            self.space_list_state = ListCursor::new();
        }
        proof {
            assert(self@ =~= old(self)@.with_spaces(spaces@));
        }
    }

    /// Takes the pages of the selected space and shows them, oldest first,
    /// with none selected.
    pub fn pages_loaded(&mut self, pages: Vec<Page>)
        requires
            old(self)@.wf(),
        ensures
            final(self)@ == old(self)@.with_pages(pages@),
            final(self)@.wf(),
    {
        if (self.current_area == CurrentArea::Spaces || self.current_area == CurrentArea::Pages)
            && self.space_index().is_some() {
            self.page_list = sort_pages(pages, SortType::CreatedOn, SortDirection::Asc);
            self.page_list_state = ListCursor::new();
            self.current_area = CurrentArea::Pages;
        }
        proof {
            assert(self@ =~= old(self)@.with_pages(pages@));
        }
    }

    /// Takes the pages of the selected space, loaded afresh, and shows those
    /// that the search box matches.
    pub fn search_loaded(&mut self, pages: Vec<Page>)
        requires
            old(self)@.wf(),
        ensures
            final(self)@ == old(self)@.with_search_results(pages@),
            final(self)@.wf(),
    {
        if self.current_area == CurrentArea::Pages {
            let sorted = sort_pages(pages, SortType::CreatedOn, SortDirection::Asc);
            let query = self.search.current_search.text();
            self.page_list = retain_matching(sorted, query.as_str());
            self.page_list_state = ListCursor::new();
            self.search.search_active = true;
        }
        proof {
            assert(self@ =~= old(self)@.with_search_results(pages@));
        }
    }

    /// Takes the path of the file that the editor wrote, and asks whether to
    /// publish it.
    pub fn editor_closed(&mut self, path: String)
        requires
            old(self)@.wf(),
        ensures
            final(self)@ == old(self)@.with_edited_file(path@),
            final(self)@.wf(),
    {
        if self.current_area == CurrentArea::Pages && self.page_index().is_some() {
            self.edited_file_path = Some(path);
            self.current_area = CurrentArea::SavePopup;
        }
        proof {
            assert(self@ =~= old(self)@.with_edited_file(path@));
        }
    }
}

/// A second confirmed search does not filter the result of the first: it
/// filters the whole list loaded afresh, so that it gives what a single search
/// for its query gives on the unfiltered list.
pub proof fn lemma_searches_do_not_compound(
    v: AppView,
    loaded: Seq<Page>,
    first: TextView,
    second: TextView,
)
    requires
        v.wf(),
        v.current_area == CurrentArea::SearchPopup,
        !v.search_active,
        v.page_list == sorted_pages(loaded, SortType::CreatedOn, SortDirection::Asc),
        first.wf(),
        second.wf(),
    ensures
        ({
            let once = AppView { current_search: first, ..v }.after(Message::ConfirmSearch);
            let reopened = AppView {
                current_search: second,
                ..once.after(Message::StartSearch)
            };
            let space = v.space_sel();
            &&& space is Some
            &&& reopened.effect_of(Message::ConfirmSearch) == EffectView::SearchPages {
                space: space->0,
            }
            &&& reopened.after(Message::ConfirmSearch).with_search_results(loaded).page_list
                == AppView { current_search: second, ..v }.after(Message::ConfirmSearch).page_list
        }),
{
}

/// Opening the sort picker, flipping the direction and cancelling leaves the
/// sort type, the direction and the page list as they were.
pub proof fn lemma_sort_cancel_keeps_order(v: AppView)
    requires
        v.current_area == CurrentArea::Pages,
    ensures
        ({
            let w = v.after(Message::StartSort).after(Message::ToggleSortDir).after(
                Message::CancelSort,
            );
            &&& w.current_area == CurrentArea::Pages
            &&& w.sort.type_cursor == v.sort.type_cursor
            &&& w.sort.dir == v.sort.dir
            &&& w.page_list == v.page_list
        }),
{
}

/// Opening the sort picker, flipping the direction and confirming flips the
/// direction in force and puts the same pages in order by the sort type in
/// the new direction.
pub proof fn lemma_sort_confirm_flips(v: AppView)
    requires
        v.current_area == CurrentArea::Pages,
        v.sort.selected_type() is Some,
    ensures
        ({
            let w = v.after(Message::StartSort).after(Message::ToggleSortDir).after(
                Message::ConfirmSort,
            );
            let k = v.sort.selected_type()->0;
            &&& w.current_area == CurrentArea::Pages
            &&& w.sort.dir == flip(v.sort.dir)
            &&& w.sort.selected_type() == v.sort.selected_type()
            &&& is_sorted(w.page_list, k, flip(v.sort.dir))
            &&& w.page_list.to_multiset() == v.page_list.to_multiset()
        }),
{
    lemma_sorted_pages(v.page_list, v.sort.selected_type()->0, flip(v.sort.dir));
}

/// A click outside the rendered rows of the list in view clears its selection
/// and leaves the area that has the user's attention as it was.
pub proof fn lemma_click_outside_clears(v: AppView, x: u16, y: u16)
    requires
        v.current_area == CurrentArea::Spaces ==> row_at(
            v.space_list_pos,
            v.space_list_state.offset,
            v.space_list.len(),
            x,
            y,
        ) is None,
        v.current_area == CurrentArea::Pages ==> row_at(
            v.page_list_pos,
            v.page_list_state.offset,
            v.page_list.len(),
            x,
            y,
        ) is None,
    ensures
        v.after(Message::MouseSelect(x, y)).current_area == v.current_area,
        v.current_area == CurrentArea::Spaces ==> v.after(
            Message::MouseSelect(x, y),
        ).space_list_state.selected is None,
        v.current_area == CurrentArea::Pages ==> v.after(
            Message::MouseSelect(x, y),
        ).page_list_state.selected is None,
{
}

} // verus!
