//! A terminal browser and editor for a document store of spaces and pages.
//!
//! The library holds the interactive session: its state, the messages a user
//! can send, the transition from one state to the next, and the small models
//! that the session is built from (list cursors, text fields, sorting and
//! searching). It also describes the requests that the session sends to the
//! store. Everything that talks to a terminal, a network or a disk lives in
//! the program around it.

mod choice;
mod cursor;
mod input;
mod order;
mod page;
mod saved;
mod search;
mod session;
mod store;
mod text;
mod text_field;

pub use choice::{accepts_publish, chosen_row, digits_value, is_digit, parse_space_choice};
pub use cursor::{
    lemma_next_wraps_around, lemma_previous_next_inverse, next_selection, next_times,
    previous_selection, row_at, Bounds, ListCursor,
};
pub use input::{
    handle_key_event, handle_mouse_event, key_message, lemma_q_exits_everywhere, mouse_message,
    KeyCode, MouseInput,
};
pub use order::{
    chars_le, chars_le_exec, flip, goes_before, initial_sort, insert_sorted, is_sorted,
    lemma_cancel_restores, lemma_confirm_flips, lemma_sorted_pages, page_goes_before, sort_key,
    sort_pages, sort_type_at, sorted_pages, Sort, SortDirection, SortType, SORT_TYPE_COUNT,
};
pub use page::{
    body_excerpt, date_created, get_created_on_list, get_name_list, get_page_preview, Attr, Body,
    Page, PageVersion, Space, Storage, DATE_LEN,
};
pub use saved::{map_of, map_saved_pages, saved_mark, state_in, PageState, SaveStates};
pub use search::{
    contains_chars, is_infix, lower_of, matching, retain_matching, title_matches_folded,
};
pub use session::{
    empty_text, handled, lemma_click_outside_clears, lemma_searches_do_not_compound,
    lemma_sort_cancel_keeps_order, lemma_sort_confirm_flips, no_selection, App, AppView,
    CurrentArea, Effect, EffectView, Message, Search, Step,
};
pub use store::{
    api_base, comma_list, delete_page, get_page_by_id, join_ids, load_page_list_for_space,
    load_space_list, space_filter, upload_new_page, Api, Method, StoreError, StoreRequest,
};
pub use text::{chars_of, prefix_chars, same_text, string_of};
pub use text_field::{
    after_moves, lemma_any_moves_stay_inside, lemma_cursor_moves_stay_inside,
    lemma_type_then_backspace, TextField, TextView,
};
