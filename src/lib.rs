//! Data and view decisions of a two-pane chat shell: the history feed,
//! the contact list and its paged loading.

pub mod text;
pub mod history;

pub use history::{History, HistoryModel, HistoryView};
pub mod contacts;

pub use contacts::{ChatContact, ContactGroup, ContactPager, LoadAction, MainView, PagerModel};
