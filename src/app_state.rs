use vstd::prelude::*;

use crate::app_input::AppInput;
use crate::expense::Expense;
use crate::submission::FormError;

verus! {

/// The interaction mode, which decides how a key is read.
#[derive(Clone, Copy, Debug, PartialEq, Eq, Structural)]
pub enum AppMode {
    Normal,
    Editing,
    Creating,
    Detail,
}

impl Default for AppMode {
    fn default() -> (r: AppMode)
        ensures
            r == AppMode::Normal,
    {
        AppMode::Normal
    }
}

/// The outcome of the last user action, as shown to the user.
#[derive(Clone, Debug)]
pub enum StatusMessage {
    /// The creation form refused its line.
    Rejected(FormError),
    /// A new record was stored.
    Saved,
    /// The store refused a new record; the store's own words.
    InsertFailed(String),
    /// The store refused a deletion; the store's own words.
    DeleteFailed(String),
}

pub open spec fn form_error_text(e: FormError) -> Seq<char> {
    match e {
        FormError::FieldCount => "Formato: descrizione | importo | DD-MM-YYYY"@,
        FormError::BadAmount => "Importo non valido (usa 10.50)"@,
        FormError::BadDate => "Data non valida (DD-MM-YYYY)"@,
    }
}

impl StatusMessage {
    /// The line shown to the user.
    pub open spec fn describes(self) -> Seq<char> {
        match self {
            StatusMessage::Rejected(e) => form_error_text(e),
            StatusMessage::Saved => "Spesa aggiunta"@,
            StatusMessage::InsertFailed(e) => "Errore inserimento: "@ + e@,
            StatusMessage::DeleteFailed(e) => "Errore eliminazione: "@ + e@,
        }
    }

    pub fn text(&self) -> (r: String)
        ensures
            r@ == self.describes(),
            r@.len() > 0,
    {
        proof {
            reveal_strlit("Formato: descrizione | importo | DD-MM-YYYY");
            reveal_strlit("Importo non valido (usa 10.50)");
            reveal_strlit("Data non valida (DD-MM-YYYY)");
            reveal_strlit("Spesa aggiunta");
            reveal_strlit("Errore inserimento: ");
            reveal_strlit("Errore eliminazione: ");
        }
        match self {
            StatusMessage::Rejected(FormError::FieldCount) => String::from_str(
                "Formato: descrizione | importo | DD-MM-YYYY",
            ),
            StatusMessage::Rejected(FormError::BadAmount) => String::from_str(
                "Importo non valido (usa 10.50)",
            ),
            StatusMessage::Rejected(FormError::BadDate) => String::from_str(
                "Data non valida (DD-MM-YYYY)",
            ),
            StatusMessage::Saved => String::from_str("Spesa aggiunta"),
            StatusMessage::InsertFailed(e) => String::from_str("Errore inserimento: ").concat(
                e.as_str(),
            ),
            StatusMessage::DeleteFailed(e) => String::from_str("Errore eliminazione: ").concat(
                e.as_str(),
            ),
        }
    }
}

/// What the screen shows: the mode, the selection, the page and its records,
/// the creation field, the last status line and the record under detail.
pub struct AppState {
    /// Index of the selected record in the loaded page.
    pub idx: Option<usize>,
    /// The page counter, from 1.
    pub expense_page: i64,
    /// The loaded page, absent when the last fetch failed.
    pub expenses: Option<Vec<Expense>>,
    pub app_input: AppInput,
    pub app_mode: AppMode,
    pub status_message: Option<StatusMessage>,
    /// The index shown in detail; set only in `Detail` mode.
    pub detail_idx: Option<usize>,
}

impl AppState {
    pub open spec fn wf(self) -> bool {
        &&& self.expense_page >= 1
        &&& self.app_mode != AppMode::Detail ==> self.detail_idx is None
    }

    /// The state at start-up, given the outcome of fetching page 1.
    pub fn new(first_page: Option<Vec<Expense>>) -> (r: AppState)
        ensures
            r.wf(),
            r.idx == Some(0usize),
            r.expense_page == 1,
            r.expenses == first_page,
            r.app_input.text() == Seq::<char>::empty(),
            r.app_mode == AppMode::Normal,
            r.status_message is None,
            r.detail_idx is None,
    {
        AppState {
            idx: Some(0),
            expense_page: 1,
            expenses: first_page,
            app_input: AppInput::new(),
            app_mode: AppMode::Normal,
            status_message: None,
            detail_idx: None,
        }
    }

    pub fn start_editing(&mut self)
        requires
            old(self).wf(),
        ensures
            final(self).wf(),
            final(self).app_mode == AppMode::Editing,
            final(self).app_input.text() == Seq::<char>::empty(),
            final(self).detail_idx is None,
            final(self).idx == old(self).idx,
            final(self).expense_page == old(self).expense_page,
            final(self).expenses == old(self).expenses,
            final(self).status_message == old(self).status_message,
    {
        self.app_input = AppInput::new();
        self.detail_idx = None;
        self.app_mode = AppMode::Editing;
    }

    pub fn start_creating(&mut self)
        requires
            old(self).wf(),
        ensures
            final(self).wf(),
            final(self).app_mode == AppMode::Creating,
            final(self).app_input.text() == Seq::<char>::empty(),
            final(self).status_message is None,
            final(self).detail_idx is None,
            final(self).idx == old(self).idx,
            final(self).expense_page == old(self).expense_page,
            final(self).expenses == old(self).expenses,
    {
        self.app_input = AppInput::new();
        self.status_message = None;
        self.detail_idx = None;
        self.app_mode = AppMode::Creating;
    }

    /// Leaves the creation or editing form for the list, emptying the field.
    pub fn stop_editing(&mut self)
        requires
            old(self).wf(),
        ensures
            final(self).wf(),
            final(self).app_mode == AppMode::Normal,
            final(self).app_input.text() == Seq::<char>::empty(),
            final(self).detail_idx is None,
            final(self).idx == old(self).idx,
            final(self).expense_page == old(self).expense_page,
            final(self).expenses == old(self).expenses,
            final(self).status_message == old(self).status_message,
    {
        self.app_input = AppInput::new();
        self.detail_idx = None;
        self.app_mode = AppMode::Normal;
    }

    pub fn start_detail(&mut self, idx: Option<usize>)
        requires
            old(self).wf(),
        ensures
            final(self).wf(),
            *final(self) == (AppState { detail_idx: idx, app_mode: AppMode::Detail, ..*old(self) }),
    {
        self.detail_idx = idx;
        self.app_mode = AppMode::Detail;
    }

    pub fn stop_detail(&mut self)
        requires
            old(self).wf(),
        ensures
            final(self).wf(),
            *final(self) == (AppState { detail_idx: None, app_mode: AppMode::Normal, ..*old(self) }),
    {
        self.detail_idx = None;
        self.app_mode = AppMode::Normal;
    }

    /// The record under detail, if the selection points into the loaded page.
    pub open spec fn detail_record(self) -> Option<Expense> {
        match (self.detail_idx, self.expenses) {
            (Some(i), Some(v)) => if i < v.len() {
                Some(v[i as int])
            } else {
                None
            },
            _ => None,
        }
    }

    pub fn detail_expense(&self) -> (r: Option<&Expense>)
        ensures
            r is None <==> self.detail_record() is None,
            r matches Some(e) ==> self.detail_record() == Some(*e),
    {
        match (self.detail_idx, &self.expenses) {
            (Some(i), Some(v)) => if i < v.len() {
                Some(&v[i])
            } else {
                None
            },
            _ => None,
        }
    }
}

} // verus!
