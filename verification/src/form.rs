//! The creation/edit form as the boundary hands it over: a title, an
//! optional note, and optional date texts.

use crate::database::{ItemTodo, ItemTodoV};
use crate::dates::{parse_date, spec_parse_date, Date};
use vstd::prelude::*;

verus! {

/// Form input for adding or editing a todo item.  Dates arrive as
/// `YYYY-MM-DD` or `YYYY/MM/DD` texts.
#[derive(Debug, Clone, PartialEq)]
pub struct FormTodo {
    pub title: String,
    pub work: Option<String>,
    pub start: Option<String>,
    pub end: Option<String>,
}

#[verifier::ext_equal]
pub ghost struct FormTodoV {
    pub title: Seq<char>,
    pub work: Option<Seq<char>>,
    pub start: Option<Seq<char>>,
    pub end: Option<Seq<char>>,
}

impl View for FormTodo {
    type V = FormTodoV;

    open spec fn view(&self) -> FormTodoV {
        FormTodoV {
            title: self.title@,
            work: self.work.deep_view(),
            start: self.start.deep_view(),
            end: self.end.deep_view(),
        }
    }
}

/// Whether a given date text fails to parse.
pub open spec fn form_date_bad(t: Option<Seq<char>>) -> bool {
    t matches Some(s) && spec_parse_date(s) is None
}

/// The parsed date of a given text, absent when no text was given.
pub open spec fn form_date_of(t: Option<Seq<char>>) -> Option<Date> {
    match t {
        Some(s) => spec_parse_date(s),
        None => None,
    }
}

/// The item a form turns into: both date texts must parse where given;
/// the id, owner, update date and done flag are left for the service to
/// assign.
pub open spec fn spec_form_item(f: FormTodoV) -> Option<ItemTodoV> {
    if form_date_bad(f.start) || form_date_bad(f.end) {
        None
    } else {
        Some(
            ItemTodoV {
                id: 0,
                user_name: Seq::empty(),
                title: f.title,
                work: f.work,
                update_date: None,
                start_date: form_date_of(f.start),
                end_date: form_date_of(f.end),
                done: false,
            },
        )
    }
}

impl FormTodo {
    /// Turn the form into an item, parsing its date texts; `None` when a
    /// given date text is not a calendar date.
    pub fn into_item_todo(self) -> (r: Option<ItemTodo>)
        ensures
            match r {
                Some(item) => spec_form_item(self@) == Some(item@),
                None => spec_form_item(self@) is None,
            },
    {
        let ghost fv = self@;
        let start_date = match &self.start {
            Some(t) => {
                match parse_date(t.as_str()) {
                    Some(d) => Some(d),
                    None => {
                        return None;
                    },
                }
            },
            None => None,
        };
        let end_date = match &self.end {
            Some(t) => {
                match parse_date(t.as_str()) {
                    Some(d) => Some(d),
                    None => {
                        return None;
                    },
                }
            },
            None => None,
        };
        let item = ItemTodo {
            id: 0,
            user_name: String::new(),
            title: self.title,
            work: self.work,
            update_date: None,
            start_date,
            end_date,
            done: false,
        };
        proof {
            assert(Some(item@) =~= spec_form_item(fv));
        }
        Some(item)
    }
}

} // verus!
