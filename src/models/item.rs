use vstd::prelude::*;

use crate::models::list::{check_text, text_violations};
use crate::validation::{ValidationErrors, Violation};

verus! {

pub const LIST_ID_MESSAGE: &'static str = "Invalid list ID";

/// The violated rules of an item's fields, in field order.
pub open spec fn item_violations(list_id: i64, t: Seq<char>, d: Seq<char>) -> Seq<Violation> {
    (if list_id >= 1 {
        Seq::<Violation>::empty()
    } else {
        seq![("list_id"@, "range"@, LIST_ID_MESSAGE@)]
    }) + text_violations(t, d)
}

/// An item of a list.
#[derive(Debug, Clone)]
pub struct Item {
    /// The item's unique ID; 0 until it is stored.
    pub id: i64,
    /// The id of the list this item belongs to.
    pub list_id: i64,
    /// The title of the item.
    pub title: String,
    /// A description of the item.
    pub description: String,
}

impl Item {
    /// The rules of an item that `validate` reports as violated.
    pub open spec fn violations(&self) -> Seq<Violation> {
        item_violations(self.list_id, self.title@, self.description@)
    }

    /// An item whose fields obey every rule.
    pub open spec fn is_valid(&self) -> bool {
        self.violations().len() == 0
    }

    /// Creates a new item without saving it to the database.
    pub fn new(list_id: i64, title: String, description: String) -> (r: Item)
        ensures
            r.id == 0,
            r.list_id == list_id,
            r.title == title,
            r.description == description,
    {
        Item { id: 0, list_id, title, description }
    }

    /// Checks every rule of the item and returns all violations together.
    pub fn validate(&self) -> (r: Result<(), ValidationErrors>)
        ensures
            r is Ok <==> self.is_valid(),
            r matches Err(e) ==> e@ == self.violations(),
    {
        let mut errs = ValidationErrors::new();
        if self.list_id < 1 {
            errs.add("list_id", "range", LIST_ID_MESSAGE);
        }
        check_text(self.title.as_str(), self.description.as_str(), &mut errs);
        assert(errs@ =~= self.violations());
        if errs.is_empty() {
            Ok(())
        } else {
            Err(errs)
        }
    }

    /// A field-for-field copy.
    pub fn duplicate(&self) -> (r: Item)
        ensures
            r == *self,
    {
        Item {
            id: self.id,
            list_id: self.list_id,
            title: self.title.clone(),
            description: self.description.clone(),
        }
    }
}

impl Default for Item {
    /// An unsaved item of no list, with empty fields.
    fn default() -> (r: Item)
        ensures
            r.id == 0,
            r.list_id == 0,
            r.title@.len() == 0,
            r.description@.len() == 0,
    {
        Item::new(0, String::new(), String::new())
    }
}

} // verus!
