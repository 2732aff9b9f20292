use vstd::prelude::*;

use crate::util::{is_token, random_key};
use crate::validation::{length_within, ValidationErrors, Violation};

verus! {

pub const TITLE_MIN_LEN: u64 = 2;
pub const TITLE_MAX_LEN: u64 = 256;
pub const DESCRIPTION_MAX_LEN: u64 = 4096;

pub const TITLE_MESSAGE: &'static str = "Title must be between 2 and 256 characters";
pub const DESCRIPTION_MESSAGE: &'static str = "Description must be less than 4096 characters";

/// A title has between 2 and 256 chars.
pub open spec fn title_ok(t: Seq<char>) -> bool {
    TITLE_MIN_LEN <= t.len() <= TITLE_MAX_LEN
}

/// A description has at most 4096 chars.
pub open spec fn description_ok(d: Seq<char>) -> bool {
    d.len() <= DESCRIPTION_MAX_LEN
}

/// The violated rules of a title and a description, in that order.
pub open spec fn text_violations(t: Seq<char>, d: Seq<char>) -> Seq<Violation> {
    (if title_ok(t) {
        Seq::<Violation>::empty()
    } else {
        seq![("title"@, "length"@, TITLE_MESSAGE@)]
    }) + (if description_ok(d) {
        Seq::<Violation>::empty()
    } else {
        seq![("description"@, "length"@, DESCRIPTION_MESSAGE@)]
    })
}

/// Checks a title and a description, recording each violated rule in `errs`.
pub fn check_text(title: &str, description: &str, errs: &mut ValidationErrors)
    ensures
        final(errs)@ == old(errs)@ + text_violations(title@, description@),
{
    if !length_within(title, Some(TITLE_MIN_LEN), Some(TITLE_MAX_LEN)) {
        errs.add("title", "length", TITLE_MESSAGE);
    }
    if !length_within(description, None, Some(DESCRIPTION_MAX_LEN)) {
        errs.add("description", "length", DESCRIPTION_MESSAGE);
    }
    assert(final(errs)@ =~= old(errs)@ + text_violations(title@, description@));
}

/// A list of items.
#[derive(Debug, Clone)]
pub struct List {
    /// The list's unique ID; 0 until it is stored.
    pub id: i64,
    /// The list's url key: unguessable, unique, never changed once stored.
    pub key: String,
    /// Whether the list is private: left out of the public listing and
    /// reachable only by its key.
    pub is_private: bool,
    /// The title of the list.
    pub title: String,
    /// A description of the list.
    pub description: String,
}

impl List {
    /// The rules of a list that `validate` reports as violated.
    pub open spec fn violations(&self) -> Seq<Violation> {
        text_violations(self.title@, self.description@)
    }

    /// A list whose fields obey every rule.
    pub open spec fn is_valid(&self) -> bool {
        self.violations().len() == 0
    }

    /// Creates a new list without saving it to the database; its key is drawn
    /// at random.
    pub fn new(is_private: bool, title: String, description: String) -> (r: List)
        ensures
            r.id == 0,
            is_token(r.key@),
            r.is_private == is_private,
            r.title == title,
            r.description == description,
    {
        List { id: 0, key: random_key(), is_private, title, description }
    }

    /// Checks every rule of the list and returns all violations together.
    pub fn validate(&self) -> (r: Result<(), ValidationErrors>)
        ensures
            r is Ok <==> self.is_valid(),
            r matches Err(e) ==> e@ == self.violations(),
    {
        let mut errs = ValidationErrors::new();
        check_text(self.title.as_str(), self.description.as_str(), &mut errs);
        assert(errs@ =~= self.violations());
        if errs.is_empty() {
            Ok(())
        } else {
            Err(errs)
        }
    }

    /// A field-for-field copy.
    pub fn duplicate(&self) -> (r: List)
        ensures
            r == *self,
    {
        List {
            id: self.id,
            key: self.key.clone(),
            is_private: self.is_private,
            title: self.title.clone(),
            description: self.description.clone(),
        }
    }
}

impl Default for List {
    /// An unsaved private list with empty fields and a fresh random key.
    fn default() -> (r: List)
        ensures
            r.id == 0,
            is_token(r.key@),
            r.is_private,
            r.title@.len() == 0,
            r.description@.len() == 0,
    {
        List::new(true, String::new(), String::new())
    }
}

} // verus!
