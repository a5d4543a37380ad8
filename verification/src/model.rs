//! Entry record types: the candidate entry a caller submits, the persisted
//! row with its assigned id, and the single storage error kind.

use vstd::prelude::*;

use crate::location::Location;

verus! {

/// Mathematical model of a candidate entry: the caller-supplied fields,
/// with no id.
pub ghost struct CandidateModel {
    pub user_name: Seq<char>,
    pub minutes: int,
    pub location: int,
}

/// Mathematical model of a persisted row: the candidate fields plus the
/// store-assigned id.
pub ghost struct EntryModel {
    pub id: int,
    pub user_name: Seq<char>,
    pub minutes: int,
    pub location: int,
}

/// A candidate entry, as submitted for creation or update. It carries no id:
/// the store assigns one on creation. The duration is a plain count of
/// elapsed minutes.
#[derive(Debug)]
pub struct Entry {
    pub user_name: String,
    pub minutes: i32,
    pub location: i32,
}

/// A persisted row: a candidate entry materialized with its assigned id.
#[derive(Debug)]
pub struct Entries {
    pub id: i32,
    pub user_name: String,
    pub minutes: i32,
    pub location: i32,
}

/// The single error kind for storage failures. Absence of a row is never an
/// error: it is an empty result or a zero count.
#[derive(Debug, Clone, Copy, PartialEq, Eq, Structural)]
pub struct StorageError;

impl View for Entry {
    type V = CandidateModel;

    open spec fn view(&self) -> CandidateModel {
        CandidateModel {
            user_name: self.user_name@,
            minutes: self.minutes as int,
            location: self.location as int,
        }
    }
}

impl View for Entries {
    type V = EntryModel;

    open spec fn view(&self) -> EntryModel {
        EntryModel {
            id: self.id as int,
            user_name: self.user_name@,
            minutes: self.minutes as int,
            location: self.location as int,
        }
    }
}

/// The row a candidate materializes to under a given id.
pub open spec fn materialized(id: int, c: CandidateModel) -> EntryModel {
    EntryModel { id: id, user_name: c.user_name, minutes: c.minutes, location: c.location }
}

impl PartialEq for Entry {
    /// Two candidate entries are equal exactly when all their fields are:
    /// equality of candidates is by content, since they carry no id.
    fn eq(&self, other: &Entry) -> (r: bool) {
        self.user_name == other.user_name && self.minutes == other.minutes
            && self.location == other.location
    }
}

impl vstd::std_specs::cmp::PartialEqSpecImpl for Entry {
    open spec fn obeys_eq_spec() -> bool {
        true
    }

    open spec fn eq_spec(&self, other: &Entry) -> bool {
        self@ == other@
    }
}

impl Entry {
    /// Rebuilds a candidate entry field by field, unchanged.
    pub(crate) fn from(entry: Entry) -> (r: Entry)
        ensures
            r@ == entry@,
    {
        Entry {
            user_name: entry.user_name,
            minutes: entry.minutes,
            location: entry.location,
        }
    }

}

impl Entries {
    /// One hard-coded illustrative row, served without touching storage:
    /// four hours and thirty-four minutes spent in Long Hall.
    pub fn example() -> (r: Entries)
        ensures
            r@ == (EntryModel {
                id: 0,
                user_name: "JohnFortnite"@,
                minutes: 274,
                location: Location::LongHall.code_spec(),
            }),
    {
        Entries {
            id: 0,
            user_name: "JohnFortnite".to_owned(),
            location: Location::LongHall.code(),
            minutes: 274,
        }
    }

    /// A copy of this row, equal to it field by field.
    pub fn duplicate(&self) -> (r: Entries)
        ensures
            r@ == self@,
    {
        Entries {
            id: self.id,
            user_name: self.user_name.clone(),
            minutes: self.minutes,
            location: self.location,
        }
    }
}

impl Default for Entries {
    /// The empty row: id zero, empty name, zero minutes, location code zero.
    fn default() -> (r: Entries)
        ensures
            r@ == (EntryModel {
                id: 0,
                user_name: Seq::<char>::empty(),
                minutes: 0,
                location: 0,
            }),
    {
        Entries { id: 0, user_name: String::new(), minutes: 0, location: 0 }
    }
}

} // verus!
