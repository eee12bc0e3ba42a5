//! What the store held.
//!
//! The store is one file that holds every entry. The caller reads it and
//! says what it found; the functions here decide what that means for a
//! registration, which may start a new book, and for a summary, which needs
//! entries to report on.

use crate::models::Entry;
use crate::models::Item;
use vstd::prelude::*;

verus! {

/// What the caller found where the store should be.
#[derive(Debug, PartialEq, Eq)]
pub enum StoreContent {
    /// The store could not be opened.
    Missing,
    /// The store was opened, and what it holds is not a list of entries.
    Malformed,
    /// The entries that the store holds, in the order in which it holds them.
    Entries(Vec<Item>),
}

/// Why the store gave no entries to work on.
#[derive(Debug, Clone, Copy, PartialEq, Eq)]
pub enum StoreError {
    /// The store could not be opened.
    CannotOpen,
    /// What the store holds is not a list of entries.
    Malformed,
    /// The store holds a list without entries.
    NoData,
}

impl StoreError {
    /// The text of [`StoreError::message`].
    pub open spec fn message_text(self) -> Seq<char> {
        match self {
            StoreError::CannotOpen => "ファイルをオープンできませんでした"@,
            StoreError::Malformed => "デシリアライズに失敗しました"@,
            StoreError::NoData => "データが存在しません"@,
        }
    }

    /// What to tell the user.
    pub fn message(&self) -> (r: &'static str)
        ensures
            r@ == self.message_text(),
    {
        match self {
            StoreError::CannotOpen => "ファイルをオープンできませんでした",
            StoreError::Malformed => "デシリアライズに失敗しました",
            StoreError::NoData => "データが存在しません",
        }
    }
}

/// What a [`StoreContent`] stands for.
pub enum Found {
    Missing,
    Malformed,
    Entries(Seq<Entry>),
}

impl View for StoreContent {
    type V = Found;

    open spec fn view(&self) -> Found {
        match *self {
            StoreContent::Missing => Found::Missing,
            StoreContent::Malformed => Found::Malformed,
            StoreContent::Entries(data) => Found::Entries(data.deep_view()),
        }
    }
}

/// The book that a registration goes on from, and whether it is a new one:
/// an empty new book where there is no store yet, the store's entries where
/// there is one.
pub open spec fn book_to_extend(found: Found) -> Result<(Seq<Entry>, bool), StoreError> {
    match found {
        Found::Missing => Ok((Seq::empty(), true)),
        Found::Malformed => Err(StoreError::Malformed),
        Found::Entries(entries) => Ok((entries, false)),
    }
}

/// The book that a summary reports on: the store's entries, where it has
/// any.
pub open spec fn book_to_report(found: Found) -> Result<Seq<Entry>, StoreError> {
    match found {
        Found::Missing => Err(StoreError::CannotOpen),
        Found::Malformed => Err(StoreError::Malformed),
        Found::Entries(entries) => if entries.len() == 0 {
            Err(StoreError::NoData)
        } else {
            Ok(entries)
        },
    }
}

/// The entries to add a registration to, with `true` where the book is new.
///
/// A store that cannot be opened starts a new, empty book. A store that
/// holds something else than entries is an error.
pub fn read_data_or_create_new_data(found: StoreContent) -> (r: Result<
    (Vec<Item>, bool),
    StoreError,
>)
    ensures
        match (r, book_to_extend(found@)) {
            (Ok((data, created)), Ok((entries, new))) => data.deep_view() == entries && created
                == new,
            (Err(e), Err(expected)) => e == expected,
            _ => false,
        },
        found matches StoreContent::Entries(held) ==> r matches Ok((data, _)) && data == held,
{
    match found {
        StoreContent::Missing => Ok((Vec::new(), true)),
        StoreContent::Malformed => Err(StoreError::Malformed),
        StoreContent::Entries(data) => Ok((data, false)),
    }
}

/// The entries to report on.
///
/// A store that cannot be opened, one that holds something else than
/// entries, and one that holds no entry are each an error of their own.
pub fn read_data_or_panic(found: StoreContent) -> (r: Result<Vec<Item>, StoreError>)
    ensures
        match (r, book_to_report(found@)) {
            (Ok(data), Ok(entries)) => data.deep_view() == entries,
            (Err(e), Err(expected)) => e == expected,
            _ => false,
        },
        found matches StoreContent::Entries(held) ==> (r matches Ok(data) ==> data == held),
{
    match found {
        StoreContent::Missing => Err(StoreError::CannotOpen),
        StoreContent::Malformed => Err(StoreError::Malformed),
        StoreContent::Entries(data) => {
            if data.len() == 0 {
                Err(StoreError::NoData)
            } else {
                Ok(data)
            }
        },
    }
}

} // verus!
