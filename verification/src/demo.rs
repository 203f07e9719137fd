//! A small world of records to try the store on: people and what they wrote.

use crate::assocs::{Assoc, AssocTypeID};
use crate::entities::{Ent, EntityTypeID, TypeId};
use vstd::prelude::*;
use vstd::string::StringExecFns;

verus! {

/// A book.
#[derive(Debug)]
pub struct Book {
    /// What the book is called.
    pub title: String,
    /// What the book is about.
    pub description: String,
}

/// A play.
#[derive(Debug)]
pub struct Play {
    /// What the play is called.
    pub title: String,
    /// What the play is about.
    pub description: String,
}

/// A comment.
#[derive(Debug)]
pub struct Comment {
    /// What the comment says.
    pub text: String,
}

/// A person.
#[derive(Debug)]
pub struct Person {
    /// What the person is called.
    pub name: String,
}

impl EntityTypeID for Person {
    const TYPE_ID: TypeId = 10;
}

impl EntityTypeID for Book {
    const TYPE_ID: TypeId = 11;
}

impl EntityTypeID for Play {
    const TYPE_ID: TypeId = 12;
}

impl EntityTypeID for Comment {
    const TYPE_ID: TypeId = 13;
}

impl Person {
    /// A person called `name`.
    pub fn new(name: &str) -> (p: Self)
        ensures
            p.name@ == name@,
    {
        Person { name: String::from_str(name) }
    }
}

impl Comment {
    /// A comment that says `s`.
    pub fn new(s: &str) -> (c: Self)
        ensures
            c.text@ == s@,
    {
        Comment { text: String::from_str(s) }
    }
}

impl Book {
    /// A book called `title`, about `description`.
    pub fn new(title: &str, description: &str) -> (b: Self)
        ensures
            b.title@ == title@,
            b.description@ == description@,
    {
        Book { title: String::from_str(title), description: String::from_str(description) }
    }
}

impl Play {
    /// A play called `title`, about `description`.
    pub fn new(title: &str, description: &str) -> (p: Self)
        ensures
            p.title@ == title@,
            p.description@ == description@,
    {
        Play { title: String::from_str(title), description: String::from_str(description) }
    }
}

/// The kind of association from an author to a work.
#[derive(Debug)]
pub struct Authored;

/// The kind of association from a work to its author: [`Authored`] the other
/// way round.
#[derive(Debug)]
pub struct AuthoredBy;

impl AssocTypeID for Authored {
    const TYPE_ID: u64 = 1;
}

impl AssocTypeID for AuthoredBy {
    const TYPE_ID: u64 = 2;
}

/// Both directions of authorship, from a saved record of kind `F`. Never one
/// without the other.
pub trait AuthoredAssoc<F: EntityTypeID> {
    /// An association that says that this record wrote `what`.
    fn authored<'a, T: EntityTypeID>(&'a self, what: &'a Ent<T>) -> Assoc<'a, 'a, F, Authored, T>;

    /// An association that says that this record was written by `what`.
    fn authored_by<'a, T: EntityTypeID>(&'a self, what: &'a Ent<T>) -> Assoc<
        'a,
        'a,
        F,
        AuthoredBy,
        T,
    >;
}

impl<F: EntityTypeID> AuthoredAssoc<F> for Ent<F> {
    fn authored<'a, T: EntityTypeID>(&'a self, what: &'a Ent<T>) -> (a: Assoc<
        'a,
        'a,
        F,
        Authored,
        T,
    >)
        ensures
            a.origin() == *self,
            a.target() == *what,
    {
        Assoc::new(self, what)
    }

    fn authored_by<'a, T: EntityTypeID>(&'a self, what: &'a Ent<T>) -> (a: Assoc<
        'a,
        'a,
        F,
        AuthoredBy,
        T,
    >)
        ensures
            a.origin() == *self,
            a.target() == *what,
    {
        Assoc::new(self, what)
    }
}

} // verus!
