//! Books and authors, and the requests that create or change them.
//! Identifiers are the 128-bit values of the UUIDs used on the wire.

use vstd::prelude::*;

verus! {

#[derive(Clone, Debug, PartialEq, Eq)]
pub struct Book {
    pub id: u128,
    pub name: String,
    pub description: String,
    pub language: String,
}

#[derive(Clone, Debug, PartialEq, Eq)]
pub struct Category {
    pub id: u128,
    pub name: String,
}

/// The link from a book to its author.
#[derive(Copy, Clone, Debug, PartialEq, Eq, Structural)]
pub struct BookAuthor {
    pub book_id: u128,
    pub author_id: u128,
}

/// The link from a book to a category.
#[derive(Copy, Clone, Debug, PartialEq, Eq, Structural)]
pub struct BookCategory {
    pub book_id: u128,
    pub genre_id: u128,
}

#[derive(Clone, Debug, PartialEq, Eq)]
pub struct CreateBookRequest {
    pub name: String,
    pub description: String,
    pub language: String,
    pub author_id: u128,
}

#[derive(Clone, Debug, PartialEq, Eq)]
pub struct UpdateBookRequest {
    pub name: String,
    pub description: String,
    pub language: String,
    pub author_id: u128,
}

#[derive(Clone, Debug, PartialEq, Eq)]
pub struct Author {
    pub id: u128,
    pub name: String,
    pub description: String,
    pub country: String,
}

#[derive(Clone, Debug, PartialEq, Eq)]
pub struct CreateAuthorRequest {
    pub name: String,
    pub description: String,
    pub country: String,
}

#[derive(Clone, Debug, PartialEq, Eq)]
pub struct UpdateAuthorRequest {
    pub name: String,
    pub description: String,
    pub country: String,
}

impl CreateBookRequest {
    /// The book that the request describes, under `id`, and the link to its
    /// author.
    pub fn into_book(self, id: u128) -> (made: (Book, BookAuthor))
        ensures
            made.0.id == id,
            made.0.name@ == self.name@,
            made.0.description@ == self.description@,
            made.0.language@ == self.language@,
            made.1 == (BookAuthor { book_id: id, author_id: self.author_id }),
    {
        let link = BookAuthor { book_id: id, author_id: self.author_id };
        (
            Book { id, name: self.name, description: self.description, language: self.language },
            link,
        )
    }
}

impl UpdateBookRequest {
    /// The book `id` as the request wants it, and the link to its author.
    pub fn into_book(self, id: u128) -> (made: (Book, BookAuthor))
        ensures
            made.0.id == id,
            made.0.name@ == self.name@,
            made.0.description@ == self.description@,
            made.0.language@ == self.language@,
            made.1 == (BookAuthor { book_id: id, author_id: self.author_id }),
    {
        let link = BookAuthor { book_id: id, author_id: self.author_id };
        (
            Book { id, name: self.name, description: self.description, language: self.language },
            link,
        )
    }
}

impl CreateAuthorRequest {
    /// The author that the request describes, under `id`.
    pub fn into_author(self, id: u128) -> (author: Author)
        ensures
            author.id == id,
            author.name@ == self.name@,
            author.description@ == self.description@,
            author.country@ == self.country@,
    {
        Author { id, name: self.name, description: self.description, country: self.country }
    }
}

impl UpdateAuthorRequest {
    /// The author `id` as the request wants it.
    pub fn into_author(self, id: u128) -> (author: Author)
        ensures
            author.id == id,
            author.name@ == self.name@,
            author.description@ == self.description@,
            author.country@ == self.country@,
    {
        Author { id, name: self.name, description: self.description, country: self.country }
    }
}

} // verus!
