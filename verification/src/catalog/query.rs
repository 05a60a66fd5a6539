//! The text of the statements that list books and authors, with the
//! filters that a request may ask for.

use vstd::prelude::*;
use vstd::string::StringExecFns;

verus! {

/// The clause that keeps the rows whose `column` contains `pattern`, or
/// nothing where no pattern is given. The pattern stands in the clause as it
/// was given.
pub open spec fn like_clause(column: Seq<char>, pattern: Option<Seq<char>>) -> Seq<char> {
    match pattern {
        Some(pattern) => " AND "@ + column + " LIKE '%"@ + pattern + "%'"@,
        None => Seq::<char>::empty(),
    }
}

/// The statement that lists books, filtered by name and by language.
pub open spec fn books_statement(name: Option<Seq<char>>, language: Option<Seq<char>>) -> Seq<
    char,
> {
    "SELECT * FROM books WHERE 1=1"@ + like_clause("name"@, name) + like_clause(
        "language"@,
        language,
    )
}

/// The statement that lists authors, filtered by name and by country.
pub open spec fn authors_statement(name: Option<Seq<char>>, country: Option<Seq<char>>) -> Seq<
    char,
> {
    "SELECT * FROM authors WHERE 1=1"@ + like_clause("name"@, name) + like_clause(
        "country"@,
        country,
    )
}

/// The view of an optional text.
pub open spec fn text_of(pattern: Option<&str>) -> Option<Seq<char>> {
    match pattern {
        Some(pattern) => Some(pattern@),
        None => None,
    }
}

/// Appends the clause for `column` and `pattern` to `statement`.
fn push_like_clause(statement: &mut String, column: &str, pattern: Option<&str>)
    ensures
        final(statement)@ == old(statement)@ + like_clause(column@, text_of(pattern)),
{
    match pattern {
        Some(pattern) => {
            let ghost before = statement@;
            statement.append(" AND ");
            statement.append(column);
            statement.append(" LIKE '%");
            statement.append(pattern);
            statement.append("%'");
            assert(statement@ =~= before + like_clause(column@, text_of(Some(pattern))));
        },
        None => {
            assert(statement@ =~= statement@ + Seq::<char>::empty());
        },
    }
}

/// Writes the statement that lists books.
pub fn list_books_statement(name: Option<&str>, language: Option<&str>) -> (statement: String)
    ensures
        statement@ == books_statement(text_of(name), text_of(language)),
{
    let mut statement = String::from_str("SELECT * FROM books WHERE 1=1");
    push_like_clause(&mut statement, "name", name);
    push_like_clause(&mut statement, "language", language);
    statement
}

/// Writes the statement that lists authors.
pub fn list_authors_statement(name: Option<&str>, country: Option<&str>) -> (statement: String)
    ensures
        statement@ == authors_statement(text_of(name), text_of(country)),
{
    let mut statement = String::from_str("SELECT * FROM authors WHERE 1=1");
    push_like_clause(&mut statement, "name", name);
    push_like_clause(&mut statement, "country", country);
    statement
}

} // verus!
