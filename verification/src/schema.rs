//! The query that looks persons up by `uid`, and the flat rows it answers
//! with.

use vstd::prelude::*;
use crate::entities::{text_of, Person, PersonModel};
use crate::repository::{PersonRepository, RepositoryError};

verus! {

/// The root of the queries that can be asked.
#[derive(Debug, PartialEq, Eq)]
pub struct QueryRoot;

/// What a query runs with.
#[derive(Debug, PartialEq, Eq)]
pub struct PersonContext {
    pub repo: PersonRepository,
}

/// One person, as a row without nesting.
#[derive(Clone, Debug, PartialEq, Eq)]
pub struct QueryResult {
    pub title: String,
    pub uid: String,
    pub permalink: String,
    pub birth_date: Option<String>,
    pub full_name: Option<String>,
}

/// What a `QueryResult` stands for.
pub struct RowModel {
    pub title: Seq<char>,
    pub uid: Seq<char>,
    pub permalink: Seq<char>,
    pub birth_date: Option<Seq<char>>,
    pub full_name: Option<Seq<char>>,
}

impl View for QueryResult {
    type V = RowModel;

    open spec fn view(&self) -> RowModel {
        RowModel {
            title: self.title@,
            uid: self.uid@,
            permalink: self.permalink@,
            birth_date: text_of(self.birth_date),
            full_name: text_of(self.full_name),
        }
    }
}

/// The row of a person: its three fields, and the two of its biography
/// where it has one.
pub open spec fn row_of(p: PersonModel) -> RowModel {
    RowModel {
        title: p.root.title,
        uid: p.root.uid,
        permalink: p.root.permalink,
        birth_date: match p.biography {
            Some(b) => b.birth_date,
            None => None,
        },
        full_name: match p.biography {
            Some(b) => b.full_name,
            None => None,
        },
    }
}

/// `rows` holds the row of each of `persons`, in order.
pub open spec fn rows_of(persons: Seq<Person>, rows: Seq<QueryResult>) -> bool {
    &&& rows.len() == persons.len()
    &&& forall|i: int| 0 <= i < persons.len() ==> (#[trigger] rows[i])@ == row_of(persons[i]@)
}

fn copy_text(s: &Option<String>) -> (r: Option<String>)
    ensures
        text_of(r) == text_of(*s),
{
    match s {
        Some(t) => Some(t.clone()),
        None => None,
    }
}

impl QueryRoot {
    /// The text of the query for the persons with one `uid`. The `uid`
    /// itself is no part of the text: it goes beside it, as the parameter
    /// `uid`.
    pub fn members_query() -> (r: &'static str)
        ensures
            r@ == "MATCH (n: Person {uid: $uid}) RETURN n;"@,
    {
        "MATCH (n: Person {uid: $uid}) RETURN n;"
    }

    /// The parameters of that query: `uid` alone.
    pub fn members_params(uid: String) -> (r: Vec<(String, String)>)
        ensures
            r@.len() == 1,
            r@[0].0@ == "uid"@,
            r@[0].1 == uid,
    {
        let mut params: Vec<(String, String)> = Vec::new();
        params.push(("uid".to_owned(), uid));
        params
    }

    /// The row of one person.
    pub fn row(person: &Person) -> (r: QueryResult)
        ensures
            r@ == row_of(person@),
    {
        let (birth_date, full_name) = match &person.biography {
            Some(b) => (copy_text(&b.birth_date), copy_text(&b.full_name)),
            None => (None, None),
        };
        QueryResult {
            title: person.root.title.clone(),
            uid: person.root.uid.clone(),
            permalink: person.root.permalink.clone(),
            birth_date,
            full_name,
        }
    }

    /// The answer to the query: a row for each person that was found, in
    /// order, or the error that the query ended with.
    pub fn members(outcome: &Result<Vec<Person>, RepositoryError>) -> (r: Result<
        Vec<QueryResult>,
        RepositoryError,
    >)
        ensures
            match *outcome {
                Ok(persons) => r matches Ok(rows) && rows_of(persons@, rows@),
                Err(e) => r matches Err(f) && f == e,
            },
    {
        match outcome {
            Ok(persons) => {
                let mut rows: Vec<QueryResult> = Vec::new();
                let mut i: usize = 0;
                while i < persons.len()
                    invariant
                        i <= persons@.len(),
                        rows_of(persons@.subrange(0, i as int), rows@),
                    decreases persons@.len() - i,
                {
                    rows.push(Self::row(&persons[i]));
                    i = i + 1;
                }
                assert(persons@.subrange(0, i as int) =~= persons@);
                Ok(rows)
            },
            Err(e) => Err(copy_error(e)),
        }
    }
}

fn copy_error(e: &RepositoryError) -> (r: RepositoryError)
    ensures
        r == *e,
{
    match e {
        RepositoryError::ConnectionFailed => RepositoryError::ConnectionFailed,
        RepositoryError::QueryFailed(message) => RepositoryError::QueryFailed(message.clone()),
        RepositoryError::UnexpectedValue => RepositoryError::UnexpectedValue,
        RepositoryError::DecodeRejected => RepositoryError::DecodeRejected,
    }
}

} // verus!
