use graph_repo::entities::{Biography, Person, StorableEntity};
use graph_repo::repository::RepositoryError;
use graph_repo::schema::{QueryResult, QueryRoot};

fn ada(biography: Option<Biography>) -> Person {
    Person {
        root: StorableEntity {
            uid: "7".to_string(),
            title: "Ada".to_string(),
            permalink: "ada".to_string(),
        },
        biography,
        influences: None,
    }
}

fn ada_row(birth_date: Option<&str>, full_name: Option<&str>) -> QueryResult {
    QueryResult {
        title: "Ada".to_string(),
        uid: "7".to_string(),
        permalink: "ada".to_string(),
        birth_date: birth_date.map(|s| s.to_string()),
        full_name: full_name.map(|s| s.to_string()),
    }
}

#[test]
fn members_query_names_its_parameter() {
    assert_eq!(QueryRoot::members_query(), "MATCH (n: Person {uid: $uid}) RETURN n;");
}

#[test]
fn members_params_hold_the_uid_alone() {
    assert_eq!(
        QueryRoot::members_params("42".to_string()),
        vec![("uid".to_string(), "42".to_string())]
    );
}

#[test]
fn row_of_a_person_without_biography() {
    assert_eq!(QueryRoot::row(&ada(None)), ada_row(None, None));
}

#[test]
fn row_of_a_person_with_biography() {
    let biography = Biography {
        full_name: Some("Ada Lovelace".to_string()),
        birth_date: Some("1815-12-10".to_string()),
    };
    assert_eq!(
        QueryRoot::row(&ada(Some(biography))),
        ada_row(Some("1815-12-10"), Some("Ada Lovelace"))
    );
}

#[test]
fn row_of_a_person_with_half_a_biography() {
    let biography = Biography { full_name: None, birth_date: Some("1815-12-10".to_string()) };
    assert_eq!(QueryRoot::row(&ada(Some(biography))), ada_row(Some("1815-12-10"), None));
}

#[test]
fn members_gives_a_row_for_each_person() {
    let found = Ok(vec![ada(None), ada(Some(Biography { full_name: None, birth_date: None }))]);
    assert_eq!(QueryRoot::members(&found), Ok(vec![ada_row(None, None), ada_row(None, None)]));
}

#[test]
fn members_passes_the_error_on() {
    assert_eq!(
        QueryRoot::members(&Err(RepositoryError::ConnectionFailed)),
        Err(RepositoryError::ConnectionFailed)
    );
    assert_eq!(
        QueryRoot::members(&Err(RepositoryError::QueryFailed("bad".to_string()))),
        Err(RepositoryError::QueryFailed("bad".to_string()))
    );
    assert_eq!(
        QueryRoot::members(&Err(RepositoryError::UnexpectedValue)),
        Err(RepositoryError::UnexpectedValue)
    );
    assert_eq!(
        QueryRoot::members(&Err(RepositoryError::DecodeRejected)),
        Err(RepositoryError::DecodeRejected)
    );
}

#[test]
fn members_of_nothing_is_an_empty_list() {
    assert_eq!(QueryRoot::members(&Ok(Vec::new())), Ok(Vec::new()));
}
