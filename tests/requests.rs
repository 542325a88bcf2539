use charybdis::engine::{first_row_outcome, page_outcome};
use charybdis::errors::{DecodeFault, Misuse, QueryError, TransportFault};
use charybdis::request::{count_markers, BoundQuery, Consistency, ExecutionConfig};

#[test]
fn markers_are_counted() {
    assert_eq!(count_markers("SELECT * FROM t WHERE a = ? AND b = ?"), 2);
    assert_eq!(count_markers(""), 0);
    assert_eq!(count_markers("?"), 1);
}

#[test]
fn request_keeps_text_values_and_defaults() {
    let q = BoundQuery::new("SELECT * FROM users WHERE id = ?", vec![7u32]).unwrap();
    assert_eq!(q.statement(), "SELECT * FROM users WHERE id = ?");
    assert_eq!(q.values(), &vec![7u32]);
    assert_eq!(q.config(), &ExecutionConfig { page_size: None, paging_state: None, consistency: None, tracing: None });
}

#[test]
fn wrong_arity_is_misuse() {
    let r = BoundQuery::new("SELECT * FROM users WHERE id = ? AND ts = ?", vec![1u8]);
    assert_eq!(r.err(), Some(QueryError::Misuse(Misuse::WrongArity { expected: 2, given: 1 })));
}

#[test]
fn settings_are_attached() {
    let q = BoundQuery::new("DELETE FROM t WHERE k = ?", vec![1i64])
        .unwrap()
        .with_page_size(100)
        .with_paging_state(vec![1, 2, 3])
        .with_consistency(Consistency::Quorum)
        .with_tracing(true);
    assert_eq!(
        q.config(),
        &ExecutionConfig {
            page_size: Some(100),
            paging_state: Some(vec![1, 2, 3]),
            consistency: Some(Consistency::Quorum),
            tracing: Some(true),
        }
    );
    let (text, values, config) = q.into_parts();
    assert_eq!(text, "DELETE FROM t WHERE k = ?");
    assert_eq!(values, vec![1i64]);
    assert_eq!(config.page_size, Some(100));
}

#[test]
fn missing_row_is_not_found() {
    let r: Result<u32, QueryError> = first_row_outcome(Ok(None));
    assert_eq!(r, Err(QueryError::NotFound));
}

#[test]
fn first_row_outcomes() {
    assert_eq!(first_row_outcome(Ok(Some(Ok(5u32)))), Ok(5));
    let d = DecodeFault { message: "bad column".to_string() };
    assert_eq!(first_row_outcome::<u32>(Ok(Some(Err(d.clone())))), Err(QueryError::Decode(d)));
    let t = TransportFault { message: "timeout".to_string() };
    assert_eq!(first_row_outcome::<u32>(Err(t.clone())), Err(QueryError::Transport(t)));
}

#[test]
fn page_outcome_keeps_rows_and_token() {
    let (mut it, token) = page_outcome(Ok((vec![1, 2, 3], Some(vec![9u8])))).unwrap();
    assert_eq!(token, Some(vec![9u8]));
    assert_eq!(it.remaining(), 3);
    assert_eq!(it.next_row(), Some(1));
    assert_eq!(it.next_row(), Some(2));
    assert_eq!(it.next_row(), Some(3));
    assert_eq!(it.next_row(), None);
    let t = TransportFault { message: "down".to_string() };
    assert_eq!(page_outcome::<u8>(Err(t.clone())).err(), Some(QueryError::Transport(t)));
}

#[derive(Debug, PartialEq, Clone)]
struct User {
    id: i64,
    name: String,
}

#[derive(Debug, PartialEq, Clone)]
enum Cell {
    Int(i64),
    Text(String),
}

fn decode_user(row: &[Cell]) -> Result<User, DecodeFault> {
    match row {
        [Cell::Int(id), Cell::Text(name)] => Ok(User { id: *id, name: name.clone() }),
        _ => Err(DecodeFault { message: "shape".to_string() }),
    }
}

#[test]
fn bound_values_echoed_back_decode_to_the_same_entity() {
    let user = User { id: 42, name: "ann".to_string() };
    let q = BoundQuery::new("INSERT INTO users (id, name) VALUES (?, ?)", vec![
        Cell::Int(user.id),
        Cell::Text(user.name.clone()),
    ])
    .unwrap();
    let (_, values, _) = q.into_parts();
    // the collaborator answers with the bound values as its one row
    let echoed: Vec<Vec<Cell>> = vec![values];
    let decoded = first_row_outcome(Ok(echoed.first().map(|row| decode_user(row))));
    assert_eq!(decoded, Ok(user));
}
