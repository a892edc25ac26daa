use game_session::status::{describe_error, push_decimal};
use game_session::{Cell, GameData, GameSnapshot, Identity, SessionError, Winner};

fn data(field: Vec<Vec<i8>>, winner: &str, turn: &str) -> GameData {
    GameData { field, winner: winner.to_string(), turn: turn.to_string() }
}

/// Builds the service's data from its JSON text, field by field.
fn from_json(text: &str) -> GameData {
    let v: serde_json::Value = serde_json::from_str(text).unwrap();
    let field = v["field"]
        .as_array()
        .unwrap()
        .iter()
        .map(|row| row.as_array().unwrap().iter().map(|x| x.as_i64().unwrap() as i8).collect())
        .collect();
    GameData {
        field,
        winner: v["winner"].as_str().unwrap().to_string(),
        turn: v["turn"].as_str().unwrap().to_string(),
    }
}

#[test]
fn decode_sample_state() {
    let d = from_json(r#"{"field":[[1,-1,0],[0,1,0],[0,0,-1]],"winner":"FIRST","turn":"SECOND"}"#);
    let s = d.decode().unwrap();
    assert_eq!(s.winner, Winner::First);
    assert_eq!(s.turn, Identity::Second);
    assert_eq!(s.cell(0, 0), Cell::First);
    assert_eq!(s.cell(0, 1), Cell::Second);
    assert_eq!(s.cell(0, 2), Cell::Empty);
    assert_eq!(s.cell(1, 1), Cell::First);
    assert_eq!(s.cell(2, 2), Cell::Second);
    assert_eq!(s.cell(2, 0), Cell::Empty);
}

#[test]
fn new_data_decodes_to_initial_state() {
    let s = GameData::new().decode().unwrap();
    let i = GameSnapshot::initial();
    assert_eq!(s.board, i.board);
    assert_eq!(s.turn, Identity::First);
    assert_eq!(s.winner, Winner::Nobody);
    for r in 0..3 {
        for c in 0..3 {
            assert_eq!(s.cell(r, c), Cell::Empty);
        }
    }
}

#[test]
fn decode_each_winner_name() {
    let z = || vec![vec![0, 0, 0], vec![0, 0, 0], vec![0, 0, 0]];
    assert_eq!(data(z(), "NONE", "FIRST").decode().unwrap().winner, Winner::Nobody);
    assert_eq!(data(z(), "SECOND", "FIRST").decode().unwrap().winner, Winner::Second);
    assert_eq!(data(z(), "DRAW", "FIRST").decode().unwrap().winner, Winner::Draw);
    assert_eq!(data(z(), "NONE", "FIRST").decode().unwrap().turn, Identity::First);
}

#[test]
fn decode_rejects_bad_cell_value() {
    let d = data(vec![vec![0, 0, 0], vec![0, 2, 0], vec![0, 0, 0]], "NONE", "FIRST");
    assert!(matches!(d.decode(), Err(SessionError::Decode)));
}

#[test]
fn decode_rejects_wrong_shape() {
    let short_row = data(vec![vec![0, 0, 0], vec![0, 0], vec![0, 0, 0]], "NONE", "FIRST");
    assert!(matches!(short_row.decode(), Err(SessionError::Decode)));
    let two_rows = data(vec![vec![0, 0, 0], vec![0, 0, 0]], "NONE", "FIRST");
    assert!(matches!(two_rows.decode(), Err(SessionError::Decode)));
    let four_cols = data(vec![vec![0, 0, 0, 0], vec![0, 0, 0], vec![0, 0, 0]], "NONE", "FIRST");
    assert!(matches!(four_cols.decode(), Err(SessionError::Decode)));
}

#[test]
fn decode_rejects_unknown_names() {
    let z = || vec![vec![0, 0, 0], vec![0, 0, 0], vec![0, 0, 0]];
    assert!(matches!(data(z(), "NONE", "THIRD").decode(), Err(SessionError::Decode)));
    assert!(matches!(data(z(), "NONE", "DRAW").decode(), Err(SessionError::Decode)));
    assert!(matches!(data(z(), "first", "FIRST").decode(), Err(SessionError::Decode)));
    assert!(matches!(data(z(), "", "FIRST").decode(), Err(SessionError::Decode)));
}

#[test]
fn markers_of_identities() {
    assert_eq!(Identity::First.marker(), 1);
    assert_eq!(Identity::Second.marker(), -1);
}

#[test]
fn decimal_text() {
    for (n, t) in [(0u16, "x0"), (7, "x7"), (10, "x10"), (404, "x404"), (65535, "x65535")] {
        let mut s = "x".to_string();
        push_decimal(&mut s, n);
        assert_eq!(s, t);
    }
}

#[test]
fn error_texts() {
    assert_eq!(describe_error(SessionError::Status(500)), "Code : 500");
    assert_eq!(describe_error(SessionError::Transport), "Connection failed");
    assert_eq!(describe_error(SessionError::Decode), "Malformed response");
}
