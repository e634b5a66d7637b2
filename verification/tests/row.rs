use rusqlite::Connection;
use spindle_adapters::row::{int_as_bool, micros_to_timestamp, timestamp_to_micros, Timestamp};

#[test]
fn round_trip_timestamp_micros() {
    let now = Timestamp { micros: chrono::Utc::now().timestamp_micros() };
    let micros = timestamp_to_micros(now);
    let restored = micros_to_timestamp(micros).expect("micros within range");
    assert_eq!(timestamp_to_micros(restored), micros);
}

#[test]
fn helpers_read_columns() {
    let conn = Connection::open_in_memory().unwrap();
    conn.execute_batch(
        "CREATE TABLE t (
            id      TEXT,
            n       INTEGER,
            f       REAL,
            b       INTEGER,
            ts      INTEGER,
            tags    TEXT,
            maybe   TEXT
        );
        INSERT INTO t VALUES ('x', 7, 3.125, 1, 1700000000000000, '[\"a\",\"b\"]', NULL);",
    )
    .unwrap();

    let parsed = conn
        .query_row("SELECT id, n, f, b, ts, tags, maybe FROM t", [], |r| {
            Ok((
                r.get::<_, String>(0)?,
                r.get::<_, i64>(1)?,
                r.get::<_, f64>(2)?,
                int_as_bool(r.get::<_, i64>(3)?),
                micros_to_timestamp(r.get::<_, i64>(4)?),
                serde_json::from_str::<Vec<String>>(&r.get::<_, String>(5)?).unwrap(),
                r.get::<_, Option<String>>(6)?,
            ))
        })
        .unwrap();

    assert_eq!(parsed.0, "x");
    assert_eq!(parsed.1, 7);
    assert!((parsed.2 - 3.125).abs() < 1e-9);
    assert!(parsed.3);
    assert_eq!(timestamp_to_micros(parsed.4.unwrap()), 1700000000000000);
    assert_eq!(parsed.5, vec!["a".to_string(), "b".to_string()]);
    assert!(parsed.6.is_none());
}

#[test]
fn timestamps_read_back_exactly_within_chronos_range() {
    let first: i64 = -8_334_601_228_800_000_000;
    let last: i64 = 8_210_266_876_799_999_999;
    assert_eq!(micros_to_timestamp(first).unwrap(), Timestamp { micros: first });
    assert_eq!(micros_to_timestamp(last).unwrap(), Timestamp { micros: last });
    assert!(micros_to_timestamp(first - 1).is_err());
    assert!(micros_to_timestamp(last + 1).is_err());
    assert!(micros_to_timestamp(i64::MIN).is_err());
    assert!(micros_to_timestamp(i64::MAX).is_err());
}
