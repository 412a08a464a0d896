use env_edit::env_reader::enum_step;
use env_edit::env_reader::initial_cursor;
use env_edit::env_reader::query_size_step;
use env_edit::env_reader::Attempt;
use env_edit::env_reader::EnumEvent;
use env_edit::env_reader::EnumStep;
use env_edit::env_reader::QueryEvent;
use env_edit::env_reader::QueryStep;
use env_edit::env_reader::REG_SZ_RAW;
use env_edit::env_writer::settle_write;
use env_edit::env_writer::value_data_bytes;
use env_edit::errors::EnvError;
use env_edit::win_elevation::elevation_of_token;
use env_edit::win_elevation::relaunch_verdict;
use env_edit::win_elevation::RelaunchEvent;
use env_edit::win_elevation::RelaunchVerdict;
use env_edit::win_elevation::TokenQuery;
use env_edit::win_strings::to_wide_null;

#[test]
fn empty_enumeration_finishes_without_error() {
    let cursor = initial_cursor();
    assert_eq!(cursor.index, 0);
    assert!(matches!(cursor.attempt, Attempt::First));
    let step = enum_step(cursor, EnumEvent::NoMoreItems);
    assert!(matches!(step, EnumStep::Finished));
}

#[test]
fn too_small_buffers_earn_one_exact_retry() {
    let cursor = initial_cursor();
    let step = enum_step(
        cursor,
        EnumEvent::BufferTooSmall { name_len: 300, data_len: 4096, code: 234 },
    );
    match step {
        EnumStep::Again { next, name_capacity, data_capacity } => {
            assert_eq!(next.index, 0);
            assert!(matches!(next.attempt, Attempt::Retry));
            assert_eq!(name_capacity, 300);
            assert_eq!(data_capacity, 4096);
        }
        _ => panic!("expected a retry"),
    }
}

#[test]
fn failed_retry_is_a_size_negotiation_failure() {
    let mut cursor = initial_cursor();
    cursor.attempt = Attempt::Retry;
    let step = enum_step(
        cursor,
        EnumEvent::BufferTooSmall { name_len: 300, data_len: 4096, code: 234 },
    );
    match step {
        EnumStep::Abort { error } => {
            assert_eq!(error, EnvError::SizeNegotiationFailure { code: 234 });
        }
        _ => panic!("expected an abort"),
    }
}

#[test]
fn other_status_aborts_enumeration() {
    let cursor = initial_cursor();
    let step = enum_step(cursor, EnumEvent::Failed { code: 5 });
    match step {
        EnumStep::Abort { error } => assert_eq!(error, EnvError::OsCallFailure { code: 5 }),
        _ => panic!("expected an abort"),
    }
}

#[test]
fn successful_entry_advances_to_next_index_first_try() {
    let mut cursor = initial_cursor();
    cursor.attempt = Attempt::Retry;
    let step = enum_step(
        cursor,
        EnumEvent::Got {
            name_units: to_wide_null("PATH"),
            data: value_data_bytes("C:\\Windows"),
            kind_raw: REG_SZ_RAW,
        },
    );
    match step {
        EnumStep::Record { entry, next } => {
            assert_eq!(entry.key, "PATH");
            assert_eq!(entry.value, "C:\\Windows");
            assert_eq!(next.index, 1);
            assert!(matches!(next.attempt, Attempt::First));
        }
        _ => panic!("expected a recorded entry"),
    }
}

#[test]
fn undecodable_entry_aborts_the_listing() {
    let cursor = initial_cursor();
    let step = enum_step(
        cursor,
        EnumEvent::Got { name_units: vec![0xD800, 0], data: Vec::new(), kind_raw: REG_SZ_RAW },
    );
    match step {
        EnumStep::Abort { error } => assert_eq!(error, EnvError::DecodeFailure),
        _ => panic!("expected an abort"),
    }
}

#[test]
fn query_steps() {
    assert_eq!(query_size_step(QueryEvent::NotFound), QueryStep::Absent);
    assert_eq!(query_size_step(QueryEvent::SizeIs { data_len: 0 }), QueryStep::EmptyValue);
    assert_eq!(
        query_size_step(QueryEvent::SizeIs { data_len: 24 }),
        QueryStep::Fetch { capacity: 24 }
    );
    assert_eq!(
        query_size_step(QueryEvent::Failed { code: 87 }),
        QueryStep::Abort { error: EnvError::OsCallFailure { code: 87 } }
    );
}

#[test]
fn write_error_is_never_masked_by_close() {
    assert_eq!(settle_write(0, 0), Ok(()));
    assert_eq!(settle_write(5, 0), Err(EnvError::OsCallFailure { code: 5 }));
    // the close also failed, but the write's own error is the one reported
    assert_eq!(settle_write(5, 6), Err(EnvError::OsCallFailure { code: 5 }));
    assert_eq!(settle_write(0, 6), Err(EnvError::OsCallFailure { code: 6 }));
}

#[test]
fn elevation_is_fail_closed() {
    assert!(!elevation_of_token(TokenQuery::OpenFailed));
    assert!(!elevation_of_token(TokenQuery::QueryFailed));
    assert!(!elevation_of_token(TokenQuery::Elevation { flag: 0 }));
    assert!(elevation_of_token(TokenQuery::Elevation { flag: 1 }));
}

#[test]
fn elevation_answer_is_stable_across_repeated_queries() {
    let observation = TokenQuery::Elevation { flag: 1 };
    let first = elevation_of_token(observation);
    let second = elevation_of_token(observation);
    assert_eq!(first, second);
}

#[test]
fn relaunch_verdicts() {
    assert_eq!(
        relaunch_verdict(RelaunchEvent::Issued { instance: 33 }),
        RelaunchVerdict::ExitProcess
    );
    assert_eq!(
        relaunch_verdict(RelaunchEvent::Issued { instance: 5 }),
        RelaunchVerdict::Failed { error: EnvError::ElevationFailure { code: 5 } }
    );
    assert_eq!(
        relaunch_verdict(RelaunchEvent::NotIssued { code: 1223 }),
        RelaunchVerdict::Failed { error: EnvError::ElevationFailure { code: 1223 } }
    );
}
