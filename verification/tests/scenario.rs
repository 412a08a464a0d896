//! End-to-end scenarios over the store's computing half, driven against a
//! small in-memory stand-in for the registry key: entries are kept exactly
//! as the write protocol encodes them, and reads go through the same
//! decisions and decoding the point lookup and the listing use.

use env_edit::env_reader::effective_value;
use env_edit::env_reader::enum_step;
use env_edit::env_reader::finish_variable;
use env_edit::env_reader::initial_cursor;
use env_edit::env_reader::query_size_step;
use env_edit::env_reader::EnumEvent;
use env_edit::env_reader::EnumStep;
use env_edit::env_reader::EnvironmentVariable;
use env_edit::env_reader::QueryEvent;
use env_edit::env_reader::QueryStep;
use env_edit::env_reader::REG_SZ_RAW;
use env_edit::env_writer::settle_write;
use env_edit::env_writer::value_data_bytes;
use env_edit::win_strings::to_wide_null;

/// Entries exactly as the key would hold them: name units (null-terminated),
/// value bytes, raw kind.
struct FakeKey {
    entries: Vec<(Vec<u16>, Vec<u8>, u32)>,
}

impl FakeKey {
    fn new() -> FakeKey {
        FakeKey { entries: Vec::new() }
    }

    fn set(&mut self, name: &str, value: &str) {
        let name_units = to_wide_null(name);
        let data = value_data_bytes(value);
        for entry in self.entries.iter_mut() {
            if entry.0 == name_units {
                entry.1 = data;
                entry.2 = REG_SZ_RAW;
                assert_eq!(settle_write(0, 0), Ok(()));
                return;
            }
        }
        self.entries.push((name_units, data, REG_SZ_RAW));
        assert_eq!(settle_write(0, 0), Ok(()));
    }

    fn get(&self, name: &str) -> Option<String> {
        let name_units = to_wide_null(name);
        let found = self.entries.iter().find(|e| e.0 == name_units);
        let event = match found {
            None => QueryEvent::NotFound,
            Some(e) => QueryEvent::SizeIs { data_len: e.1.len() as u32 },
        };
        match query_size_step(event) {
            QueryStep::Absent => None,
            QueryStep::EmptyValue => Some(String::new()),
            QueryStep::Fetch { capacity } => {
                let e = found.unwrap();
                assert_eq!(capacity as usize, e.1.len());
                Some(effective_value(&e.1, e.2, None).unwrap())
            }
            QueryStep::Abort { error } => panic!("unexpected abort: {:?}", error),
        }
    }

    fn list(&self) -> Vec<EnvironmentVariable> {
        let mut out = Vec::new();
        let mut cursor = initial_cursor();
        loop {
            let event = match self.entries.get(cursor.index as usize) {
                None => EnumEvent::NoMoreItems,
                Some(e) => EnumEvent::Got {
                    name_units: e.0.clone(),
                    data: e.1.clone(),
                    kind_raw: e.2,
                },
            };
            match enum_step(cursor, event) {
                EnumStep::Record { entry, next } => {
                    out.push(finish_variable(entry, None));
                    cursor = next;
                }
                EnumStep::Again { next, .. } => cursor = next,
                EnumStep::Finished => return out,
                EnumStep::Abort { error } => panic!("listing aborted: {:?}", error),
            }
        }
    }
}

#[test]
fn get_set_get_scenario() {
    let mut key = FakeKey::new();
    assert_eq!(key.get("ENV_EDIT_TEST"), None);
    key.set("ENV_EDIT_TEST", "0");
    assert_eq!(key.get("ENV_EDIT_TEST"), Some(String::from("0")));
    key.set("ENV_EDIT_TEST", "1");
    assert_eq!(key.get("ENV_EDIT_TEST"), Some(String::from("1")));
}

#[test]
fn round_trip_preserves_values_exactly() {
    let mut key = FakeKey::new();
    let values = vec!["", "plain ascii", "h\u{E9}llo \u{4E2D}\u{6587} \u{1D11E}"];
    for (i, v) in values.iter().enumerate() {
        let name = format!("VAR_{}", i);
        key.set(&name, v);
        assert_eq!(key.get(&name), Some(String::from(*v)));
    }
}

#[test]
fn listing_an_empty_key_yields_an_empty_collection() {
    let key = FakeKey::new();
    assert_eq!(key.list().len(), 0);
}

#[test]
fn set_then_list_contains_the_written_pair() {
    let mut key = FakeKey::new();
    assert_eq!(key.get("BRAND_NEW_NAME"), None);
    key.set("BRAND_NEW_NAME", "fresh value");
    let listed = key.list();
    let found = listed.iter().find(|v| v.key == "BRAND_NEW_NAME").unwrap();
    assert_eq!(found.value, "fresh value");
    assert_eq!(found.get_value(), "fresh value");
    assert_eq!(found.value_expanded, None);
}

#[test]
fn list_and_get_agree_after_writes() {
    let mut key = FakeKey::new();
    key.set("ONE", "first");
    key.set("TWO", "second");
    for variable in key.list() {
        let looked_up = key.get(&variable.key).unwrap();
        assert_eq!(looked_up, variable.get_value());
    }
}
