use psqlx::loader::{load_descriptor, EntryPoint, LoadError};
use psqlx::registry::Origin;
use psqlx::text::DecodeError;

const PATH: &str = "/plugins/libdemo.so";

#[test]
fn loads_a_valid_module() {
    let d = load_descriptor(
        PATH.to_string(),
        Some(Some(&b"demo"[..])),
        Some(Some(&b"alpha,beta"[..])),
        Some(5u8),
    )
    .unwrap();
    assert_eq!(d.name(), "demo");
    assert_eq!(d.commands(), &vec!["alpha".to_string(), "beta".to_string()]);
    assert_eq!(*d.execute(), 5);
    assert_eq!(d.origin(), &Origin::Discovered(PATH.to_string()));
}

#[test]
fn missing_name_entry_point() {
    let r = load_descriptor(PATH.to_string(), None, Some(Some(&b"a"[..])), Some(1u8));
    assert_eq!(
        r.err(),
        Some(LoadError::MissingEntryPoint { path: PATH.to_string(), entry: EntryPoint::Name })
    );
}

#[test]
fn null_name_text() {
    let r = load_descriptor(PATH.to_string(), Some(None), Some(Some(&b"a"[..])), Some(1u8));
    assert_eq!(
        r.err(),
        Some(LoadError::BadText {
            path: PATH.to_string(),
            entry: EntryPoint::Name,
            cause: DecodeError::Null
        })
    );
}

#[test]
fn empty_name_is_refused() {
    let r = load_descriptor(PATH.to_string(), Some(Some(&b""[..])), Some(Some(&b"a"[..])), Some(1u8));
    assert_eq!(r.err(), Some(LoadError::EmptyName { path: PATH.to_string() }));
}

#[test]
fn bad_commands_text() {
    let bad: [u8; 2] = [0xc3, 0x28];
    let r = load_descriptor(PATH.to_string(), Some(Some(&b"demo"[..])), Some(Some(&bad[..])), Some(1u8));
    assert_eq!(
        r.err(),
        Some(LoadError::BadText {
            path: PATH.to_string(),
            entry: EntryPoint::MetaCommands,
            cause: DecodeError::InvalidUtf8
        })
    );
}

#[test]
fn missing_meta_commands_entry_point() {
    let r = load_descriptor(PATH.to_string(), Some(Some(&b"demo"[..])), None, Some(1u8));
    assert_eq!(
        r.err(),
        Some(LoadError::MissingEntryPoint { path: PATH.to_string(), entry: EntryPoint::MetaCommands })
    );
}

#[test]
fn missing_execute_entry_point() {
    let r = load_descriptor::<u8>(PATH.to_string(), Some(Some(&b"demo"[..])), Some(Some(&b"a"[..])), None);
    assert_eq!(
        r.err(),
        Some(LoadError::MissingEntryPoint { path: PATH.to_string(), entry: EntryPoint::ExecuteCommand })
    );
}
