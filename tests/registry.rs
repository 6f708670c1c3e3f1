use psqlx::registry::{Origin, PluginDescriptor, PluginRegistry};

fn desc(name: &str, cmds: &str, tag: u32) -> PluginDescriptor<u32> {
    PluginDescriptor::new(name.to_string(), cmds, tag, Origin::Embedded).unwrap()
}

#[test]
fn descriptor_needs_a_name() {
    assert!(PluginDescriptor::new(String::new(), "a", 1u32, Origin::Embedded).is_none());
}

#[test]
fn descriptor_keeps_its_parts() {
    let d = PluginDescriptor::new(
        "demo".to_string(),
        "alpha,beta",
        7u32,
        Origin::Discovered("/p/libdemo.so".to_string()),
    )
    .unwrap();
    assert_eq!(d.name(), "demo");
    assert_eq!(d.commands(), &vec!["alpha".to_string(), "beta".to_string()]);
    assert_eq!(*d.execute(), 7);
    assert_eq!(d.origin(), &Origin::Discovered("/p/libdemo.so".to_string()));
    assert!(d.owns(&"alpha".to_string()));
    assert!(!d.owns(&"Alpha".to_string()));
}

#[test]
fn insert_same_name_replaces_in_place() {
    let mut r = PluginRegistry::new();
    r.insert(desc("a", "x", 1));
    r.insert(desc("b", "y", 2));
    r.insert(desc("a", "z", 3));
    assert_eq!(r.len(), 2);
    assert_eq!(*r.get(0).execute(), 3);
    assert_eq!(r.get(0).name(), "a");
    assert!(!r.has_command(&"x".to_string()));
    assert!(r.has_command(&"z".to_string()));
    assert_eq!(r.position_of(&"b".to_string()), Some(1));
    assert_eq!(r.position_of(&"c".to_string()), None);
}

#[test]
fn first_registered_owner_wins() {
    let mut r = PluginRegistry::new();
    r.insert(desc("first", "shared,one", 1));
    r.insert(desc("second", "shared,two", 2));
    assert_eq!(r.find_owner(&"shared".to_string()), Some(0));
    assert_eq!(r.find_owner(&"two".to_string()), Some(1));
    assert_eq!(*r.lookup(&"shared".to_string()).unwrap().execute(), 1);
    assert!(r.lookup(&"three".to_string()).is_none());
}
