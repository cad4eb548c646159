use wasm_compose::{Collected, PluginId, Socket};

fn id(name: &str) -> PluginId {
    PluginId::new(name.to_string())
}

fn entries() -> Vec<(PluginId, u32)> {
    vec![(id("a"), 1), (id("b"), 2), (id("c"), 3)]
}

#[test]
fn map_keeps_variant_ids_and_order() {
    let socket = Socket::Any(entries());
    match socket.map(|v| v * 10) {
        Socket::Any(mapped) => {
            let got: Vec<(String, u32)> = mapped.iter().map(|(k, v)| (k.as_str().to_string(), *v)).collect();
            assert_eq!(got, vec![("a".to_string(), 10), ("b".to_string(), 20), ("c".to_string(), 30)]);
        }
        other => panic!("variant changed: {:?}", other),
    }
}

#[test]
fn map_single_variants() {
    assert!(matches!(Socket::<u32>::AtMostOne(None).map(|v| v + 1), Socket::AtMostOne(None)));
    assert!(matches!(Socket::AtMostOne(Some(4u32)).map(|v| v + 1), Socket::AtMostOne(Some(5))));
    assert!(matches!(Socket::ExactlyOne(4u32).map(|v| v * 2), Socket::ExactlyOne(8)));
}

#[test]
fn map_mut_takes_values_by_ownership() {
    let socket = Socket::AtLeastOne(vec![(id("x"), "one".to_string()), (id("y"), "two".to_string())]);
    match socket.map_mut(|s| s.len()) {
        Socket::AtLeastOne(mapped) => {
            assert_eq!(mapped.len(), 2);
            assert_eq!(mapped[0].0.as_str(), "x");
            assert_eq!(mapped[0].1, 3);
            assert_eq!(mapped[1].0.as_str(), "y");
            assert_eq!(mapped[1].1, 3);
        }
        other => panic!("variant changed: {:?}", other),
    }
    assert!(matches!(Socket::ExactlyOne(2u8).map_mut(|v| v as u32 + 1), Socket::ExactlyOne(3)));
}

#[test]
fn get_in_keyed_socket() {
    let socket = Socket::Any(entries());
    let never = |_: &u32| -> Result<PluginId, ()> { panic!("keyed sockets know their ids") };
    assert_eq!(socket.get(&id("b"), never), Ok(Some(&2)));
    assert_eq!(socket.get(&id("z"), never), Ok(None));
}

#[test]
fn get_in_single_socket_reads_the_plugin_id() {
    let socket = Socket::ExactlyOne(("startup".to_string(), 5u32));
    let read = |p: &(String, u32)| -> Result<PluginId, String> { Ok(PluginId::new(p.0.clone())) };
    assert_eq!(socket.get(&id("startup"), read), Ok(Some(&("startup".to_string(), 5))));
    assert_eq!(socket.get(&id("other"), read), Ok(None));
    let poisoned = |_: &(String, u32)| -> Result<PluginId, String> { Err("poisoned".to_string()) };
    assert_eq!(socket.get(&id("startup"), poisoned), Err("poisoned".to_string()));
    let empty: Socket<(String, u32)> = Socket::AtMostOne(None);
    assert_eq!(empty.get(&id("startup"), read), Ok(None));
}

#[test]
fn collected_shapes() {
    assert!(matches!(Socket::<u8>::AtMostOne(None).into_collected(), Collected::Optional(None)));
    assert!(matches!(Socket::AtMostOne(Some(1u8)).into_collected(), Collected::Optional(Some(1))));
    assert!(matches!(Socket::ExactlyOne(1u8).into_collected(), Collected::Single(1)));
    match Socket::AtLeastOne(entries()).into_collected() {
        Collected::List(values) => assert_eq!(values, vec![1, 2, 3]),
        other => panic!("unexpected {:?}", other),
    }
}

#[test]
fn plugin_id_equality() {
    assert!(id("startup").same_as(&id("startup")));
    assert!(!id("startup").same_as(&id("Startup")));
    assert_eq!(id("abc").duplicate().as_str(), "abc");
}

fn values(socket: &Socket<u32>) -> Vec<(String, u32)> {
    match socket {
        Socket::AtMostOne(None) => vec![],
        Socket::AtMostOne(Some(v)) | Socket::ExactlyOne(v) => vec![(String::new(), *v)],
        Socket::AtLeastOne(e) | Socket::Any(e) => e.iter().map(|(k, v)| (k.as_str().to_string(), *v)).collect(),
    }
}

#[test]
fn mapping_twice_is_mapping_by_the_composition() {
    let socket = Socket::AtLeastOne(entries());
    let twice = socket.map(|v| v + 1).map(|v| v * 3);
    let once = socket.map(|v| (v + 1) * 3);
    assert!(matches!(twice, Socket::AtLeastOne(_)));
    assert_eq!(values(&twice), values(&once));
    assert_eq!(values(&once), vec![("a".to_string(), 6), ("b".to_string(), 9), ("c".to_string(), 12)]);
}

#[test]
fn mapping_by_identity_keeps_the_socket() {
    let socket = Socket::Any(entries());
    let same = socket.map(|v| *v);
    assert!(matches!(same, Socket::Any(_)));
    assert_eq!(values(&same), values(&socket));
}

#[test]
fn map_and_map_mut_agree() {
    let by_ref = Socket::Any(entries()).map(|v| v + 10);
    let by_value = Socket::Any(entries()).map_mut(|v| v + 10);
    assert!(matches!(by_value, Socket::Any(_)));
    assert_eq!(values(&by_ref), values(&by_value));
    let single_ref = Socket::ExactlyOne(4u32).map(|v| v + 10);
    let single_value = Socket::ExactlyOne(4u32).map_mut(|v| v + 10);
    assert_eq!(values(&single_ref), values(&single_value));
}
