use std::sync::{Arc, Mutex};

use poca::app_routes::{generate_app_routes, RouteNode};
use poca::data_handle::DataHandle;
use poca::event_handler::{EventHandler, Write};
use poca::message::Message;
use poca::poca::{Poca, ServerState};
use poca::store::Error;
use poca::synchronizable::{DataToAny, Synchronizable, SynchronizableClone};

#[derive(Debug, Clone, PartialEq, Eq)]
struct TestStruct {
    test_field: String,
    test_bool: bool,
}

/// Every concrete type that these tests store.
#[derive(Debug, Clone, PartialEq)]
enum Value {
    Int(i32),
    Text(String),
    Struct(TestStruct),
    Flag(bool),
    List(Vec<i32>),
}

impl SynchronizableClone for Value {
    fn clone_synchronizable(&self) -> Self {
        self.clone()
    }
}

fn struct_to_json(s: &TestStruct) -> String {
    let mut map = serde_json::Map::new();
    map.insert(
        "test_field".to_string(),
        serde_json::Value::String(s.test_field.clone()),
    );
    map.insert("test_bool".to_string(), serde_json::Value::Bool(s.test_bool));
    serde_json::to_string(&serde_json::Value::Object(map)).unwrap()
}

fn struct_from_json(data: &str) -> Option<TestStruct> {
    let value: serde_json::Value = serde_json::from_str(data).ok()?;
    let map = value.as_object()?;
    Some(TestStruct {
        test_field: map.get("test_field")?.as_str()?.to_string(),
        test_bool: map.get("test_bool")?.as_bool()?,
    })
}

impl Synchronizable for Value {
    fn serialize(&self) -> String {
        match self {
            Value::Int(v) => serde_json::to_string(v).unwrap(),
            Value::Text(v) => serde_json::to_string(v).unwrap(),
            Value::Struct(v) => struct_to_json(v),
            Value::Flag(v) => v.serialize(),
            Value::List(v) => serde_json::to_string(v).unwrap(),
        }
    }

    fn deserialize(&self, data: &str) -> Option<Self> {
        match self {
            Value::Int(_) => serde_json::from_str(data).ok().map(Value::Int),
            Value::Text(_) => serde_json::from_str(data).ok().map(Value::Text),
            Value::Struct(_) => struct_from_json(data).map(Value::Struct),
            Value::Flag(v) => v.deserialize(data).map(Value::Flag),
            Value::List(_) => serde_json::from_str(data).ok().map(Value::List),
        }
    }

    fn is_same_type(&self, other: &Self) -> bool {
        std::mem::discriminant(self) == std::mem::discriminant(other)
    }
}

impl DataToAny<Value> for i32 {
    fn to_any(self) -> Value {
        Value::Int(self)
    }

    fn from_any(stored: &Value) -> Option<Self> {
        match stored {
            Value::Int(v) => Some(*v),
            _ => None,
        }
    }
}

impl DataToAny<Value> for String {
    fn to_any(self) -> Value {
        Value::Text(self)
    }

    fn from_any(stored: &Value) -> Option<Self> {
        match stored {
            Value::Text(v) => Some(v.clone()),
            _ => None,
        }
    }
}

impl DataToAny<Value> for TestStruct {
    fn to_any(self) -> Value {
        Value::Struct(self)
    }

    fn from_any(stored: &Value) -> Option<Self> {
        match stored {
            Value::Struct(v) => Some(v.clone()),
            _ => None,
        }
    }
}

impl DataToAny<Value> for bool {
    fn to_any(self) -> Value {
        Value::Flag(self)
    }

    fn from_any(stored: &Value) -> Option<Self> {
        match stored {
            Value::Flag(v) => Some(*v),
            _ => None,
        }
    }
}

impl DataToAny<Value> for Vec<i32> {
    fn to_any(self) -> Value {
        Value::List(self)
    }

    fn from_any(stored: &Value) -> Option<Self> {
        match stored {
            Value::List(v) => Some(v.clone()),
            _ => None,
        }
    }
}

/// A listener made of a closure.
struct Listener(Box<dyn Fn(&Value) -> Vec<Write<Value>>>);

impl EventHandler<Value> for Listener {
    fn execute(&self, value: &Value) -> Vec<Write<Value>> {
        (self.0)(value)
    }
}

fn listener(f: impl Fn(&Value) -> Vec<Write<Value>> + 'static) -> Listener {
    Listener(Box::new(f))
}

type Server = Poca<Value, Listener>;

fn server() -> Server {
    Poca::new(generate_app_routes(RouteNode::E("", b"")), None)
}

struct Handles {
    handle1: DataHandle<i32>,
    handle2: DataHandle<String>,
    handle3: DataHandle<TestStruct>,
    handle4: DataHandle<Vec<i32>>,
}

fn handles(poca: &mut Server) -> Handles {
    Handles {
        handle1: poca.data("test1", 1).unwrap(),
        handle2: poca.data("test2", "test2".to_string()).unwrap(),
        handle3: poca
            .data(
                "test3",
                TestStruct {
                    test_field: "test_field".to_string(),
                    test_bool: true,
                },
            )
            .unwrap(),
        handle4: poca.data("test4", vec![1, 2, 3]).unwrap(),
    }
}

#[test]
fn basics_setting_and_getting() {
    let mut poca = server();
    let h = handles(&mut poca);
    assert_eq!(h.handle1.get(&poca).unwrap(), 1);

    h.handle1.set(&mut poca, 2).unwrap();
    assert_eq!(h.handle1.get(&poca).unwrap(), 2);

    assert_eq!(h.handle2.get(&poca).unwrap(), "test2".to_string());

    h.handle2.set(&mut poca, "test3".to_string()).unwrap();
    assert_eq!(h.handle2.get(&poca).unwrap(), "test3".to_string());

    assert_eq!(
        h.handle3.get(&poca).unwrap(),
        TestStruct {
            test_field: "test_field".to_string(),
            test_bool: true
        }
    );

    h.handle3
        .set(
            &mut poca,
            TestStruct {
                test_field: "test_field2".to_string(),
                test_bool: false,
            },
        )
        .unwrap();
    assert_eq!(
        h.handle3.get(&poca).unwrap(),
        TestStruct {
            test_field: "test_field2".to_string(),
            test_bool: false
        }
    );
}

#[test]
fn setting_and_getting() {
    let mut poca = server();
    let h = handles(&mut poca);
    h.handle1.set(&mut poca, 1).unwrap();
    assert_eq!(h.handle1.get(&poca).unwrap(), 1);

    h.handle1.set(&mut poca, 2).unwrap();
    assert_eq!(h.handle1.get(&poca).unwrap(), 2);

    assert_eq!(h.handle2.get(&poca).unwrap(), "test2".to_string());

    h.handle2.set(&mut poca, "test3".to_string()).unwrap();
    assert_eq!(h.handle2.get(&poca).unwrap(), "test3".to_string());

    assert_eq!(
        h.handle3.get(&poca).unwrap(),
        TestStruct {
            test_field: "test_field".to_string(),
            test_bool: true
        }
    );

    h.handle3
        .set(
            &mut poca,
            TestStruct {
                test_field: "test_field2".to_string(),
                test_bool: false,
            },
        )
        .unwrap();
    assert_eq!(
        h.handle3.get(&poca).unwrap(),
        TestStruct {
            test_field: "test_field2".to_string(),
            test_bool: false
        }
    );
}

#[test]
fn on_change_handler() {
    let mut poca = server();
    let h = handles(&mut poca);
    let watcher = Arc::new(Mutex::new(false));
    let watcher_clone = watcher.clone();
    h.handle1
        .on_change(
            &mut poca,
            listener(move |new_value| {
                println!("{:?}", new_value);
                let mut writer = watcher_clone.lock().unwrap();
                *writer = true;
                Vec::new()
            }),
        )
        .unwrap();

    h.handle1.set(&mut poca, 3).unwrap();
    assert_eq!(*(watcher.lock().unwrap()), true);
}

#[test]
fn on_change_handler_with_inner_set() {
    let mut poca = server();
    let h = handles(&mut poca);
    let handle5 = poca.data("test5", true).unwrap();
    h.handle4
        .on_change(
            &mut poca,
            listener(move |_new_value| {
                vec![Write {
                    key: "test5".to_string(),
                    value: false.to_any(),
                }]
            }),
        )
        .unwrap();
    h.handle4.set(&mut poca, vec![4, 5, 6]).unwrap();

    // The inner write waits until the outer one is through.
    assert_eq!(handle5.get(&poca).unwrap(), true);
    assert_eq!(poca.pending(), 1);
    assert!(matches!(poca.step(), Some(Ok(_))));
    assert_eq!(handle5.get(&poca).unwrap(), false);
    assert_eq!(poca.pending(), 0);
    assert!(poca.step().is_none());
}

#[test]
fn on_change_handler_with_inner_self_set() {
    let mut poca = server();
    let h = handles(&mut poca);
    h.handle1
        .on_change(
            &mut poca,
            listener(|_new_value| {
                vec![Write {
                    key: "test1".to_string(),
                    value: 2.to_any(),
                }]
            }),
        )
        .unwrap();
}

#[test]
fn todo_on_change_handler_with_inner_self_set() {
    let mut poca = server();
    let handle1: DataHandle<i32> = poca.data("test1", 1).unwrap();
    handle1
        .on_change(
            &mut poca,
            listener(|_new_value| {
                vec![Write {
                    key: "test1".to_string(),
                    value: 2.to_any(),
                }]
            }),
        )
        .unwrap();
}

#[test]
fn a_listener_that_sets_its_own_key_makes_a_second_write() {
    let mut poca = server();
    let handle: DataHandle<i32> = poca.data("a", 0).unwrap();
    let seen = Arc::new(Mutex::new(Vec::new()));
    let log = seen.clone();
    handle
        .on_change(
            &mut poca,
            listener(move |value| {
                log.lock().unwrap().push(value.clone());
                match value {
                    Value::Int(v) if *v < 3 => vec![Write {
                        key: "a".to_string(),
                        value: (v + 1).to_any(),
                    }],
                    _ => Vec::new(),
                }
            }),
        )
        .unwrap();
    let mut rx = poca.subscribe();

    handle.set(&mut poca, 1).unwrap();
    // The first write is through, the one the listener asked for is queued.
    assert_eq!(handle.get(&poca).unwrap(), 1);
    assert_eq!(poca.pending(), 1);
    assert_eq!(*seen.lock().unwrap(), vec![Value::Int(1)]);

    while poca.step().is_some() {}
    assert_eq!(handle.get(&poca).unwrap(), 3);
    assert_eq!(
        *seen.lock().unwrap(),
        vec![Value::Int(1), Value::Int(2), Value::Int(3)]
    );

    // Each write was published on its own, in the order of the writes.
    let mut published = Vec::new();
    while let Ok(message) = rx.try_recv() {
        match message {
            Message::SetValue { key, data } => published.push((key, data)),
            Message::Get { .. } => panic!("nothing was asked for"),
        }
    }
    assert_eq!(
        published,
        vec![
            ("a".to_string(), Value::Int(1)),
            ("a".to_string(), Value::Int(2)),
            ("a".to_string(), Value::Int(3)),
        ]
    );
}

#[test]
fn registering_a_key_twice_is_refused() {
    let mut poca = server();
    let first: DataHandle<i32> = poca.data("counter", 7).unwrap();
    let second = poca.data("counter", 8);
    assert!(matches!(second, Err(Error::RegistrationConflict)));
    let other = poca.data("counter", "text".to_string());
    assert!(matches!(other, Err(Error::RegistrationConflict)));
    assert_eq!(first.get(&poca).unwrap(), 7);
    assert_eq!(poca.store().len(), 1);
}

#[test]
fn listeners_are_called_once_each_in_the_order_of_registration() {
    let mut poca = server();
    let handle: DataHandle<i32> = poca.data("k", 0).unwrap();
    let calls = Arc::new(Mutex::new(Vec::new()));
    for name in ["first", "second", "third"] {
        let calls = calls.clone();
        handle
            .on_change(
                &mut poca,
                listener(move |value| {
                    calls.lock().unwrap().push((name, value.clone()));
                    Vec::new()
                }),
            )
            .unwrap();
    }
    // Registering replays nothing.
    assert!(calls.lock().unwrap().is_empty());
    handle.set(&mut poca, 9).unwrap();
    assert_eq!(
        *calls.lock().unwrap(),
        vec![
            ("first", Value::Int(9)),
            ("second", Value::Int(9)),
            ("third", Value::Int(9)),
        ]
    );
}

#[test]
fn a_handle_of_another_type_is_a_mismatch() {
    let mut poca = server();
    let _number: DataHandle<i32> = poca.data("n", 1).unwrap();
    let wrong: DataHandle<String> = DataHandle::new("n".to_string());
    assert!(matches!(wrong.get(&poca), Err(Error::TypeMismatch)));
    assert!(matches!(
        wrong.set(&mut poca, "x".to_string()),
        Err(Error::TypeMismatch)
    ));
    let missing: DataHandle<i32> = DataHandle::new("none".to_string());
    assert!(matches!(missing.get(&poca), Err(Error::UnknownKey)));
    assert!(matches!(missing.set(&mut poca, 1), Err(Error::UnknownKey)));
    assert!(matches!(
        missing.on_change(&mut poca, listener(|_| Vec::new())),
        Err(Error::UnknownKey)
    ));
    assert_eq!(wrong.get_key(), "n");
}

#[test]
fn a_write_is_published_to_every_subscription() {
    let mut poca = server();
    let handle: DataHandle<i32> = poca.data("counter", 0).unwrap();
    let mut a = poca.subscribe();
    let mut b = poca.subscribe();
    // The engine keeps one subscription of its own.
    assert_eq!(handle.set(&mut poca, 5).unwrap(), 3);
    for rx in [&mut a, &mut b] {
        match rx.try_recv() {
            Ok(Message::SetValue { key, data }) => {
                assert_eq!(key, "counter");
                assert_eq!(data, Value::Int(5));
            }
            other => panic!("unexpected: {:?}", other),
        }
        assert!(rx.try_recv().is_err());
    }
    // A subscription sees nothing from before it began.
    let mut late = poca.subscribe();
    assert!(late.try_recv().is_err());
}

#[test]
fn the_server_goes_up_and_down() {
    let mut poca = server();
    assert!(poca.get_state() == ServerState::Down);
    assert!(!poca.stop());
    poca.start();
    assert!(poca.get_state() == ServerState::Up);
    assert!(poca.stop());
    assert!(poca.get_state() == ServerState::Down);
    assert!(!poca.stop());
}
