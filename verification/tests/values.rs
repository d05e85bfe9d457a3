use poca::synchronizable::{Synchronizable, SynchronizableClone};

#[derive(Clone, Debug, PartialEq)]
enum Value {
    Int(i32),
    Text(String),
}

impl SynchronizableClone for Value {
    fn clone_synchronizable(&self) -> Self {
        self.clone()
    }
}

impl Synchronizable for Value {
    fn serialize(&self) -> String {
        match self {
            Value::Int(i) => serde_json::to_string(i).unwrap(),
            Value::Text(s) => serde_json::to_string(s).unwrap(),
        }
    }

    fn deserialize(&self, data: &str) -> Option<Self> {
        match self {
            Value::Int(_) => serde_json::from_str::<i32>(data).ok().map(Value::Int),
            Value::Text(_) => serde_json::from_str::<String>(data).ok().map(Value::Text),
        }
    }

    fn is_same_type(&self, other: &Self) -> bool {
        matches!(
            (self, other),
            (Value::Int(_), Value::Int(_)) | (Value::Text(_), Value::Text(_))
        )
    }
}

#[test]
fn a_value_of_the_application_round_trips() {
    let v = Value::Text("a\"b".to_string());
    let text = v.serialize();
    assert_eq!(text, "\"a\\\"b\"");
    assert_eq!(v.deserialize(&text), Some(v.clone()));
    assert_eq!(Value::Int(0).deserialize(&text), None);
}

#[test]
fn a_boolean_round_trips_through_json() {
    assert_eq!(true.serialize(), "true");
    assert_eq!(false.serialize(), "false");
    assert_eq!(true.deserialize(" false\n"), Some(false));
    assert_eq!(true.deserialize("true"), Some(true));
    assert_eq!(true.deserialize("1"), None);
    assert_eq!(true.deserialize("truee"), None);
    assert_eq!(true.deserialize(""), None);
}
