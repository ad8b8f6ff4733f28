use frc_ui::shared::SharedStore;
use frc_ui::store::TopicValueStore;
use frc_ui::value::NTValueType;

fn key(s: &str) -> String {
    String::from(s)
}

#[test]
fn unwritten_topic_is_absent() {
    let store = TopicValueStore::new();
    assert_eq!(store.get(&key("gameTime")), None);
    assert_eq!(store.get(&key("")), None);
    assert_eq!(store.len(), 0);
}

#[test]
fn unwritten_topic_stays_absent_after_other_writes() {
    let mut store = TopicValueStore::new();
    store.upsert(key("a"), NTValueType::Boolean(true));
    store.upsert(key("b"), NTValueType::Integer(3));
    assert_eq!(store.get(&key("c")), None);
    assert!(!store.contains(&key("c")));
    assert!(store.contains(&key("a")));
}

#[test]
fn upsert_then_get_returns_same_value() {
    let mut store = TopicValueStore::new();
    let v = NTValueType::DoubleArray(vec![1.5f64.to_bits(), (-2.0f64).to_bits()]);
    store.upsert(key("positions"), v);
    assert_eq!(
        store.get(&key("positions")),
        Some(NTValueType::DoubleArray(vec![1.5f64.to_bits(), (-2.0f64).to_bits()]))
    );
}

#[test]
fn value_survives_writes_to_other_topics() {
    let mut store = TopicValueStore::new();
    store.upsert(key("state"), NTValueType::String(key("Intake")));
    store.upsert(key("count"), NTValueType::Double(3.0f64.to_bits()));
    store.upsert(key("names"), NTValueType::StringArray(vec![key("x"), key("y")]));
    assert_eq!(store.get(&key("state")), Some(NTValueType::String(key("Intake"))));
    assert_eq!(store.len(), 3);
}

#[test]
fn later_upsert_replaces_value() {
    let mut store = TopicValueStore::new();
    store.upsert(key("t"), NTValueType::Integer(1));
    store.upsert(key("t"), NTValueType::Boolean(false));
    assert_eq!(store.get(&key("t")), Some(NTValueType::Boolean(false)));
    assert_eq!(store.len(), 1);
}

#[test]
fn copy_keeps_variant_and_payload() {
    let values = vec![
        NTValueType::Unknown,
        NTValueType::Boolean(true),
        NTValueType::BooleanArray(vec![true, false]),
        NTValueType::Double(7),
        NTValueType::DoubleArray(vec![1, 2]),
        NTValueType::Float(9),
        NTValueType::FloatArray(vec![3]),
        NTValueType::Integer(-4),
        NTValueType::IntegerArray(vec![5, -6]),
        NTValueType::String(key("s")),
        NTValueType::StringArray(vec![key("p"), key("")]),
    ];
    for v in &values {
        assert_eq!(&v.copy(), v);
    }
}

#[test]
fn shared_store_get_and_upsert() {
    let store = SharedStore::new();
    assert_eq!(store.get(&key("gameTime")), None);
    store.upsert(key("gameTime"), NTValueType::Double(105.0f64.to_bits()));
    assert_eq!(store.get(&key("gameTime")), Some(NTValueType::Double(105.0f64.to_bits())));
}

#[test]
fn shared_store_interleaved_writers_and_readers() {
    let store = SharedStore::new();
    let topics: Vec<String> = (0..8).map(|i| format!("topic{}", i)).collect();
    for round in 0..50i64 {
        for (i, t) in topics.iter().enumerate() {
            store.upsert(t.clone(), NTValueType::IntegerArray(vec![round, i as i64, round]));
            match store.get(&topics[(i + 3) % topics.len()]) {
                None => {}
                Some(NTValueType::IntegerArray(a)) => {
                    assert_eq!(a.len(), 3);
                    assert_eq!(a[0], a[2]);
                    assert_eq!(a[1], ((i + 3) % topics.len()) as i64);
                }
                Some(other) => panic!("unexpected value {:?}", other),
            }
        }
    }
    for (i, t) in topics.iter().enumerate() {
        assert_eq!(store.get(t), Some(NTValueType::IntegerArray(vec![49, i as i64, 49])));
    }
}
