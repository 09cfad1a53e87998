use computercraft::color::{Color, TryFromColorError};
use computercraft::error::CCError;
use computercraft::lua_compat::EmptyVecOrEmptyObject;
use computercraft::monitor::{MonitorScale, TryParseMonitorScaleError, MAX_HALVES, MIN_HALVES};
use computercraft::results::{expect_bool, expect_color, expect_count, expect_count_pair, expect_i32, optional_value};
use computercraft::rs_bridge::{CraftingSlot, Item, RsFilter};
use serde_json::{Number, Value};

fn num(n: i64) -> Value {
    Value::Number(Number::from(n))
}

#[test]
fn filter_from_name() {
    let f = RsFilter::from_name("minecraft:stone");
    assert_eq!(f.name(), "minecraft:stone");
    assert_eq!(f.count(), None);
    assert!(f.nbt().is_none());
}

#[test]
fn filter_from_tag_adds_hash_once() {
    assert_eq!(RsFilter::from_tag("forge:ingots").name(), "#forge:ingots");
    assert_eq!(RsFilter::from_tag("#forge:ingots").name(), "#forge:ingots");
    assert_eq!(RsFilter::from_tag("").name(), "#");
}

#[test]
fn filter_builders() {
    let f = RsFilter::from_name("x").with_count(12).with_nbt("{a:1}");
    assert_eq!(f.name(), "x");
    assert_eq!(f.count(), Some(12));
    assert_eq!(f.nbt().map(|s| s.as_str()), Some("{a:1}"));
}

#[test]
fn color_values() {
    assert_eq!(Color::White.value(), 1);
    assert_eq!(Color::Black.value(), 32768);
    assert_eq!(Color::try_from_value(1024).unwrap(), Color::Purple);
    assert!(matches!(Color::try_from_value(3), Err(TryFromColorError::InvalidColorValue(3))));
    assert!(matches!(Color::try_from_value(0), Err(TryFromColorError::InvalidColorValue(0))));
    let all = Color::colors();
    assert_eq!(all[0], Color::White);
    assert_eq!(all[15], Color::Black);
    for (i, c) in all.iter().enumerate() {
        assert_eq!(c.value(), 1u64 << i);
    }
}

#[test]
fn monitor_scale_range() {
    assert!(matches!(MonitorScale::from_halves(0), Err(TryParseMonitorScaleError::OutOfRange)));
    assert!(matches!(MonitorScale::from_halves(11), Err(TryParseMonitorScaleError::OutOfRange)));
    assert_eq!(MonitorScale::from_halves(1).unwrap().halves(), 1);
    assert_eq!(MonitorScale::from_halves(10).unwrap().halves(), 10);
    assert_eq!(MonitorScale::min().halves(), MIN_HALVES);
    assert_eq!(MonitorScale::max().halves(), MAX_HALVES);
}

#[test]
fn lua_sequences() {
    assert!(EmptyVecOrEmptyObject::<u8>::Object.into_vec().is_empty());
    assert_eq!(EmptyVecOrEmptyObject::Vec(vec![1, 2]).into_vec(), vec![1, 2]);
    assert!(matches!(EmptyVecOrEmptyObject::from_value(&Value::Object(serde_json::Map::new())), Some(EmptyVecOrEmptyObject::Object)));
    let arr = Value::Array(vec![num(1)]);
    match EmptyVecOrEmptyObject::from_value(&arr) {
        Some(EmptyVecOrEmptyObject::Vec(v)) => assert_eq!(v, vec![num(1)]),
        other => panic!("unexpected {:?}", other),
    }
    let mut m = serde_json::Map::new();
    m.insert("k".to_string(), num(1));
    assert!(EmptyVecOrEmptyObject::from_value(&Value::Object(m)).is_none());
    assert!(EmptyVecOrEmptyObject::from_value(&Value::Null).is_none());
}

#[test]
fn result_shapes() {
    assert!(expect_bool(vec![Value::Bool(true)]).unwrap());
    match expect_bool(vec![num(1)]) {
        Err(CCError::UnexpectedData(v)) => assert_eq!(v, vec![num(1)]),
        other => panic!("unexpected {:?}", other),
    }
    assert_eq!(expect_count_pair(vec![num(51), num(19)]).unwrap(), (51, 19));
    assert!(matches!(expect_count_pair(vec![num(-1), num(19)]), Err(CCError::UnexpectedData(_))));
    assert!(matches!(expect_count_pair(vec![num(1)]), Err(CCError::UnexpectedData(_))));
    assert_eq!(expect_count(vec![num(64)]).unwrap(), 64);
    assert_eq!(expect_color(vec![num(16384)]).unwrap(), Color::Red);
    assert!(matches!(expect_color(vec![num(5)]), Err(CCError::UnexpectedData(_))));
    assert_eq!(expect_i32(vec![num(-20)]).unwrap(), -20);
    assert!(matches!(expect_i32(vec![num(1 << 40)]), Err(CCError::UnexpectedData(_))));
    assert!(matches!(expect_i32(vec![Value::String("1".to_string())]), Err(CCError::UnexpectedData(_))));
}

#[test]
fn optional_single_value() {
    assert!(optional_value(vec![]).unwrap().is_none());
    assert_eq!(optional_value(vec![num(2)]).unwrap(), Some(num(2)));
    assert!(matches!(optional_value(vec![num(1), num(2)]), Err(CCError::MultipleReturnValues)));
}

#[test]
fn crafting_slot_items() {
    let item = Item {
        name: "minecraft:stick".to_string(),
        fingerprint: None,
        amount: 4,
        display_name: "Stick".to_string(),
        is_craftable: true,
        nbt: None,
        tags: None,
    };
    let slot = CraftingSlot::Item(vec![item]);
    assert_eq!(slot.items().unwrap()[0].amount, 4);
    assert!(CraftingSlot::Empty.items().is_none());
}
