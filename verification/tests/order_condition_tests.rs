use twsapi::messages::{concat_fields, read_fields};
use twsapi::order_condition::{
    Condition, ConditionType, ContractCondition, ExecutionCondition, OperatorCondition,
    OrderCondition, TimeCondition, TriggerMethod, VolumeCondition,
};

fn wire(fields: Vec<String>) -> Vec<String> {
    let text = concat_fields(&fields);
    assert_eq!(text, fields.concat());
    read_fields(&text)
}

#[test]
fn condition_type_numbers_and_texts() {
    assert_eq!(ConditionType::Price.to_i32(), 1);
    assert_eq!(ConditionType::PercentChange.to_i32(), 7);
    assert_eq!(ConditionType::from_i32(2), None);
    assert_eq!(ConditionType::from_i32(5), Some(ConditionType::Execution));
    assert_eq!(ConditionType::Margin.to_string(), "Margin");
    assert_eq!(TriggerMethod::LastBidAsk.to_i32(), 7);
    assert_eq!(TriggerMethod::MidPoint.to_string(), "MidPoint");
    assert_eq!(ConditionType::default(), ConditionType::Price);
    assert_eq!(TriggerMethod::default(), TriggerMethod::Default);
}

#[test]
fn and_or_set_the_connector() {
    let mut c = OrderCondition::new(ConditionType::Time);
    assert!(!c.is_conjunction_connection);
    assert!(c.and().is_conjunction_connection);
    assert!(!c.or().is_conjunction_connection);
    assert_eq!(c.get_type(), ConditionType::Time);
}

#[test]
fn order_condition_fields() {
    let mut c = OrderCondition::new(ConditionType::Price);
    assert_eq!(c.make_fields().unwrap(), vec!["o\0".to_string()]);
    c.and();
    assert_eq!(c.make_fields().unwrap(), vec!["a\0".to_string()]);
    let mut d = OrderCondition::new(ConditionType::Price);
    let f = wire(c.make_fields().unwrap());
    d.decode(&mut f.iter()).unwrap();
    assert!(d.is_conjunction_connection);
}

#[test]
fn operator_condition_roundtrip_and_missing_flag() {
    let c = OperatorCondition::new(ConditionType::Margin, true);
    assert_eq!(c.make_fields().unwrap(), vec!["o\0".to_string(), "1\0".to_string()]);
    let mut d = OperatorCondition::new(ConditionType::Margin, false);
    let f = wire(c.make_fields().unwrap());
    d.decode(&mut f.iter()).unwrap();
    assert!(d.is_more);
    let f = vec!["a".to_string()];
    let mut e = OperatorCondition::new(ConditionType::Margin, true);
    e.decode(&mut f.iter()).unwrap();
    assert!(!e.is_more && e.order_condition.is_conjunction_connection);
}

#[test]
fn execution_condition_roundtrip() {
    let mut c = ExecutionCondition::new("STK".into(), "SMART".into(), "IBM".into());
    c.order_condition.and();
    assert_eq!(c.make_fields().unwrap(), vec!["a\0", "STK\0", "SMART\0", "IBM\0"]);
    let mut d = ExecutionCondition::default();
    d.order_condition.cond_type = ConditionType::Execution;
    let f = wire(c.make_fields().unwrap());
    d.decode(&mut f.iter()).unwrap();
    assert_eq!((d.sec_type.as_str(), d.exchange.as_str(), d.symbol.as_str()), ("STK", "SMART", "IBM"));
    assert!(d.order_condition.is_conjunction_connection);
    assert_eq!(d.get_type(), ConditionType::Execution);
    assert_eq!(c.value_to_string(), "sec_type: STK, exchange: SMART, symbol: IBM");
}

#[test]
fn contract_condition_roundtrip() {
    let c = ContractCondition::new(ConditionType::Price, 265598, "SMART", true);
    assert_eq!(c.make_fields().unwrap(), vec!["o\0", "1\0", "265598\0", "SMART\0"]);
    let mut d = ContractCondition::default();
    let f = wire(c.make_fields().unwrap());
    let mut it = f.iter();
    d.decode(&mut it).unwrap();
    assert!(it.next().is_none());
    assert_eq!((d.con_id, d.exchange.as_str(), d.operator_condition.is_more), (265598, "SMART", true));
    assert_eq!(c.value_to_string(), "contract id: 265598, Exchange: SMART");
}

#[test]
fn time_condition_roundtrip_and_value() {
    let mut c = TimeCondition::new(false, "20231231 23:59:59".to_string());
    let mut d = TimeCondition::default();
    let f = wire(c.make_fields().unwrap());
    d.decode(&mut f.iter()).unwrap();
    assert_eq!(d.time, "20231231 23:59:59");
    assert!(!d.operator_condition.is_more);
    assert_eq!(c.get_type(), ConditionType::Time);
    c.set_value_from_string("20240101 00:00:00".to_string());
    assert_eq!(c.value_to_string(), "20240101 00:00:00");
}

#[test]
fn volume_condition_writes_volume_before_contract() {
    let c = VolumeCondition::new(8314, "SMART", true, 1000);
    assert_eq!(c.make_fields().unwrap(), vec!["o\0", "1\0", "1000\0", "8314\0", "SMART\0"]);
    let mut d = VolumeCondition::default();
    let f = wire(c.make_fields().unwrap());
    d.decode(&mut f.iter()).unwrap();
    // read back in the order of decode: the volume's text lands in the contract id
    assert_eq!(d.contract_condition.con_id, 1000);
    assert_eq!(d.contract_condition.exchange, "8314");
    assert_eq!(d.volume, 0);
    // it reads back whole when the volume equals the contract id and the exchange is its text
    let c = VolumeCondition::new(12, "12", false, 12);
    let mut d = VolumeCondition::default();
    let f = wire(c.make_fields().unwrap());
    d.decode(&mut f.iter()).unwrap();
    assert_eq!((d.contract_condition.con_id, d.contract_condition.exchange.as_str(), d.volume), (12, "12", 12));
}

#[test]
fn volume_condition_value() {
    let mut c = VolumeCondition::new(1, "X", false, 5);
    assert_eq!(c.value_to_string(), "5");
    c.set_value_from_string("-250".to_string());
    assert_eq!(c.volume, -250);
    assert_eq!(c.get_type(), ConditionType::Volume);
}
