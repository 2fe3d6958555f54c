//! The storage accessors: the registry singleton and the record store.

use crowdfund::error::Error;
use crowdfund::state::{config, config_read, load, may_load, save, Campaign, State, Storage};

fn s(x: &str) -> String {
    x.to_string()
}

#[test]
fn config_read_before_any_write_is_not_found() {
    let st = Storage::new();
    assert_eq!(config_read(&st).unwrap_err(), Error::NotFound);
}

#[test]
fn config_round_trips_the_registry() {
    let mut st = Storage::new();
    config(&mut st, State { campaign_names: vec![s("a"), s("b")] });
    let read = config_read(&st).unwrap();
    assert_eq!(read.campaign_names, vec![s("a"), s("b")]);
}

#[test]
fn load_of_missing_record_is_not_found_and_may_load_is_none() {
    let st = Storage::new();
    assert_eq!(load(&st, &s("camp")).unwrap_err(), Error::NotFound);
    assert!(may_load(&st, &s("camp")).unwrap().is_none());
}

#[test]
fn save_then_load_returns_the_record() {
    let mut st = Storage::new();
    save(&mut st, &s("camp"), Campaign { owner: s("alice"), description: s("d"), amount: 5 });
    let c = load(&st, &s("camp")).unwrap();
    assert_eq!(c.owner, "alice");
    assert_eq!(c.description, "d");
    assert_eq!(c.amount, 5);
    let c2 = may_load(&st, &s("camp")).unwrap().unwrap();
    assert_eq!(c2.amount, 5);
}

#[test]
fn save_overwrites_in_place() {
    let mut st = Storage::new();
    save(&mut st, &s("camp"), Campaign { owner: s("alice"), description: s("d"), amount: 5 });
    save(&mut st, &s("camp"), Campaign { owner: s("bob"), description: s("e"), amount: 9 });
    assert_eq!(st.campaigns.len(), 1);
    let c = load(&st, &s("camp")).unwrap();
    assert_eq!(c.owner, "bob");
    assert_eq!(c.amount, 9);
}
