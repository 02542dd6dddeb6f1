use ocpp_rs::connectors::{kilowatt_hours, kilowatts, Availability, ConnectorBank, ConnectorError};
use ocpp_rs::state::ConnectorStatus;
use ocpp_rs::time::Timestamp;

fn at(secs: i64) -> Timestamp {
    Timestamp { secs, nanos: 0 }
}

#[test]
fn a_charging_session_walks_the_documented_states() {
    let mut bank = ConnectorBank::new(2, 1670000001, 1670000001);
    assert_eq!(bank.connectors().len(), 2);
    assert_eq!(bank.connectors()[0].status_line(), "⚪ Connector 1: Available ");

    let frames = bank.plug_in(1, at(1701599400)).unwrap();
    assert_eq!(
        frames,
        vec![r#"[2,"1670000001","StatusNotification",{"connectorId":1,"errorCode":"NoError","status":"Preparing","timestamp":"2023-12-03T10:30:00+00:00"}]"#.to_string()]
    );
    assert!(bank.connectors()[0].cable_plugged);

    let frames = bank.start_transaction(1, "DEMO_TAG", at(1701599460)).unwrap();
    assert_eq!(
        frames[0],
        r#"[2,"1670000002","StartTransaction",{"connectorId":1,"idTag":"DEMO_TAG","meterStart":0,"timestamp":"2023-12-03T10:31:00+00:00"}]"#
    );
    assert!(frames[1].contains(r#""status":"Charging""#));
    assert_eq!(bank.connectors()[0].transaction_id, Some(1670000001));
    assert_eq!(bank.connectors()[0].status_line(), "🔌 Connector 1: Charging (Tx: 1670000001) 7.2kW");

    bank.tick(75);
    assert_eq!(bank.connectors()[0].energy_ws, 7200 * 75);
    assert_eq!(kilowatt_hours(bank.connectors()[0].energy_ws), "0.15");

    assert_eq!(bank.plug_out(1, at(1701600000)), Err(ConnectorError::UnplugDuringTransaction));

    let frames = bank.stop_transaction(1, at(1701600300)).unwrap();
    assert_eq!(
        frames[0],
        r#"[2,"1670000004","StopTransaction",{"meterStop":150,"timestamp":"2023-12-03T10:45:00+00:00","transactionId":1670000001}]"#
    );
    assert!(frames[1].contains(r#""status":"Finishing""#));
    assert_eq!(bank.connectors()[0].status, ConnectorStatus::Finishing);

    let frames = bank.complete_stop(1, at(1701600302)).unwrap();
    assert!(frames[0].contains(r#""status":"Preparing""#));
    assert!(frames[0].contains("10:45:02"));

    let frames = bank.plug_out(1, at(1701600400)).unwrap();
    assert!(frames[0].contains(r#""status":"Available""#));
    assert_eq!(bank.connectors()[0].status, ConnectorStatus::Available);
    assert!(!bank.connectors()[0].cable_plugged);
}

#[test]
fn connector_actions_are_refused_as_documented() {
    let mut bank = ConnectorBank::new(2, 1, 1);
    let e = bank.start_transaction(1, "T", at(0)).unwrap_err();
    assert_eq!(e, ConnectorError::CableRequired);
    assert_eq!(e.to_string(), "Cable must be plugged in before starting transaction");
    assert_eq!(bank.stop_transaction(1, at(0)).unwrap_err().to_string(), "No active transaction on connector 1");
    assert_eq!(bank.plug_out(1, at(0)).unwrap_err(), ConnectorError::CableNotPlugged(1));
    assert_eq!(bank.plug_in(3, at(0)).unwrap_err().to_string(), "Connector 3 does not exist");
    assert_eq!(
        bank.plug_out(2, at(0)).unwrap_err().to_string(),
        "Cable is not plugged in on connector 2"
    );

    bank.plug_in(1, at(0)).unwrap();
    assert_eq!(bank.plug_in(1, at(0)).unwrap_err(), ConnectorError::NotAvailable(1));
    bank.set_availability(1, Availability::Unavailable, at(1)).unwrap();
    assert_eq!(bank.start_transaction(1, "T", at(2)).unwrap_err(), ConnectorError::NotAvailable(1));
    bank.set_availability(1, Availability::Available, at(3)).unwrap();
    bank.start_transaction(1, "T", at(4)).unwrap();
    assert_eq!(bank.start_transaction(1, "T", at(5)).unwrap_err(), ConnectorError::TransactionAlreadyActive(1));
    assert_eq!(
        bank.set_availability(1, Availability::Faulted, at(6)).unwrap_err().to_string(),
        "Cannot change availability during active transaction on connector 1"
    );
    assert!(bank.set_availability(1, Availability::Available, at(7)).is_ok());
    assert_eq!(
        ConnectorError::UnplugDuringTransaction.to_string(),
        "Cannot unplug cable during active transaction"
    );
}

#[test]
fn transaction_numbers_are_never_reused() {
    let mut bank = ConnectorBank::new(2, 1, 100);
    bank.plug_in(1, at(0)).unwrap();
    bank.plug_in(2, at(0)).unwrap();
    bank.start_transaction(1, "A", at(1)).unwrap();
    bank.start_transaction(2, "B", at(1)).unwrap();
    assert_eq!(bank.connectors()[0].transaction_id, Some(100));
    assert_eq!(bank.connectors()[1].transaction_id, Some(101));
    bank.stop_transaction(1, at(2)).unwrap();
    bank.complete_stop(1, at(3)).unwrap();
    bank.start_transaction(1, "C", at(4)).unwrap();
    assert_eq!(bank.connectors()[0].transaction_id, Some(102));
    assert!(bank.complete_stop(2, at(5)).unwrap().is_empty());
}

#[test]
fn power_and_energy_read_in_kilo_units() {
    assert_eq!(kilowatts(7200), "7.2");
    assert_eq!(kilowatts(22000), "22.0");
    assert_eq!(kilowatt_hours(8_460_000), "2.35");
    assert_eq!(kilowatt_hours(36_000), "0.01");
    assert_eq!(kilowatt_hours(0), "0.00");
}
