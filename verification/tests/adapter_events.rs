use btclient::adapter::BtCallback;
use btclient::bonding::BtBondState;
use btclient::context::ClientContext;
use btclient::device::BluetoothDevice;
use btclient::found_devices::DeviceTable;
use btclient::pairing::{BtSspVariant, ConsentTask, PairingConfirmation, SspReaction};

fn adapter() -> BtCallback {
    BtCallback::new(String::from("/org/chromium/bluetooth/client/adapter"))
}

fn device(address: &str, name: &str) -> BluetoothDevice {
    BluetoothDevice::new(String::from(address), String::from(name))
}

fn key(address: &str) -> String {
    String::from(address)
}

#[test]
fn address_change_overwrites() {
    let mut ctx = ClientContext::new();
    let cb = adapter();
    cb.on_address_changed(&mut ctx, key("00:11:22:33:44:55"));
    assert_eq!(ctx.adapter_address, Some(key("00:11:22:33:44:55")));
    cb.on_address_changed(&mut ctx, key("66:77:88:99:AA:BB"));
    assert_eq!(ctx.adapter_address, Some(key("66:77:88:99:AA:BB")));
}

#[test]
fn found_device_is_stored_under_its_address() {
    let mut ctx = ClientContext::new();
    adapter().on_device_found(&mut ctx, device("AA:BB", "Speaker"));
    assert_eq!(ctx.found_devices.len(), 1);
    assert!(ctx.found_devices.contains_key(&key("AA:BB")));
    assert!(!ctx.found_devices.contains_key(&key("Speaker")));
    assert_eq!(ctx.found_devices.get(&key("AA:BB")), Some(&device("AA:BB", "Speaker")));
    assert_eq!(ctx.found_devices.get(&key("CC:DD")), None);
}

#[test]
fn first_seen_name_wins() {
    let mut ctx = ClientContext::new();
    let cb = adapter();
    cb.on_device_found(&mut ctx, device("AA:BB", "First"));
    cb.on_device_found(&mut ctx, device("AA:BB", "Second"));
    assert_eq!(ctx.found_devices.len(), 1);
    assert_eq!(ctx.found_devices.get(&key("AA:BB")).unwrap().name, "First");
}

#[test]
fn distinct_addresses_are_all_kept() {
    let mut ctx = ClientContext::new();
    let cb = adapter();
    cb.on_device_found(&mut ctx, device("AA:BB", "Same"));
    cb.on_device_found(&mut ctx, device("CC:DD", "Same"));
    cb.on_device_found(&mut ctx, device("AA:BB", "Other"));
    cb.on_device_found(&mut ctx, device("", "Nameless"));
    assert_eq!(ctx.found_devices.len(), 3);
    assert_eq!(ctx.found_devices.get(&key("CC:DD")).unwrap().name, "Same");
    assert_eq!(ctx.found_devices.get(&key("")).unwrap().name, "Nameless");
    let mut listed: Vec<String> =
        ctx.found_devices.devices().into_iter().map(|d| d.address).collect();
    listed.sort();
    assert_eq!(listed, vec![key(""), key("AA:BB"), key("CC:DD")]);
}

#[test]
fn discovery_start_clears_found_devices() {
    let mut ctx = ClientContext::new();
    let cb = adapter();
    cb.on_device_found(&mut ctx, device("AA:BB", "One"));
    cb.on_device_found(&mut ctx, device("CC:DD", "Two"));
    cb.on_discovering_changed(&mut ctx, true);
    assert!(ctx.discovering_state);
    assert!(ctx.found_devices.is_empty());
    assert_eq!(ctx.found_devices.len(), 0);
    assert_eq!(ctx.found_devices.get(&key("AA:BB")), None);
}

#[test]
fn discovery_start_while_active_clears_again() {
    let mut ctx = ClientContext::new();
    let cb = adapter();
    cb.on_discovering_changed(&mut ctx, true);
    cb.on_device_found(&mut ctx, device("AA:BB", "One"));
    cb.on_discovering_changed(&mut ctx, true);
    assert!(ctx.discovering_state);
    assert!(ctx.found_devices.is_empty());
}

#[test]
fn discovery_stop_keeps_results() {
    let mut ctx = ClientContext::new();
    let cb = adapter();
    cb.on_discovering_changed(&mut ctx, true);
    cb.on_device_found(&mut ctx, device("AA:BB", "One"));
    cb.on_discovering_changed(&mut ctx, false);
    assert!(!ctx.discovering_state);
    assert_eq!(ctx.found_devices.len(), 1);
    assert_eq!(ctx.found_devices.get(&key("AA:BB")).unwrap().name, "One");
}

#[test]
fn name_can_change_in_a_new_session() {
    let mut ctx = ClientContext::new();
    let cb = adapter();
    cb.on_discovering_changed(&mut ctx, true);
    cb.on_device_found(&mut ctx, device("AA:BB", "Old"));
    cb.on_discovering_changed(&mut ctx, false);
    cb.on_discovering_changed(&mut ctx, true);
    cb.on_device_found(&mut ctx, device("AA:BB", "New"));
    assert_eq!(ctx.found_devices.get(&key("AA:BB")).unwrap().name, "New");
}

#[test]
fn passkey_notification_is_shown() {
    let reaction =
        adapter().on_ssp_request(device("AA:BB", "X"), 0x1f00, BtSspVariant::PasskeyNotification, 123456);
    assert_eq!(reaction, SspReaction::ShowPasskey { device: device("AA:BB", "X"), passkey: 123456 });
}

#[test]
fn passkey_entry_and_confirmation_are_unsupported() {
    let cb = adapter();
    assert_eq!(
        cb.on_ssp_request(device("AA:BB", "X"), 0, BtSspVariant::PasskeyEntry, 0),
        SspReaction::Unsupported(BtSspVariant::PasskeyEntry)
    );
    assert_eq!(
        cb.on_ssp_request(device("AA:BB", "X"), 0, BtSspVariant::PasskeyConfirmation, 42),
        SspReaction::Unsupported(BtSspVariant::PasskeyConfirmation)
    );
}

#[test]
fn consent_request_is_deferred() {
    let reaction = adapter().on_ssp_request(device("AA:BB", "X"), 0, BtSspVariant::Consent, 0);
    assert_eq!(reaction, SspReaction::DecideLater(ConsentTask { device: device("AA:BB", "X") }));
}

#[test]
fn consent_for_local_attempt_is_accepted_once() {
    let mut ctx = ClientContext::new();
    ctx.bonding_attempt = Some(device("AA:BB", "X"));
    let reaction = adapter().on_ssp_request(device("AA:BB", "X"), 0, BtSspVariant::Consent, 0);
    let task = match reaction {
        SspReaction::DecideLater(task) => task,
        other => panic!("unexpected reaction {:?}", other),
    };
    assert_eq!(
        task.run(&ctx),
        Some(PairingConfirmation { device: device("AA:BB", "X"), accept: true })
    );
    assert_eq!(ctx.bonding_attempt, Some(device("AA:BB", "X")));
}

#[test]
fn consent_from_other_address_is_ignored() {
    let mut ctx = ClientContext::new();
    ctx.bonding_attempt = Some(device("AA:BB", "X"));
    let reaction = adapter().on_ssp_request(device("CC:DD", "X"), 0, BtSspVariant::Consent, 0);
    let task = match reaction {
        SspReaction::DecideLater(task) => task,
        other => panic!("unexpected reaction {:?}", other),
    };
    assert_eq!(task.run(&ctx), None);
    assert_eq!(ctx.bonding_attempt, Some(device("AA:BB", "X")));
}

#[test]
fn consent_matches_on_address_not_name() {
    let mut ctx = ClientContext::new();
    ctx.bonding_attempt = Some(device("AA:BB", "Local name"));
    let task = ConsentTask { device: device("AA:BB", "Remote name") };
    assert_eq!(
        task.run(&ctx),
        Some(PairingConfirmation { device: device("AA:BB", "Remote name"), accept: true })
    );
    let task = ConsentTask { device: device("AA:BC", "Local name") };
    assert_eq!(task.run(&ctx), None);
}

#[test]
fn consent_without_bonding_attempt_is_ignored() {
    let ctx = ClientContext::new();
    let task = ConsentTask { device: device("AA:BB", "X") };
    assert_eq!(task.run(&ctx), None);
}

#[test]
fn consent_is_decided_against_state_at_run_time() {
    let mut ctx = ClientContext::new();
    let cb = adapter();
    let early = match cb.on_ssp_request(device("AA:BB", "X"), 0, BtSspVariant::Consent, 0) {
        SspReaction::DecideLater(task) => task,
        other => panic!("unexpected reaction {:?}", other),
    };
    assert_eq!(early.run(&ctx), None);
    ctx.bonding_attempt = Some(device("AA:BB", "X"));
    assert!(early.run(&ctx).is_some());
    cb.on_bond_state_changed(&mut ctx, 0, key("AA:BB"), 0);
    assert_eq!(early.run(&ctx), None);
}

#[test]
fn bonded_report_for_awaited_device_resolves_and_connects() {
    let mut ctx = ClientContext::new();
    ctx.bonding_attempt = Some(device("AA:BB", "X"));
    let connect = adapter().on_bond_state_changed(&mut ctx, 0, key("AA:BB"), 2);
    assert_eq!(ctx.bonding_attempt, None);
    assert_eq!(connect, Some(device("AA:BB", "Classic device")));
}

#[test]
fn bonded_report_with_failure_status_still_resolves_and_connects() {
    let mut ctx = ClientContext::new();
    ctx.bonding_attempt = Some(device("AA:BB", "X"));
    let connect = adapter().on_bond_state_changed(&mut ctx, 9, key("AA:BB"), 2);
    assert_eq!(ctx.bonding_attempt, None);
    assert_eq!(connect, Some(device("AA:BB", "Classic device")));
}

#[test]
fn bonded_report_for_foreign_device_connects_and_keeps_attempt() {
    let mut ctx = ClientContext::new();
    ctx.bonding_attempt = Some(device("AA:BB", "X"));
    let connect = adapter().on_bond_state_changed(&mut ctx, 0, key("EE:FF"), 2);
    assert_eq!(ctx.bonding_attempt, Some(device("AA:BB", "X")));
    assert_eq!(connect, Some(device("EE:FF", "Classic device")));
}

#[test]
fn bonded_report_while_idle_connects() {
    let mut ctx = ClientContext::new();
    let connect = adapter().on_bond_state_changed(&mut ctx, 0, key("EE:FF"), 2);
    assert_eq!(ctx.bonding_attempt, None);
    assert_eq!(connect, Some(device("EE:FF", "Classic device")));
}

#[test]
fn failed_bond_resolves_without_connecting() {
    let mut ctx = ClientContext::new();
    ctx.bonding_attempt = Some(device("AA:BB", "X"));
    let connect = adapter().on_bond_state_changed(&mut ctx, 1, key("AA:BB"), 0);
    assert_eq!(ctx.bonding_attempt, None);
    assert_eq!(connect, None);
}

#[test]
fn failed_bond_of_foreign_device_changes_nothing() {
    let mut ctx = ClientContext::new();
    ctx.bonding_attempt = Some(device("AA:BB", "X"));
    let connect = adapter().on_bond_state_changed(&mut ctx, 1, key("EE:FF"), 0);
    assert_eq!(ctx.bonding_attempt, Some(device("AA:BB", "X")));
    assert_eq!(connect, None);
}

#[test]
fn bonding_in_progress_changes_nothing() {
    let mut ctx = ClientContext::new();
    ctx.bonding_attempt = Some(device("AA:BB", "X"));
    let connect = adapter().on_bond_state_changed(&mut ctx, 0, key("AA:BB"), 1);
    assert_eq!(ctx.bonding_attempt, Some(device("AA:BB", "X")));
    assert_eq!(connect, None);
}

#[test]
fn unknown_state_number_reads_as_not_bonded() {
    let mut ctx = ClientContext::new();
    ctx.bonding_attempt = Some(device("AA:BB", "X"));
    let connect = adapter().on_bond_state_changed(&mut ctx, 0, key("AA:BB"), 3);
    assert_eq!(ctx.bonding_attempt, None);
    assert_eq!(connect, None);
    assert_eq!(BtBondState::from(u32::MAX), BtBondState::NotBonded);
}

#[test]
fn bond_state_numbers() {
    assert_eq!(BtBondState::from(0), BtBondState::NotBonded);
    assert_eq!(BtBondState::from(1), BtBondState::Bonding);
    assert_eq!(BtBondState::from(2), BtBondState::Bonded);
}

#[test]
fn bond_reports_touch_only_the_attempt() {
    let mut ctx = ClientContext::new();
    let cb = adapter();
    cb.on_address_changed(&mut ctx, key("00:11"));
    cb.on_device_found(&mut ctx, device("AA:BB", "X"));
    ctx.bonding_attempt = Some(device("AA:BB", "X"));
    ctx.gatt_client_id = Some(1);
    cb.on_bond_state_changed(&mut ctx, 0, key("AA:BB"), 2);
    assert_eq!(ctx.adapter_address, Some(key("00:11")));
    assert_eq!(ctx.found_devices.len(), 1);
    assert_eq!(ctx.gatt_client_id, Some(1));
    assert!(!ctx.discovering_state);
}

#[test]
fn adapter_identity_is_stable() {
    let mut cb = adapter();
    assert_eq!(cb.get_object_id(), "/org/chromium/bluetooth/client/adapter");
    assert_eq!(cb.register_disconnect(), 0);
    assert!(!cb.unregister(0));
    assert_eq!(cb.get_object_id(), "/org/chromium/bluetooth/client/adapter");
}

#[test]
fn device_table_insert_reports_change() {
    let mut table = DeviceTable::new();
    assert!(table.is_empty());
    assert!(table.insert_if_absent(device("AA:BB", "One")));
    assert!(!table.insert_if_absent(device("AA:BB", "Two")));
    assert!(table.insert_if_absent(device("AA:BC", "Two")));
    assert_eq!(table.len(), 2);
    assert!(!table.is_empty());
    assert_eq!(table.get(&key("AA:BB")), Some(&device("AA:BB", "One")));
    assert_eq!(table.devices(), vec![device("AA:BB", "One"), device("AA:BC", "Two")]);
    table.clear();
    assert_eq!(table.len(), 0);
    assert_eq!(table.devices(), Vec::<BluetoothDevice>::new());
    assert!(table.insert_if_absent(device("AA:BB", "Two")));
    assert_eq!(table.get(&key("AA:BB")).unwrap().name, "Two");
}

#[test]
fn device_clone_and_same_address() {
    let d = device("AA:BB", "X");
    let copy = d.clone();
    assert_eq!(copy, d);
    assert!(d.same_address(&device("AA:BB", "Y")));
    assert!(!d.same_address(&device("aa:bb", "X")));
}
