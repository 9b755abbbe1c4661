use bulk_mint::bootstrap::config_event_tag_of;
use bulk_mint::events::{burn_event_tag, mint_event_tag, search_single_event_data};
use bulk_mint::{
    create_collection_call, get_module_id, on_activate_finalized, on_create_finalized, read_collection_config,
    AccountAddress, BootstrapError, ContractEvent, EventError, Identifier, ModuleId,
    NftBurnSignedTransactionBuilder, NftMintSignedTransactionBuilder, TransactionOutcome,
};

fn addr(last: u8) -> AccountAddress {
    let mut b = [0u8; 32];
    b[31] = last;
    AccountAddress::new(b)
}

fn long(last: &str) -> String {
    format!("0x{}{}", "0".repeat(64 - last.len()), last)
}

fn bare(last: &str) -> String {
    format!("{}{}", "0".repeat(64 - last.len()), last)
}

fn module() -> ModuleId {
    get_module_id(addr(0xAB), "only_on_aptos").unwrap()
}

fn mint_event(collection: u8, index: u64, token: u8) -> ContractEvent {
    let mut data = addr(collection).bytes.to_vec();
    data.extend_from_slice(&index.to_le_bytes());
    data.extend_from_slice(&addr(token).bytes);
    ContractEvent { type_tag: mint_event_tag(), data }
}

fn burn_event(collection: u8, token: u8, owner: u8) -> ContractEvent {
    let mut data = addr(collection).bytes.to_vec();
    data.extend_from_slice(&7u64.to_le_bytes());
    data.extend_from_slice(&addr(token).bytes);
    data.extend_from_slice(&addr(owner).bytes);
    ContractEvent { type_tag: burn_event_tag(), data }
}

fn outcome(success: bool, events: Vec<ContractEvent>, sender: u8) -> TransactionOutcome {
    TransactionOutcome { success, events, sender: addr(sender) }
}

fn mint_builder(collection: u8) -> NftMintSignedTransactionBuilder {
    NftMintSignedTransactionBuilder::new(addr(0xAB), "only_on_aptos", "mint_to_recipient", addr(collection)).unwrap()
}

fn burn_builder(admin: u8) -> NftBurnSignedTransactionBuilder {
    NftBurnSignedTransactionBuilder::new(addr(0xAB), "only_on_aptos", "burn_with_admin_worker", addr(admin)).unwrap()
}

#[test]
fn address_forms() {
    assert_eq!(addr(0).to_standard_string(), "0x0");
    assert_eq!(addr(0xf).to_standard_string(), "0xf");
    assert_eq!(addr(0x10).to_standard_string(), long("10"));
    assert_eq!(addr(0xC1).to_hex(), bare("c1"));
    let mut b = [0u8; 32];
    b[0] = 1;
    assert_eq!(AccountAddress::new(b).to_standard_string(), format!("0x01{}", "0".repeat(62)));
}

#[test]
fn resolve_is_repeatable() {
    let a = get_module_id(addr(0xAB), "only_on_aptos").unwrap();
    let b = get_module_id(addr(0xAB), "only_on_aptos").unwrap();
    assert!(a.address.same_as(&b.address));
    assert_eq!(a.name.as_str(), b.name.as_str());
    assert_eq!(a.name.as_str(), "only_on_aptos");
}

#[test]
fn invalid_identifiers_are_rejected() {
    assert!(get_module_id(addr(1), "9lives").is_err());
    assert!(get_module_id(addr(1), "").is_err());
    assert!(get_module_id(addr(1), "_").is_err());
    assert!(get_module_id(addr(1), "has-dash").is_err());
    assert!(get_module_id(addr(1), "_ok1").is_ok());
    assert!(get_module_id(addr(1), "<SELF>").is_ok());
    let e = Identifier::new("bad name").err().unwrap();
    assert_eq!(e.name, "bad name");
    assert!(NftMintSignedTransactionBuilder::new(addr(1), "m", "1x", addr(2)).is_err());
    assert!(NftBurnSignedTransactionBuilder::new(addr(1), "m m", "f", addr(2)).is_err());
}

#[test]
fn mint_build_encodes_collection_then_recipient() {
    let r = mint_builder(0xC1).build(&addr(0xA1), &addr(0x55));
    assert!(r.sender.same_as(&addr(0x55)));
    assert!(r.secondary_signers.is_empty());
    assert_eq!(r.payload.function.as_str(), "mint_to_recipient");
    assert_eq!(r.payload.module.name.as_str(), "only_on_aptos");
    assert_eq!(r.payload.args, vec![addr(0xC1).bytes.to_vec(), addr(0xA1).bytes.to_vec()]);
}

#[test]
fn burn_build_encodes_collection_then_token_with_admin_cosigner() {
    let r = burn_builder(0xAD).build(&(addr(0xB1), addr(0xC1)), &addr(0xA3));
    assert!(r.sender.same_as(&addr(0xA3)));
    assert_eq!(r.secondary_signers.len(), 1);
    assert!(r.secondary_signers[0].same_as(&addr(0xAD)));
    assert_eq!(r.payload.function.as_str(), "burn_with_admin_worker");
    assert_eq!(r.payload.args, vec![addr(0xC1).bytes.to_vec(), addr(0xB1).bytes.to_vec()]);
}

#[test]
fn mint_scenario_success() {
    let out = Some(outcome(true, vec![mint_event(0xC1, 3, 0xFF)], 0x55));
    let line = mint_builder(0xC1).success_output(&addr(0xA1), &out);
    assert_eq!(line, format!("{}\t{}\t{}\tsuccess", long("ff"), long("c1"), bare("a1")));
}

#[test]
fn mint_scenario_missing() {
    let line = mint_builder(0xC1).success_output(&addr(0xA2), &None);
    assert_eq!(line, format!("\t{}\t{}\tmissing", long("c1"), bare("a2")));
}

#[test]
fn burn_scenario_success() {
    let out = Some(outcome(true, vec![burn_event(0xC1, 0xB1, 0xA3)], 0xA3));
    let line = burn_builder(0xAD).success_output(&(addr(0xB1), addr(0xC1)), &out);
    assert_eq!(line, format!("{}\t{}\t{}\tsuccess", long("a3"), long("b1"), long("c1")));
}

#[test]
fn burn_scenario_missing() {
    let line = burn_builder(0xAD).success_output(&(addr(0xB1), addr(0xC1)), &None);
    assert_eq!(line, format!("\t{}\t{}\tmissing", long("b1"), long("c1")));
}

#[test]
fn event_absent_gives_error_status() {
    let out = Some(outcome(false, vec![], 0x55));
    let line = mint_builder(0xC1).success_output(&addr(0xA1), &out);
    assert_eq!(line, format!("\t{}\t{}\tevent not found", long("c1"), bare("a1")));
    let line = burn_builder(0xAD).success_output(&(addr(0xB1), addr(0xC1)), &out);
    assert_eq!(line, format!("\t{}\t{}\tevent not found", long("b1"), long("c1")));
}

#[test]
fn ambiguous_and_malformed_events_give_error_status() {
    let two = Some(outcome(true, vec![mint_event(0xC1, 1, 0xF1), mint_event(0xC1, 2, 0xF2)], 0x55));
    let line = mint_builder(0xC1).success_output(&addr(0xA1), &two);
    assert_eq!(line, format!("\t{}\t{}\tmore than one matching event", long("c1"), bare("a1")));
    let mut bad = mint_event(0xC1, 1, 0xF1);
    bad.data.pop();
    let line = mint_builder(0xC1).success_output(&addr(0xA1), &Some(outcome(true, vec![bad], 0x55)));
    assert_eq!(line, format!("\t{}\t{}\tevent payload could not be decoded", long("c1"), bare("a1")));
    // a mint event does not satisfy a burn search
    let out = Some(outcome(true, vec![mint_event(0xC1, 1, 0xF1)], 0xA3));
    let line = burn_builder(0xAD).success_output(&(addr(0xB1), addr(0xC1)), &out);
    assert!(line.ends_with("\tevent not found"));
}

#[test]
fn every_line_has_four_fields() {
    let outs = vec![
        None,
        Some(outcome(true, vec![], 1)),
        Some(outcome(true, vec![mint_event(0xC1, 1, 0xF1)], 1)),
        Some(outcome(true, vec![burn_event(0xC1, 0xB1, 2)], 2)),
    ];
    for o in &outs {
        let m = mint_builder(0xC1).success_output(&addr(0xA1), o);
        assert_eq!(m.split('\t').count(), 4);
        let b = burn_builder(0xAD).success_output(&(addr(0xB1), addr(0xC1)), o);
        assert_eq!(b.split('\t').count(), 4);
    }
}

#[test]
fn search_counts_matches() {
    let events = vec![mint_event(1, 1, 2), burn_event(1, 2, 3)];
    assert_eq!(search_single_event_data(&events, &burn_event_tag()).unwrap().len(), 104);
    assert_eq!(search_single_event_data(&vec![], &burn_event_tag()).err(), Some(EventError::NotFound));
    let events = vec![burn_event(1, 2, 3), burn_event(1, 2, 3)];
    assert_eq!(search_single_event_data(&events, &burn_event_tag()).err(), Some(EventError::Ambiguous));
}

#[test]
fn create_collection_arguments() {
    let m = module();
    let call = create_collection_call(&m, "abcdefghij");
    assert_eq!(call.function.as_str(), "create_collection");
    assert_eq!(call.args.len(), 14);
    let mut name = vec![26u8];
    name.extend_from_slice(b"Test Collection abcdefghij");
    assert_eq!(call.args[0], name);
    let mut desc = vec![22u8];
    desc.extend_from_slice(b"collection description");
    assert_eq!(call.args[1], desc);
    assert_eq!(call.args[3][0], 12);
    let mut uris = vec![2u8, 22u8];
    uris.extend_from_slice(b"htpps://some.uri1.test");
    uris.push(22);
    uris.extend_from_slice(b"htpps://some.uri2.test");
    assert_eq!(call.args[5], uris);
    assert_eq!(call.args[6], vec![2, 10, 0, 0, 0, 0, 0, 0, 0, 1, 0, 0, 0, 0, 0, 0, 0]);
    assert_eq!(call.args[7], vec![1]);
    assert_eq!(call.args[10], vec![0]);
    assert_eq!(call.args[11], vec![1, 0x40, 0x42, 0x0f, 0, 0, 0, 0, 0]);
    assert_eq!(call.args[12], vec![0]);
    assert_eq!(call.args[13], vec![0]);
}

#[test]
fn long_collection_name_length_prefix() {
    let suffix = "x".repeat(200);
    let call = create_collection_call(&module(), &suffix);
    assert_eq!(&call.args[0][..2], &[216u8, 1u8]);
    assert_eq!(call.args[0].len(), 218);
}

fn config_event(m: &ModuleId, config: u8, collection: u8, ready: u8) -> ContractEvent {
    let mut data = addr(config).bytes.to_vec();
    data.extend_from_slice(&addr(collection).bytes);
    data.push(ready);
    ContractEvent { type_tag: config_event_tag_of(m), data }
}

#[test]
fn bootstrap_activates_the_reported_collection() {
    let m = module();
    let created = outcome(true, vec![mint_event(1, 1, 1), config_event(&m, 0xCC, 0xC0, 0)], 0xAD);
    let (target, call) = on_create_finalized(&m, &created).unwrap();
    assert!(target.same_as(&addr(0xCC)));
    assert_eq!(call.function.as_str(), "set_minting_status");
    assert_eq!(call.args, vec![addr(0xCC).bytes.to_vec(), vec![1u8]]);
    let done = on_activate_finalized(target, &outcome(true, vec![], 0xAD)).unwrap();
    assert!(done.same_as(&addr(0xCC)));
    let config = read_collection_config(&created.events, &m).unwrap();
    assert!(config.collection.same_as(&addr(0xC0)));
    assert!(!config.ready_to_mint);
}

#[test]
fn bootstrap_stops_without_the_config_event() {
    let m = module();
    let created = outcome(true, vec![mint_event(1, 1, 1)], 0xAD);
    assert_eq!(on_create_finalized(&m, &created).err(), Some(BootstrapError::Event(EventError::NotFound)));
    let other = get_module_id(addr(0xAB), "other_module").unwrap();
    let created = outcome(true, vec![config_event(&other, 0xCC, 0xC0, 1)], 0xAD);
    assert_eq!(on_create_finalized(&m, &created).err(), Some(BootstrapError::Event(EventError::NotFound)));
    let created = outcome(true, vec![config_event(&m, 0xCC, 0xC0, 2)], 0xAD);
    assert_eq!(on_create_finalized(&m, &created).err(), Some(BootstrapError::Event(EventError::Decode)));
}

#[test]
fn bootstrap_rejections() {
    let m = module();
    let created = outcome(false, vec![config_event(&m, 0xCC, 0xC0, 1)], 0xAD);
    assert_eq!(on_create_finalized(&m, &created).err(), Some(BootstrapError::TransactionRejected));
    assert_eq!(
        on_activate_finalized(addr(0xCC), &outcome(false, vec![], 0xAD)).err(),
        Some(BootstrapError::TransactionRejected)
    );
}
