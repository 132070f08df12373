use dna_help::hashes::{is_agent_pub_key_bytes, is_entry_hash_bytes, is_header_hash_bytes, UIStringHash, WrappedAgentPubKey, WrappedEntryHash, WrappedHeaderHash};
use hdk::prelude::{AgentPubKey, EntryHash, HeaderHash};

fn agent() -> AgentPubKey {
    AgentPubKey::from_raw_32(vec![0xdb; 32])
}

fn header_hash() -> HeaderHash {
    HeaderHash::from_raw_32(vec![0x11; 32])
}

fn entry_hash() -> EntryHash {
    EntryHash::from_raw_32(vec![0x2a; 32])
}

#[test]
fn agent_key_reads_from_its_string() {
    let key = agent();
    let text = key.to_string();
    assert!(text.starts_with("uhCAk"));
    let wrapped = WrappedAgentPubKey::try_from(UIStringHash(text.clone())).unwrap();
    assert_eq!(wrapped.raw().as_slice(), key.get_raw_39());
}

#[test]
fn agent_key_writes_its_string() {
    let key = agent();
    let wrapped = WrappedAgentPubKey::new(key.get_raw_39().to_vec());
    let ui = UIStringHash::from(wrapped);
    assert_eq!(ui.0, key.to_string());
    assert_ne!(ui.0.as_bytes(), key.get_raw_39());
}

#[test]
fn agent_key_round_trips_through_its_string() {
    let text = agent().to_string();
    let wrapped = WrappedAgentPubKey::try_from(UIStringHash(text.clone())).unwrap();
    let back = UIStringHash::from(wrapped.clone());
    assert_eq!(back.0, text);
    let again = WrappedAgentPubKey::try_from(back).unwrap();
    assert_eq!(again.raw(), wrapped.raw());
}

#[test]
fn header_and_entry_hashes_round_trip() {
    let h = header_hash();
    let wh = WrappedHeaderHash::try_from(UIStringHash(h.to_string())).unwrap();
    assert_eq!(wh.raw().as_slice(), h.get_raw_39());
    assert_eq!(UIStringHash::from(wh).0, h.to_string());
    let e = entry_hash();
    let we = WrappedEntryHash::try_from(UIStringHash(e.to_string())).unwrap();
    assert_eq!(we.raw().as_slice(), e.get_raw_39());
    assert_eq!(UIStringHash::from(we).0, e.to_string());
    assert_eq!(
        UIStringHash::from(WrappedHeaderHash::new(h.get_raw_39().to_vec())).0,
        h.to_string()
    );
    assert_eq!(
        UIStringHash::from(WrappedEntryHash::new(e.get_raw_39().to_vec())).0,
        e.to_string()
    );
}

#[test]
fn string_without_u_is_refused() {
    let err = WrappedAgentPubKey::try_from(UIStringHash("xhCAk".to_string())).unwrap_err();
    assert_eq!(err, "NoU");
}

#[test]
fn string_of_wrong_size_is_refused() {
    let err = WrappedEntryHash::try_from(UIStringHash("uAAAA".to_string())).unwrap_err();
    assert_eq!(err, "BadSize");
}

#[test]
fn string_that_is_not_base64_is_refused() {
    let err = WrappedHeaderHash::try_from(UIStringHash("u!!!!".to_string())).unwrap_err();
    assert_eq!(err, "BadBase64");
}

#[test]
fn hash_of_another_kind_is_refused() {
    let err = WrappedAgentPubKey::try_from(UIStringHash(header_hash().to_string())).unwrap_err();
    assert_eq!(err, "BadPrefix(\"[132, 32, 36]\", [132, 41, 36])");
}

#[test]
fn hash_with_bad_location_bytes_is_refused() {
    let mut raw = agent().get_raw_39().to_vec();
    raw[38] ^= 0xff;
    let text = AgentPubKey::from_raw_39_panicky(raw).to_string();
    let err = WrappedAgentPubKey::try_from(UIStringHash(text)).unwrap_err();
    assert_eq!(err, "BadChecksum");
}

#[test]
fn raw_bytes_are_checked_for_kind_and_length() {
    let a = agent().get_raw_39().to_vec();
    let h = header_hash().get_raw_39().to_vec();
    let e = entry_hash().get_raw_39().to_vec();
    assert!(is_agent_pub_key_bytes(&a) && !is_header_hash_bytes(&a) && !is_entry_hash_bytes(&a));
    assert!(is_header_hash_bytes(&h) && !is_agent_pub_key_bytes(&h) && !is_entry_hash_bytes(&h));
    assert!(is_entry_hash_bytes(&e) && !is_agent_pub_key_bytes(&e) && !is_header_hash_bytes(&e));
    assert!(!is_agent_pub_key_bytes(&a[..38].to_vec()));
    assert!(!is_agent_pub_key_bytes(&vec![]));
}

#[test]
fn a_printed_hash_is_refused_as_the_other_kinds() {
    let ui = UIStringHash::from(WrappedEntryHash::new(entry_hash().get_raw_39().to_vec()));
    assert!(WrappedAgentPubKey::try_from(ui.clone()).is_err());
    assert!(WrappedHeaderHash::try_from(ui.clone()).is_err());
    assert!(WrappedEntryHash::try_from(ui).is_ok());
}
