use dna_help::latest::{
    entry_and_hash, get_header_hash, keep_found, latest_entry_and_hash, latest_header_hash,
    Details, ElementRecord, EntryDetails, EntryDhtStatus, HeaderKind, HeaderRecord,
};
use dna_help::signals::{receive_signal_cap_grant, CapAccess};
use dna_help::validation::{resolve_dependency, Error, ResolvedDependency, ValidateCallbackResult};

fn header(byte: u8, secs: i64) -> HeaderRecord {
    HeaderRecord { header_hash: vec![byte], timestamp_secs: secs }
}

fn entry_details(
    headers: Vec<HeaderRecord>,
    updates: Vec<HeaderRecord>,
    status: EntryDhtStatus,
) -> Option<Details> {
    Some(Details::Entry(EntryDetails { headers, updates, entry_dht_status: status }))
}

#[test]
fn header_hash_is_read_from_the_header() {
    assert_eq!(get_header_hash(header(9, 1)), vec![9]);
}

#[test]
fn live_entry_without_updates_follows_its_first_header() {
    let d = entry_details(vec![header(1, 10), header(2, 20)], vec![], EntryDhtStatus::Live);
    assert_eq!(latest_header_hash(&d), Some(vec![1]));
}

#[test]
fn live_entry_follows_its_newest_update() {
    let d = entry_details(
        vec![header(1, 10)],
        vec![header(2, 30), header(3, 50), header(4, 40)],
        EntryDhtStatus::Live,
    );
    assert_eq!(latest_header_hash(&d), Some(vec![3]));
}

#[test]
fn updates_with_equal_timestamps_resolve_to_the_last_listed() {
    let d = entry_details(
        vec![header(1, 10)],
        vec![header(2, 50), header(3, 20), header(4, 50), header(5, 49)],
        EntryDhtStatus::Live,
    );
    assert_eq!(latest_header_hash(&d), Some(vec![4]));
}

#[test]
fn dead_or_pending_entries_have_no_latest_header() {
    let dead = entry_details(vec![header(1, 10)], vec![header(2, 20)], EntryDhtStatus::Dead);
    assert_eq!(latest_header_hash(&dead), None);
    let pending = entry_details(vec![header(1, 10)], vec![], EntryDhtStatus::Pending);
    assert_eq!(latest_header_hash(&pending), None);
    assert_eq!(latest_header_hash(&None), None);
    assert_eq!(latest_header_hash(&Some(Details::Element)), None);
}

fn element(header: HeaderKind) -> ElementRecord {
    ElementRecord { header_address: vec![7], header, entry_hash: Some(vec![8]) }
}

#[test]
fn an_update_reports_its_original_header() {
    let e = element(HeaderKind::Update { original_header_address: vec![6] });
    assert_eq!(entry_and_hash("x", e), ("x", vec![6], vec![8]));
}

#[test]
fn a_create_reports_its_own_header() {
    assert_eq!(entry_and_hash(5u32, element(HeaderKind::Create)), (5u32, vec![7], vec![8]));
}

#[test]
fn latest_entry_outcomes() {
    let none: Option<(ElementRecord, Result<Option<u32>, String>)> = None;
    assert_eq!(latest_entry_and_hash(none), Ok(None));
    assert_eq!(
        latest_entry_and_hash(Some((element(HeaderKind::Create), Ok::<Option<u32>, String>(None)))),
        Ok(None)
    );
    assert_eq!(
        latest_entry_and_hash(Some((element(HeaderKind::Other), Ok::<Option<u32>, String>(None)))),
        Ok(None)
    );
    assert_eq!(
        latest_entry_and_hash(Some((
            element(HeaderKind::Create),
            Err::<Option<u32>, String>("bad bytes".to_string())
        ))),
        Err("bad bytes".to_string())
    );
    assert_eq!(
        latest_entry_and_hash(Some((
            element(HeaderKind::Update { original_header_address: vec![6] }),
            Ok::<Option<u32>, String>(Some(3))
        ))),
        Ok(Some((3, vec![6], vec![8])))
    );
}

#[test]
fn link_walk_keeps_found_entries_in_order() {
    let results: Vec<Result<Option<u32>, String>> =
        vec![Ok(Some(1)), Err("no".to_string()), Ok(None), Ok(Some(2)), Ok(Some(3)), Err("x".to_string())];
    assert_eq!(keep_found(results), vec![1, 2, 3]);
    let empty: Vec<Result<Option<u32>, String>> = vec![];
    assert_eq!(keep_found(empty), Vec::<u32>::new());
}

#[test]
fn error_message_and_validation_result() {
    assert_eq!(Error::EntryMissing.to_string(), "Element missing its Entry");
    match ValidateCallbackResult::from(Error::EntryMissing) {
        ValidateCallbackResult::Invalid(m) => assert_eq!(m, "Element missing its Entry"),
        other => panic!("unexpected {:?}", other),
    }
}

#[test]
fn missing_dependency_is_unresolved() {
    let r = resolve_dependency::<u8, u32>(vec![4, 2], None);
    match r {
        Err(ValidateCallbackResult::UnresolvedDependencies(missing)) => {
            assert_eq!(missing, vec![vec![4, 2]])
        }
        _ => panic!("expected an unresolved dependency"),
    }
}

#[test]
fn dependency_without_entry_is_invalid() {
    match resolve_dependency::<u8, u32>(vec![1], Some((9, Ok(None)))) {
        Err(ValidateCallbackResult::Invalid(m)) => assert_eq!(m, "Element missing its Entry"),
        _ => panic!("expected EntryMissing"),
    }
}

#[test]
fn dependency_that_does_not_read_is_invalid_with_the_read_error() {
    match resolve_dependency::<u8, u32>(vec![1], Some((9, Err("Deserialize(x)".to_string())))) {
        Err(ValidateCallbackResult::Invalid(m)) => assert_eq!(m, "Deserialize(x)"),
        _ => panic!("expected the read error"),
    }
}

#[test]
fn resolved_dependency_carries_element_and_entry() {
    match resolve_dependency::<u8, u32>(vec![1], Some((9, Ok(Some(77))))) {
        Ok(ResolvedDependency(e, o)) => {
            assert_eq!(e, 9);
            assert_eq!(o, 77);
        }
        _ => panic!("expected a resolved dependency"),
    }
}

#[test]
fn signal_grant_opens_recv_remote_signal_to_all() {
    let grant = receive_signal_cap_grant("projects".to_string());
    assert_eq!(grant.tag, "");
    assert_eq!(grant.access, CapAccess::Unrestricted);
    assert_eq!(grant.functions, vec![("projects".to_string(), "recv_remote_signal".to_string())]);
}
