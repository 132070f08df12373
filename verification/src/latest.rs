//! Finding the latest version of an entry. The DHT lookups are the
//! caller's; this module decides, from what they returned, which header to
//! follow and what to hand back, and filters the results of a link walk.
use vstd::prelude::*;

verus! {

/// The status of an entry in the DHT, as the node sees it.
#[derive(Debug, Clone, Copy, PartialEq, Eq, Structural)]
pub enum EntryDhtStatus {
    Live,
    Dead,
    Pending,
    Rejected,
    Abandoned,
    Conflict,
    Withdrawn,
    Purged,
}

/// What the lookup reads of a signed header: its hash and the seconds
/// part of its timestamp.
#[derive(Debug)]
pub struct HeaderRecord {
    pub header_hash: Vec<u8>,
    pub timestamp_secs: i64,
}

impl Clone for HeaderRecord {
    fn clone(&self) -> (c: Self)
        ensures
            c.header_hash@ == self.header_hash@,
            c.timestamp_secs == self.timestamp_secs,
    {
        HeaderRecord { header_hash: self.header_hash.clone(), timestamp_secs: self.timestamp_secs }
    }
}

/// What the lookup reads of the details of an entry: the headers that
/// created it, the headers that update it, and its status.
#[derive(Debug, Clone)]
pub struct EntryDetails {
    pub headers: Vec<HeaderRecord>,
    pub updates: Vec<HeaderRecord>,
    pub entry_dht_status: EntryDhtStatus,
}

/// The details the DHT returns: of a single element, or of an entry.
#[derive(Debug, Clone)]
pub enum Details {
    Element,
    Entry(EntryDetails),
}

/// The header of a fetched element, as far as the lookup reads it.
#[derive(Debug, Clone)]
pub enum HeaderKind {
    Create,
    Update { original_header_address: Vec<u8> },
    Other,
}

/// What the lookup reads of a fetched element.
#[derive(Debug, Clone)]
pub struct ElementRecord {
    pub header_address: Vec<u8>,
    pub header: HeaderKind,
    pub entry_hash: Option<Vec<u8>>,
}

/// The hash of a signed header.
pub fn get_header_hash(shh: HeaderRecord) -> (h: Vec<u8>)
    ensures
        h@ == shh.header_hash@,
{
    shh.header_hash
}

/// Update `i` is the latest: no update is newer, and every update listed
/// after it is strictly older (of updates with the same timestamp, the one
/// listed last wins).
pub open spec fn is_latest(updates: Seq<HeaderRecord>, i: int) -> bool {
    &&& 0 <= i < updates.len()
    &&& forall|j: int| 0 <= j < updates.len() ==> #[trigger] updates[j].timestamp_secs <= updates[i].timestamp_secs
    &&& forall|j: int| i < j < updates.len() ==> #[trigger] updates[j].timestamp_secs < updates[i].timestamp_secs
}

/// A live entry without updates must have a creating header to fall back on.
pub open spec fn has_header_to_follow(details: Option<Details>) -> bool {
    match details {
        Some(Details::Entry(d)) => d.entry_dht_status == EntryDhtStatus::Live && d.updates@.len()
            == 0 ==> d.headers@.len() > 0,
        _ => true,
    }
}

/// The hash `h` (if any) is the header to follow for the given details: for
/// a live entry, the latest update if there is one, else the first creating
/// header; for anything else, none.
pub open spec fn is_header_to_follow(details: Option<Details>, h: Option<Seq<u8>>) -> bool {
    match details {
        Some(Details::Entry(d)) => if d.entry_dht_status != EntryDhtStatus::Live {
            h is None
        } else if d.updates@.len() == 0 {
            h == Some(d.headers@[0].header_hash@)
        } else {
            exists|i: int| is_latest(d.updates@, i) && h == Some(#[trigger] d.updates@[i].header_hash@)
        },
        _ => h is None,
    }
}

/// The view of an optional hash.
pub open spec fn hash_view(h: Option<Vec<u8>>) -> Option<Seq<u8>> {
    match h {
        Some(v) => Some(v@),
        None => None,
    }
}

/// Law: at most one update is the latest.
pub proof fn lemma_latest_is_unique(updates: Seq<HeaderRecord>, i: int, k: int)
    requires
        is_latest(updates, i),
        is_latest(updates, k),
    ensures
        i == k,
{
    if i < k {
        assert(updates[k].timestamp_secs < updates[i].timestamp_secs);
        assert(updates[k].timestamp_secs <= updates[i].timestamp_secs);
        assert(updates[i].timestamp_secs <= updates[k].timestamp_secs);
    } else if k < i {
        assert(updates[i].timestamp_secs < updates[k].timestamp_secs);
        assert(updates[k].timestamp_secs <= updates[i].timestamp_secs);
    }
}

/// The index of the latest update of a non-empty list.
fn latest_update_index(updates: &Vec<HeaderRecord>) -> (i: usize)
    requires
        updates@.len() > 0,
    ensures
        is_latest(updates@, i as int),
{
    let mut best: usize = 0;
    let mut k: usize = 1;
    while k < updates.len()
        invariant
            1 <= k <= updates@.len(),
            is_latest(updates@.take(k as int), best as int),
        decreases updates@.len() - k,
    {
        let ghost prev = updates@.take(k as int);
        let ghost next = updates@.take(k + 1);
        assert(forall|j: int| 0 <= j < k ==> next[j] == prev[j]);
        if updates[k].timestamp_secs >= updates[best].timestamp_secs {
            best = k;
        }
        k = k + 1;
    }
    assert(updates@.take(k as int) =~= updates@);
    best
}

/// The header whose element holds the latest version of the entry: for a
/// live entry, the latest update if it has any, else the first creating
/// header; nothing for any other status or kind of details.
pub fn latest_header_hash(details: &Option<Details>) -> (r: Option<Vec<u8>>)
    requires
        has_header_to_follow(*details),
    ensures
        is_header_to_follow(*details, hash_view(r)),
{
    match details {
        Some(Details::Entry(d)) => {
            match d.entry_dht_status {
                EntryDhtStatus::Live => {
                    if d.updates.len() == 0 {
                        let h = get_header_hash(d.headers[0].clone());
                        Some(h)
                    } else {
                        let i = latest_update_index(&d.updates);
                        let h = get_header_hash(d.updates[i].clone());
                        Some(h)
                    }
                },
                _ => None,
            }
        },
        _ => None,
    }
}

/// The element carries an entry: its header creates or updates one, so it
/// names the entry's hash.
pub open spec fn is_entry_element(element: ElementRecord) -> bool {
    !(element.header is Other) && element.entry_hash is Some
}

/// The header address handed back for an element: for an update, the
/// header it updates (the original); for a create, its own address.
pub open spec fn original_header_address(element: ElementRecord) -> Seq<u8> {
    match element.header {
        HeaderKind::Update { original_header_address } => original_header_address@,
        _ => element.header_address@,
    }
}

/// The entry with the address of its original header and its entry hash.
pub fn entry_and_hash<T>(entry: T, element: ElementRecord) -> (r: (T, Vec<u8>, Vec<u8>))
    requires
        is_entry_element(element),
    ensures
        r.0 == entry,
        r.1@ == original_header_address(element),
        r.2@ == element.entry_hash->0@,
{
    let ElementRecord { header_address, header, entry_hash } = element;
    let header_address = match header {
        HeaderKind::Update { original_header_address } => original_header_address,
        _ => header_address,
    };
    (entry, header_address, entry_hash.unwrap())
}

/// What the lookup of the latest version hands back, given the element
/// fetched at the latest header (if any) and the app entry read from it:
/// nothing when no element was found or it holds no app entry, the read
/// error when the entry did not deserialize, else the entry with its
/// original header address and entry hash.
pub fn latest_entry_and_hash<T, E>(fetched: Option<(ElementRecord, Result<Option<T>, E>)>) -> (r:
    Result<Option<(T, Vec<u8>, Vec<u8>)>, E>)
    requires
        fetched matches Some((element, Ok(Some(_)))) ==> is_entry_element(element),
    ensures
        match fetched {
            None => r matches Ok(None),
            Some((_, Err(e))) => r == Err::<Option<(T, Vec<u8>, Vec<u8>)>, E>(e),
            Some((_, Ok(None))) => r matches Ok(None),
            Some((element, Ok(Some(entry)))) => r matches Ok(Some(found)) && found.0 == entry
                && found.1@ == original_header_address(element) && found.2@
                == element.entry_hash->0@,
        },
{
    match fetched {
        None => Ok(None),
        Some((element, read)) => match read {
            Err(e) => Err(e),
            Ok(None) => Ok(None),
            Ok(Some(entry)) => Ok(Some(entry_and_hash(entry, element))),
        },
    }
}

/// The entries found by a walk over links, in link order: the results that
/// succeeded with an entry; failed lookups and missing entries are dropped.
pub open spec fn found_entries<E, Er>(results: Seq<Result<Option<E>, Er>>) -> Seq<E>
    decreases results.len(),
{
    if results.len() == 0 {
        Seq::empty()
    } else {
        let rest = found_entries(results.drop_last());
        match results.last() {
            Ok(Some(e)) => rest.push(e),
            _ => rest,
        }
    }
}

/// Keeps the entries that were found, in order.
pub fn keep_found<E, Er>(results: Vec<Result<Option<E>, Er>>) -> (found: Vec<E>)
    ensures
        found@ == found_entries(results@),
{
    let ghost all = results@;
    let ghost mut taken: Seq<Result<Option<E>, Er>> = Seq::empty();
    let mut found: Vec<E> = Vec::new();
    let mut rest = results;
    while rest.len() > 0
        invariant
            all == taken + rest@,
            found@ == found_entries(taken),
        decreases rest@.len(),
    {
        let r = rest.remove(0);
        proof {
            let before = taken;
            taken = taken.push(r);
            assert(taken.drop_last() =~= before);
        }
        match r {
            Ok(Some(e)) => {
                found.push(e);
            },
            _ => {},
        }
    }
    assert(taken =~= all);
    found
}

/// Law: for a live entry with updates, the header followed is that of an
/// update with no later timestamp anywhere in the whole list of updates,
/// and every update listed after it is strictly older.
pub proof fn law_live_entry_follows_newest_update(d: EntryDetails, h: Option<Seq<u8>>)
    requires
        is_header_to_follow(Some(Details::Entry(d)), h),
        d.entry_dht_status == EntryDhtStatus::Live,
        d.updates@.len() > 0,
    ensures
        exists|i: int|
            0 <= i < d.updates@.len() && h == Some(#[trigger] d.updates@[i].header_hash@) && (
            forall|j: int|
                0 <= j < d.updates@.len() ==> d.updates@[j].timestamp_secs
                    <= d.updates@[i].timestamp_secs) && (forall|j: int|
                i < j < d.updates@.len() ==> d.updates@[j].timestamp_secs
                    < d.updates@[i].timestamp_secs),
{
}

/// Law: for a live entry without updates, the header followed is its first
/// creating header.
pub proof fn law_live_entry_without_updates_follows_first_header(d: EntryDetails, h: Option<Seq<u8>>)
    requires
        is_header_to_follow(Some(Details::Entry(d)), h),
        d.entry_dht_status == EntryDhtStatus::Live,
        d.updates@.len() == 0,
    ensures
        h == Some(d.headers@[0].header_hash@),
{
}

/// Law: nothing is followed for an entry that is not live, nor for details
/// that are not of an entry.
pub proof fn law_no_header_unless_live(details: Option<Details>, h: Option<Seq<u8>>)
    requires
        is_header_to_follow(details, h),
        !(details matches Some(Details::Entry(d)) && d.entry_dht_status == EntryDhtStatus::Live),
    ensures
        h is None,
{
}

/// Law: the header followed does not depend on the order in which the
/// updates are listed, as long as their timestamps are distinct: it is the
/// update with the greatest timestamp.
pub proof fn law_latest_is_the_greatest_timestamp(updates: Seq<HeaderRecord>, i: int, k: int)
    requires
        is_latest(updates, i),
        0 <= k < updates.len(),
        forall|j: int| 0 <= j < updates.len() ==> updates[j].timestamp_secs <= updates[k].timestamp_secs,
        forall|j: int| 0 <= j < updates.len() && j != k ==> updates[j].timestamp_secs < updates[k].timestamp_secs,
    ensures
        i == k,
{
    assert(updates[k].timestamp_secs <= updates[i].timestamp_secs);
    if i != k {
        assert(updates[i].timestamp_secs < updates[k].timestamp_secs);
    }
}

/// Law: an element whose header is an update reports the header that the
/// update replaces, never its own address (unless they are the same).
pub proof fn law_update_reports_its_original_header(element: ElementRecord)
    requires
        element.header is Update,
    ensures
        original_header_address(element) == element.header->original_header_address@,
{
}

/// Law: an element whose header is a create reports its own address.
pub proof fn law_create_reports_its_own_header(element: ElementRecord)
    requires
        element.header is Create,
    ensures
        original_header_address(element) == element.header_address@,
{
}

/// Law: a single found entry is kept; a single failed or empty lookup keeps
/// nothing.
pub proof fn law_found_single<E, Er>(r: Result<Option<E>, Er>)
    ensures
        found_entries(seq![r]) == (match r {
            Ok(Some(e)) => seq![e],
            _ => Seq::<E>::empty(),
        }),
{
    let single = seq![r];
    assert(single.drop_last() =~= Seq::<Result<Option<E>, Er>>::empty());
    assert(single.last() == r);
    assert(found_entries(single.drop_last()) == Seq::<E>::empty());
    match r {
        Ok(Some(e)) => {
            assert(Seq::<E>::empty().push(e) =~= seq![e]);
        },
        _ => {},
    }
}

/// Law: the entries found by two walks run one after the other are those of
/// the first followed by those of the second.
pub proof fn law_found_concatenates<E, Er>(a: Seq<Result<Option<E>, Er>>, b: Seq<Result<Option<E>, Er>>)
    ensures
        found_entries(a + b) == found_entries(a) + found_entries(b),
    decreases b.len(),
{
    if b.len() == 0 {
        assert(a + b =~= a);
        assert(found_entries(a) + found_entries(b) =~= found_entries(a));
    } else {
        law_found_concatenates(a, b.drop_last());
        assert((a + b).drop_last() =~= a + b.drop_last());
        assert((a + b).last() == b.last());
        match b.last() {
            Ok(Some(e)) => {
                assert(found_entries(a) + found_entries(b) =~= (found_entries(a) + found_entries(
                    b.drop_last(),
                )).push(e));
            },
            _ => {},
        }
    }
}

/// The number of lookups that succeeded and found an entry.
pub open spec fn count_found<E, Er>(results: Seq<Result<Option<E>, Er>>) -> nat
    decreases results.len(),
{
    if results.len() == 0 {
        0
    } else {
        count_found(results.drop_last()) + if results.last() matches Ok(Some(_)) {
            1nat
        } else {
            0nat
        }
    }
}

/// Law: every found entry is kept, and each kept entry is the entry of a
/// successful lookup: as many entries come out as lookups found one, and
/// the k-th kept entry is the entry of the k-th successful lookup, in order.
pub proof fn law_found_keeps_every_found_entry<E, Er>(results: Seq<Result<Option<E>, Er>>)
    ensures
        found_entries(results).len() == count_found(results),
        forall|i: int|
            0 <= i < results.len() && (#[trigger] results[i] matches Ok(Some(_))) ==> found_entries(
                results,
            )[count_found(results.take(i)) as int] == results[i]->Ok_0->Some_0,
    decreases results.len(),
{
    if results.len() > 0 {
        let init = results.drop_last();
        law_found_keeps_every_found_entry(init);
        assert forall|i: int|
            0 <= i < results.len() && (#[trigger] results[i] matches Ok(Some(_))) implies found_entries(
                results,
            )[count_found(results.take(i)) as int] == results[i]->Ok_0->Some_0 by {
            if i < results.len() - 1 {
                assert(results.take(i) =~= init.take(i));
                assert(init[i] == results[i]);
                lemma_count_found_bound(init, i);
            } else {
                assert(results.take(i) =~= init);
            }
        }
    }
}

/// Fewer lookups have found entries in a prefix than in the whole.
proof fn lemma_count_found_bound<E, Er>(results: Seq<Result<Option<E>, Er>>, i: int)
    requires
        0 <= i < results.len(),
        results[i] matches Ok(Some(_)),
    ensures
        count_found(results.take(i)) < count_found(results),
    decreases results.len(),
{
    let init = results.drop_last();
    if i < results.len() - 1 {
        assert(results.take(i) =~= init.take(i));
        assert(init[i] == results[i]);
        lemma_count_found_bound(init, i);
    } else {
        assert(results.take(i) =~= init);
    }
}

} // verus!
