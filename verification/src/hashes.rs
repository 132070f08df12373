//! Hashes as the UI sees them: each wrapped hash travels to and from the UI
//! as its holo_hash string ("u" followed by the URL-safe base64 of the 39
//! raw bytes). The parsing and printing are holo_hash's own; this module
//! holds the raw bytes, checks what holo_hash reports and maps its errors
//! to the strings the UI receives.
use vstd::prelude::*;
use vstd::string::*;
use hdk::prelude::AgentPubKey;
use hdk::prelude::EntryHash;
use hdk::prelude::HeaderHash;

verus! {

/// The length of a full holo hash: 3 prefix bytes, 32 core bytes, 4 location bytes.
pub open spec fn full_hash_len() -> nat {
    39
}

/// The prefix that marks an agent public key.
pub open spec fn agent_prefix() -> Seq<u8> {
    seq![0x84u8, 0x20u8, 0x24u8]
}

/// The prefix that marks a header hash.
pub open spec fn header_prefix() -> Seq<u8> {
    seq![0x84u8, 0x29u8, 0x24u8]
}

/// The prefix that marks an entry hash.
pub open spec fn entry_prefix() -> Seq<u8> {
    seq![0x84u8, 0x21u8, 0x24u8]
}

/// 39 raw bytes that start with the given type prefix.
pub open spec fn is_hash_with_prefix(raw: Seq<u8>, prefix: Seq<u8>) -> bool {
    &&& raw.len() == full_hash_len()
    &&& raw.subrange(0, 3) == prefix
}

/// A string that the holo_hash parser can look at without panicking: it
/// slices off the first byte, so the string must start with a one-byte
/// (ASCII) character.
pub open spec fn parsable(s: Seq<char>) -> bool {
    s.len() > 0 && (s[0] as u32) < 0x80
}

/// The string holo_hash prints for the given raw 39 bytes.
pub uninterp spec fn holo_hash_encoding(raw: Seq<u8>) -> Seq<char>;

/// What holo_hash makes of a string read as an agent public key: the raw
/// bytes, or the `Debug` form of its error.
pub uninterp spec fn agent_pub_key_decoding(s: Seq<char>) -> Result<Seq<u8>, Seq<char>>;

/// What holo_hash makes of a string read as a header hash.
pub uninterp spec fn header_hash_decoding(s: Seq<char>) -> Result<Seq<u8>, Seq<char>>;

/// What holo_hash makes of a string read as an entry hash.
pub uninterp spec fn entry_hash_decoding(s: Seq<char>) -> Result<Seq<u8>, Seq<char>>;

/// The view of a parse result: bytes or error text.
pub open spec fn parse_result_view(r: Result<Vec<u8>, String>) -> Result<Seq<u8>, Seq<char>> {
    match r {
        Ok(b) => Ok(b@),
        Err(e) => Err(e@),
    }
}

/// How holo_hash refuses a string that does not start with "u": the
/// `Debug` form of `HoloHashError::NoU`.
pub open spec fn refused_without_u() -> Result<Seq<u8>, Seq<char>> {
    Err("NoU"@)
}

/// A parse of a printed hash can only give back the printed bytes, and
/// only when they carry the kind's prefix.
pub open spec fn decodes_only_to(d: Result<Seq<u8>, Seq<char>>, raw: Seq<u8>, prefix: Seq<u8>) -> bool {
    d matches Ok(b) ==> b == raw && is_hash_with_prefix(b, prefix)
}

/// `AgentPubKey::try_from(String)` of holo_hash, its error printed with
/// `Debug`. Trusted: the result is `agent_pub_key_decoding` of the string;
/// an accepted string gives 39 bytes with the agent prefix (the parser
/// checks both), and those bytes, printed again, parse back to themselves
/// (printing is "u" + base64 of the bytes, parsing undoes exactly that and
/// re-checks the prefix and location bytes it already accepted); a string
/// that does not start with "u" is refused with `NoU`.
#[verifier::external_body]
fn parse_agent_pub_key(s: String) -> (r: Result<Vec<u8>, String>)
    requires
        parsable(s@),
    ensures
        parse_result_view(r) == agent_pub_key_decoding(s@),
        r matches Ok(b) ==> is_hash_with_prefix(b@, agent_prefix()),
        r matches Ok(b) ==> agent_pub_key_decoding(holo_hash_encoding(b@)) == parse_result_view(r),
        s@[0] != 'u' ==> parse_result_view(r) == refused_without_u(),
{
    match AgentPubKey::try_from(s) {
        Ok(hash) => Ok(hash.into_inner()),
        Err(e) => Err(format!("{:?}", e)),
    }
}

/// `HeaderHash::try_from(String)` of holo_hash; trusted as for agent keys,
/// with the header prefix.
#[verifier::external_body]
fn parse_header_hash(s: String) -> (r: Result<Vec<u8>, String>)
    requires
        parsable(s@),
    ensures
        parse_result_view(r) == header_hash_decoding(s@),
        r matches Ok(b) ==> is_hash_with_prefix(b@, header_prefix()),
        r matches Ok(b) ==> header_hash_decoding(holo_hash_encoding(b@)) == parse_result_view(r),
        s@[0] != 'u' ==> parse_result_view(r) == refused_without_u(),
{
    match HeaderHash::try_from(s) {
        Ok(hash) => Ok(hash.into_inner()),
        Err(e) => Err(format!("{:?}", e)),
    }
}

/// `EntryHash::try_from(String)` of holo_hash; trusted as for agent keys,
/// with the entry prefix.
#[verifier::external_body]
fn parse_entry_hash(s: String) -> (r: Result<Vec<u8>, String>)
    requires
        parsable(s@),
    ensures
        parse_result_view(r) == entry_hash_decoding(s@),
        r matches Ok(b) ==> is_hash_with_prefix(b@, entry_prefix()),
        r matches Ok(b) ==> entry_hash_decoding(holo_hash_encoding(b@)) == parse_result_view(r),
        s@[0] != 'u' ==> parse_result_view(r) == refused_without_u(),
{
    match EntryHash::try_from(s) {
        Ok(hash) => Ok(hash.into_inner()),
        Err(e) => Err(format!("{:?}", e)),
    }
}

/// `to_string` of a holo_hash `AgentPubKey` built from its raw bytes.
/// Trusted: the text is `holo_hash_encoding` of the bytes and starts with
/// "u" (holo_hash prints `format!("u{}", base64)`); parsing it as any kind
/// of hash can only succeed with the same bytes (the parser base64-decodes
/// what follows the "u", which gives the printed bytes back) and only when
/// they carry that kind's prefix (the parser checks it).
#[verifier::external_body]
fn print_agent_pub_key(raw: &Vec<u8>) -> (s: String)
    requires
        is_hash_with_prefix(raw@, agent_prefix()),
    ensures
        s@ == holo_hash_encoding(raw@),
        s@.len() > 0 && s@[0] == 'u',
        decodes_only_to(agent_pub_key_decoding(s@), raw@, agent_prefix()),
        decodes_only_to(header_hash_decoding(s@), raw@, header_prefix()),
        decodes_only_to(entry_hash_decoding(s@), raw@, entry_prefix()),
{
    AgentPubKey::from_raw_39_panicky(raw.clone()).to_string()
}

/// `to_string` of a holo_hash `HeaderHash` built from its raw bytes;
/// trusted as for agent keys.
#[verifier::external_body]
fn print_header_hash(raw: &Vec<u8>) -> (s: String)
    requires
        is_hash_with_prefix(raw@, header_prefix()),
    ensures
        s@ == holo_hash_encoding(raw@),
        s@.len() > 0 && s@[0] == 'u',
        decodes_only_to(agent_pub_key_decoding(s@), raw@, agent_prefix()),
        decodes_only_to(header_hash_decoding(s@), raw@, header_prefix()),
        decodes_only_to(entry_hash_decoding(s@), raw@, entry_prefix()),
{
    HeaderHash::from_raw_39_panicky(raw.clone()).to_string()
}

/// `to_string` of a holo_hash `EntryHash` built from its raw bytes;
/// trusted as for agent keys.
#[verifier::external_body]
fn print_entry_hash(raw: &Vec<u8>) -> (s: String)
    requires
        is_hash_with_prefix(raw@, entry_prefix()),
    ensures
        s@ == holo_hash_encoding(raw@),
        s@.len() > 0 && s@[0] == 'u',
        decodes_only_to(agent_pub_key_decoding(s@), raw@, agent_prefix()),
        decodes_only_to(header_hash_decoding(s@), raw@, header_prefix()),
        decodes_only_to(entry_hash_decoding(s@), raw@, entry_prefix()),
{
    EntryHash::from_raw_39_panicky(raw.clone()).to_string()
}

/// The bytes start with the three given prefix bytes and are 39 long.
fn has_prefix(raw: &Vec<u8>, p0: u8, p1: u8, p2: u8) -> (b: bool)
    ensures
        b == is_hash_with_prefix(raw@, seq![p0, p1, p2]),
{
    if raw.len() != 39 {
        return false;
    }
    let b = raw[0] == p0 && raw[1] == p1 && raw[2] == p2;
    assert(b ==> raw@.subrange(0, 3) =~= seq![p0, p1, p2]);
    assert(raw@.subrange(0, 3) == seq![p0, p1, p2] ==> raw@.subrange(0, 3)[1] == p1 && raw@.subrange(0, 3)[0] == p0 && raw@.subrange(0, 3)[2] == p2);
    b
}

/// Whether the bytes are a full agent public key (39 bytes, agent prefix).
pub fn is_agent_pub_key_bytes(raw: &Vec<u8>) -> (b: bool)
    ensures
        b == is_hash_with_prefix(raw@, agent_prefix()),
{
    has_prefix(raw, 0x84, 0x20, 0x24)
}

/// Whether the bytes are a full header hash (39 bytes, header prefix).
pub fn is_header_hash_bytes(raw: &Vec<u8>) -> (b: bool)
    ensures
        b == is_hash_with_prefix(raw@, header_prefix()),
{
    has_prefix(raw, 0x84, 0x29, 0x24)
}

/// Whether the bytes are a full entry hash (39 bytes, entry prefix).
pub fn is_entry_hash_bytes(raw: &Vec<u8>) -> (b: bool)
    ensures
        b == is_hash_with_prefix(raw@, entry_prefix()),
{
    has_prefix(raw, 0x84, 0x21, 0x24)
}

/// Law: the three kinds of hash have different prefixes, so no raw hash is
/// of two kinds.
pub proof fn lemma_kinds_are_distinct(raw: Seq<u8>)
    ensures
        !(is_hash_with_prefix(raw, agent_prefix()) && is_hash_with_prefix(raw, header_prefix())),
        !(is_hash_with_prefix(raw, agent_prefix()) && is_hash_with_prefix(raw, entry_prefix())),
        !(is_hash_with_prefix(raw, header_prefix()) && is_hash_with_prefix(raw, entry_prefix())),
{
    assert(agent_prefix()[1] != header_prefix()[1]);
    assert(agent_prefix()[1] != entry_prefix()[1]);
    assert(header_prefix()[1] != entry_prefix()[1]);
}

/// A hash in the form the UI sends and receives.
#[derive(Debug, Clone)]
pub struct UIStringHash(pub String);

/// An agent public key, held as its 39 raw bytes.
#[derive(Debug)]
pub struct WrappedAgentPubKey(Vec<u8>);

/// A header hash, held as its 39 raw bytes.
#[derive(Debug)]
pub struct WrappedHeaderHash(Vec<u8>);

/// An entry hash, held as its 39 raw bytes.
#[derive(Debug)]
pub struct WrappedEntryHash(Vec<u8>);

impl Clone for WrappedAgentPubKey {
    fn clone(&self) -> (c: Self)
        ensures
            c@ == self@,
    {
        proof {
            use_type_invariant(self);
        }
        let raw = self.0.clone();
        assert(raw@ == self.0@);
        WrappedAgentPubKey(raw)
    }
}

impl View for WrappedAgentPubKey {
    type V = Seq<u8>;

    closed spec fn view(&self) -> Seq<u8> {
        self.0@
    }
}

impl Clone for WrappedHeaderHash {
    fn clone(&self) -> (c: Self)
        ensures
            c@ == self@,
    {
        proof {
            use_type_invariant(self);
        }
        let raw = self.0.clone();
        assert(raw@ == self.0@);
        WrappedHeaderHash(raw)
    }
}

impl View for WrappedHeaderHash {
    type V = Seq<u8>;

    closed spec fn view(&self) -> Seq<u8> {
        self.0@
    }
}

impl Clone for WrappedEntryHash {
    fn clone(&self) -> (c: Self)
        ensures
            c@ == self@,
    {
        proof {
            use_type_invariant(self);
        }
        let raw = self.0.clone();
        assert(raw@ == self.0@);
        WrappedEntryHash(raw)
    }
}

impl View for WrappedEntryHash {
    type V = Seq<u8>;

    closed spec fn view(&self) -> Seq<u8> {
        self.0@
    }
}

impl WrappedAgentPubKey {
    #[verifier::type_invariant]
    spec fn well_formed(self) -> bool {
        is_hash_with_prefix(self.0@, agent_prefix())
    }

    /// Wraps the raw bytes of an agent public key.
    pub fn new(agent_pubkey: Vec<u8>) -> (w: Self)
        requires
            is_hash_with_prefix(agent_pubkey@, agent_prefix()),
        ensures
            w@ == agent_pubkey@,
    {
        WrappedAgentPubKey(agent_pubkey)
    }

    /// The raw bytes of the key.
    pub fn raw(&self) -> (r: &Vec<u8>)
        ensures
            r@ == self@,
            is_hash_with_prefix(r@, agent_prefix()),
    {
        proof {
            use_type_invariant(self);
        }
        &self.0
    }

    /// Reads a key from its UI string; holo_hash's error, printed with
    /// `Debug`, is the error.
    pub fn try_from(ui_string_hash: UIStringHash) -> (r: Result<Self, String>)
        requires
            parsable(ui_string_hash.0@),
        ensures
            match r {
                Ok(w) => agent_pub_key_decoding(ui_string_hash.0@) == Ok::<Seq<u8>, Seq<char>>(w@),
                Err(e) => agent_pub_key_decoding(ui_string_hash.0@) == Err::<Seq<u8>, Seq<char>>(e@),
            },
            r matches Ok(w) ==> agent_pub_key_decoding(holo_hash_encoding(w@)) == Ok::<Seq<u8>, Seq<char>>(w@),
            ui_string_hash.0@[0] != 'u' ==> (r matches Err(e) && e@ == "NoU"@),
    {
        match parse_agent_pub_key(ui_string_hash.0) {
            Ok(address) => Ok(WrappedAgentPubKey(address)),
            Err(e) => Err(e),
        }
    }
}

impl WrappedHeaderHash {
    #[verifier::type_invariant]
    spec fn well_formed(self) -> bool {
        is_hash_with_prefix(self.0@, header_prefix())
    }

    /// Wraps the raw bytes of a header hash.
    pub fn new(header_hash: Vec<u8>) -> (w: Self)
        requires
            is_hash_with_prefix(header_hash@, header_prefix()),
        ensures
            w@ == header_hash@,
    {
        WrappedHeaderHash(header_hash)
    }

    /// The raw bytes of the hash.
    pub fn raw(&self) -> (r: &Vec<u8>)
        ensures
            r@ == self@,
            is_hash_with_prefix(r@, header_prefix()),
    {
        proof {
            use_type_invariant(self);
        }
        &self.0
    }

    /// Reads a header hash from its UI string; holo_hash's error, printed
    /// with `Debug`, is the error.
    pub fn try_from(ui_string_hash: UIStringHash) -> (r: Result<Self, String>)
        requires
            parsable(ui_string_hash.0@),
        ensures
            match r {
                Ok(w) => header_hash_decoding(ui_string_hash.0@) == Ok::<Seq<u8>, Seq<char>>(w@),
                Err(e) => header_hash_decoding(ui_string_hash.0@) == Err::<Seq<u8>, Seq<char>>(e@),
            },
            r matches Ok(w) ==> header_hash_decoding(holo_hash_encoding(w@)) == Ok::<Seq<u8>, Seq<char>>(w@),
            ui_string_hash.0@[0] != 'u' ==> (r matches Err(e) && e@ == "NoU"@),
    {
        match parse_header_hash(ui_string_hash.0) {
            Ok(address) => Ok(WrappedHeaderHash(address)),
            Err(e) => Err(e),
        }
    }
}

impl WrappedEntryHash {
    #[verifier::type_invariant]
    spec fn well_formed(self) -> bool {
        is_hash_with_prefix(self.0@, entry_prefix())
    }

    /// Wraps the raw bytes of an entry hash.
    pub fn new(entry_hash: Vec<u8>) -> (w: Self)
        requires
            is_hash_with_prefix(entry_hash@, entry_prefix()),
        ensures
            w@ == entry_hash@,
    {
        WrappedEntryHash(entry_hash)
    }

    /// The raw bytes of the hash.
    pub fn raw(&self) -> (r: &Vec<u8>)
        ensures
            r@ == self@,
            is_hash_with_prefix(r@, entry_prefix()),
    {
        proof {
            use_type_invariant(self);
        }
        &self.0
    }

    /// Reads an entry hash from its UI string; holo_hash's error, printed
    /// with `Debug`, is the error.
    pub fn try_from(ui_string_hash: UIStringHash) -> (r: Result<Self, String>)
        requires
            parsable(ui_string_hash.0@),
        ensures
            match r {
                Ok(w) => entry_hash_decoding(ui_string_hash.0@) == Ok::<Seq<u8>, Seq<char>>(w@),
                Err(e) => entry_hash_decoding(ui_string_hash.0@) == Err::<Seq<u8>, Seq<char>>(e@),
            },
            r matches Ok(w) ==> entry_hash_decoding(holo_hash_encoding(w@)) == Ok::<Seq<u8>, Seq<char>>(w@),
            ui_string_hash.0@[0] != 'u' ==> (r matches Err(e) && e@ == "NoU"@),
    {
        match parse_entry_hash(ui_string_hash.0) {
            Ok(address) => Ok(WrappedEntryHash(address)),
            Err(e) => Err(e),
        }
    }
}

impl From<WrappedAgentPubKey> for UIStringHash {
    fn from(wrapped_agent_pub_key: WrappedAgentPubKey) -> (u: UIStringHash)
        ensures
            u.0@ == holo_hash_encoding(wrapped_agent_pub_key@),
            parsable(u.0@),
            header_hash_decoding(u.0@) is Err,
            entry_hash_decoding(u.0@) is Err,
    {
        UIStringHash(print_agent_pub_key(wrapped_agent_pub_key.raw()))
    }
}

impl vstd::std_specs::convert::FromSpecImpl<WrappedAgentPubKey> for UIStringHash {
    open spec fn obeys_from_spec() -> bool {
        false
    }

    open spec fn from_spec(w: WrappedAgentPubKey) -> UIStringHash {
        choose|u: UIStringHash| u.0@ == holo_hash_encoding(w@)
    }
}

impl From<WrappedHeaderHash> for UIStringHash {
    fn from(wrapped_header_hash: WrappedHeaderHash) -> (u: UIStringHash)
        ensures
            u.0@ == holo_hash_encoding(wrapped_header_hash@),
            parsable(u.0@),
            agent_pub_key_decoding(u.0@) is Err,
            entry_hash_decoding(u.0@) is Err,
    {
        UIStringHash(print_header_hash(wrapped_header_hash.raw()))
    }
}

impl vstd::std_specs::convert::FromSpecImpl<WrappedHeaderHash> for UIStringHash {
    open spec fn obeys_from_spec() -> bool {
        false
    }

    open spec fn from_spec(w: WrappedHeaderHash) -> UIStringHash {
        choose|u: UIStringHash| u.0@ == holo_hash_encoding(w@)
    }
}

impl From<WrappedEntryHash> for UIStringHash {
    fn from(wrapped_entry_hash: WrappedEntryHash) -> (u: UIStringHash)
        ensures
            u.0@ == holo_hash_encoding(wrapped_entry_hash@),
            parsable(u.0@),
            agent_pub_key_decoding(u.0@) is Err,
            header_hash_decoding(u.0@) is Err,
    {
        UIStringHash(print_entry_hash(wrapped_entry_hash.raw()))
    }
}

impl vstd::std_specs::convert::FromSpecImpl<WrappedEntryHash> for UIStringHash {
    open spec fn obeys_from_spec() -> bool {
        false
    }

    open spec fn from_spec(w: WrappedEntryHash) -> UIStringHash {
        choose|u: UIStringHash| u.0@ == holo_hash_encoding(w@)
    }
}

} // verus!
