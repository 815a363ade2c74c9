//! The table from command identifiers to payload kinds, checked once when it
//! is built and used to read and write payloads afterwards.
//!
//! A table is accepted only if it names every kind once, gives no identifier
//! twice (neither among the commands, nor among the responses, nor one as
//! both) and keeps clear of `FF`, which field B of a frame reserves for
//! acknowledgements.

use crate::frame::{PacketSyncType, ACK_SENTINEL};
use crate::packets::{
    lemma_identifiers, AuthPacket, InquiryPacket, MacPacket, MessageType, Packet,
    SensorCountPacket, SensorListPacket, VersionPacket,
};
use crate::payload::{
    lemma_parse_kind_packed, DecodeError, PacketKind, PacketPayload, PacketPayloadView,
};
use vstd::prelude::*;

verus! {

/// One line of the table: a kind, its two identifiers and its namespace.
#[derive(Clone, Copy, Debug, PartialEq, Eq, Structural)]
pub struct RegistryEntry {
    pub kind: PacketKind,
    pub cmd_id: u8,
    pub rsp_id: u8,
    pub sync_type: PacketSyncType,
}

/// Why a table was refused.
#[derive(Clone, Copy, Debug, PartialEq, Eq, Structural)]
pub enum RegistryError {
    /// An identifier of `kind` is `FF`.
    ReservedIdentifier { kind: PacketKind },
    /// `id` is registered more than once.
    DuplicateIdentifier { id: u8 },
    /// `kind` has more than one line.
    DuplicateKind { kind: PacketKind },
    /// `kind` has no line.
    MissingKind { kind: PacketKind },
}

/// True when one of the line's identifiers is the acknowledgement sentinel.
pub open spec fn has_reserved(entry: RegistryEntry) -> bool {
    entry.cmd_id == ACK_SENTINEL || entry.rsp_id == ACK_SENTINEL
}

/// True when no line holds the acknowledgement sentinel.
pub open spec fn reserved_free(table: Seq<RegistryEntry>) -> bool {
    forall|i: int| 0 <= i < table.len() ==> !has_reserved(#[trigger] table[i])
}

/// True when the line uses `id`, as command or as response identifier.
pub open spec fn uses_id(entry: RegistryEntry, id: u8) -> bool {
    entry.cmd_id == id || entry.rsp_id == id
}

/// True when two lines have an identifier in common.
pub open spec fn clash(a: RegistryEntry, b: RegistryEntry) -> bool {
    a.cmd_id == b.cmd_id || a.cmd_id == b.rsp_id || a.rsp_id == b.cmd_id || a.rsp_id == b.rsp_id
}

/// True when `id` is registered more than once: by two lines, or as both
/// identifiers of one.
pub open spec fn registered_twice(table: Seq<RegistryEntry>, id: u8) -> bool {
    ||| exists|i: int|
        0 <= i < table.len() && (#[trigger] table[i]).cmd_id == id && table[i].rsp_id == id
    ||| exists|i: int, j: int|
        0 <= i < table.len() && 0 <= j < table.len() && i != j && uses_id(#[trigger] table[i], id)
            && uses_id(#[trigger] table[j], id)
}

/// True when no identifier is registered more than once.
pub open spec fn ids_distinct(table: Seq<RegistryEntry>) -> bool {
    forall|id: u8| !registered_twice(table, id)
}

/// True when `kind` has a line.
pub open spec fn has_kind(table: Seq<RegistryEntry>, kind: PacketKind) -> bool {
    exists|i: int| 0 <= i < table.len() && (#[trigger] table[i]).kind == kind
}

/// True when `kind` has more than one line.
pub open spec fn kind_twice(table: Seq<RegistryEntry>, kind: PacketKind) -> bool {
    exists|i: int, j: int|
        0 <= i < table.len() && 0 <= j < table.len() && i != j && (#[trigger] table[i]).kind
            == kind && (#[trigger] table[j]).kind == kind
}

/// True when no kind has more than one line.
pub open spec fn kinds_distinct(table: Seq<RegistryEntry>) -> bool {
    forall|kind: PacketKind| !kind_twice(table, kind)
}

/// True when every kind has a line.
pub open spec fn kinds_complete(table: Seq<RegistryEntry>) -> bool {
    forall|kind: PacketKind| has_kind(table, kind)
}

/// The tables that a registry can be built from.
pub open spec fn valid_table(table: Seq<RegistryEntry>) -> bool {
    &&& reserved_free(table)
    &&& ids_distinct(table)
    &&& kinds_distinct(table)
    &&& kinds_complete(table)
}

/// The line that registers `id`, and whether as command or as response
/// identifier. Command identifiers are looked up first.
pub open spec fn table_lookup(table: Seq<RegistryEntry>, id: u8) -> Option<
    (RegistryEntry, MessageType),
> {
    if exists|i: int| 0 <= i < table.len() && (#[trigger] table[i]).cmd_id == id {
        let i = choose|i: int| 0 <= i < table.len() && (#[trigger] table[i]).cmd_id == id;
        Some((table[i], MessageType::Command))
    } else if exists|i: int| 0 <= i < table.len() && (#[trigger] table[i]).rsp_id == id {
        let i = choose|i: int| 0 <= i < table.len() && (#[trigger] table[i]).rsp_id == id;
        Some((table[i], MessageType::Response))
    } else {
        None
    }
}

/// The line of `kind`.
pub open spec fn table_entry(table: Seq<RegistryEntry>, kind: PacketKind) -> RegistryEntry {
    table[choose|i: int| 0 <= i < table.len() && (#[trigger] table[i]).kind == kind]
}

/// The payload that `payload` stands for under the identifier `command_id`.
///
/// The table tells the kind, and a command from a response. The role given
/// matters only where it is `Ack`: the acknowledgement form of the kind is
/// then read, whichever of the kind's identifiers matched.
pub open spec fn table_decode(
    table: Seq<RegistryEntry>,
    command_id: u8,
    role: MessageType,
    payload: Seq<u8>,
) -> Result<PacketPayloadView, DecodeError> {
    match table_lookup(table, command_id) {
        None => Err(DecodeError::UnknownCommand),
        Some((entry, found)) => PacketPayloadView::parse_kind(
            entry.kind,
            payload,
            if role == MessageType::Ack {
                MessageType::Ack
            } else {
                found
            },
        ),
    }
}

/// The identifier, the namespace and the bytes that `value` travels with: the
/// response identifier of its kind for a response, the command identifier
/// for a command and for an acknowledgement.
pub open spec fn table_encode(table: Seq<RegistryEntry>, value: PacketPayloadView) -> (
    u8,
    PacketSyncType,
    Seq<u8>,
) {
    let entry = table_entry(table, value.kind());
    let id = if value.message_type() == MessageType::Response {
        entry.rsp_id
    } else {
        entry.cmd_id
    };
    (id, entry.sync_type, value.packed())
}

/// The line of a kind as the protocol defines it.
pub open spec fn standard_entry(kind: PacketKind) -> RegistryEntry {
    RegistryEntry {
        kind,
        cmd_id: kind.spec_cmd_id(),
        rsp_id: kind.spec_rsp_id(),
        sync_type: kind.spec_sync_type(),
    }
}

/// The table of the protocol.
pub open spec fn standard_table() -> Seq<RegistryEntry> {
    seq![
        standard_entry(PacketKind::Inquiry),
        standard_entry(PacketKind::Mac),
        standard_entry(PacketKind::Version),
        standard_entry(PacketKind::SensorCount),
        standard_entry(PacketKind::SensorList),
        standard_entry(PacketKind::Auth),
    ]
}

/// The protocol's own table passes every check.
pub proof fn lemma_standard_table_valid()
    ensures
        valid_table(standard_table()),
{
    lemma_identifiers();
    let t = standard_table();
    assert(t[0].kind == PacketKind::Inquiry && t[1].kind == PacketKind::Mac && t[2].kind
        == PacketKind::Version);
    assert(t[3].kind == PacketKind::SensorCount && t[4].kind == PacketKind::SensorList && t[5].kind
        == PacketKind::Auth);
    assert forall|kind: PacketKind| has_kind(t, kind) by {
        match kind {
            PacketKind::Inquiry => assert(t[0].kind == kind),
            PacketKind::Mac => assert(t[1].kind == kind),
            PacketKind::Version => assert(t[2].kind == kind),
            PacketKind::SensorCount => assert(t[3].kind == kind),
            PacketKind::SensorList => assert(t[4].kind == kind),
            PacketKind::Auth => assert(t[5].kind == kind),
        }
    }
}

/// In a valid table the line of an identifier, and that of a kind, is the
/// only one.
pub proof fn lemma_table_lookup_unique(table: Seq<RegistryEntry>, i: int)
    requires
        valid_table(table),
        0 <= i < table.len(),
    ensures
        table_lookup(table, table[i].cmd_id) == Some((table[i], MessageType::Command)),
        table_lookup(table, table[i].rsp_id) == Some((table[i], MessageType::Response)),
        table_entry(table, table[i].kind) == table[i],
{
    let e = table[i];
    assert(!registered_twice(table, e.cmd_id));
    assert(!registered_twice(table, e.rsp_id));
    assert(!kind_twice(table, e.kind));
    let c = choose|c: int| 0 <= c < table.len() && (#[trigger] table[c]).cmd_id == e.cmd_id;
    assert(uses_id(table[c], e.cmd_id) && uses_id(table[i], e.cmd_id));
    assert(c == i);
    if exists|j: int| 0 <= j < table.len() && (#[trigger] table[j]).cmd_id == e.rsp_id {
        let j = choose|j: int| 0 <= j < table.len() && (#[trigger] table[j]).cmd_id == e.rsp_id;
        assert(uses_id(table[j], e.rsp_id) && uses_id(table[i], e.rsp_id));
        assert(j == i);
        assert(false);
    }
    let r = choose|r: int| 0 <= r < table.len() && (#[trigger] table[r]).rsp_id == e.rsp_id;
    assert(uses_id(table[r], e.rsp_id));
    assert(r == i);
    let k = choose|k: int| 0 <= k < table.len() && (#[trigger] table[k]).kind == e.kind;
    assert(k == i);
}

/// Under any valid table, reading what was written gives the payload back.
pub proof fn lemma_table_decode_encoded(table: Seq<RegistryEntry>, value: PacketPayloadView)
    requires
        valid_table(table),
        value.wf(),
    ensures
        ({
            let written = table_encode(table, value);
            table_decode(table, written.0, value.message_type(), written.2) == Ok::<
                PacketPayloadView,
                DecodeError,
            >(value)
        }),
{
    assert(has_kind(table, value.kind()));
    let i = choose|i: int| 0 <= i < table.len() && (#[trigger] table[i]).kind == value.kind();
    lemma_table_lookup_unique(table, i);
    lemma_parse_kind_packed(value);
}

/// The protocol's table reads and writes as the fixed dispatch of
/// [`PacketPayload::parse`] does.
pub proof fn lemma_standard_table_agrees(id: u8, role: MessageType, payload: Seq<u8>)
    ensures
        table_decode(standard_table(), id, role, payload) == PacketPayloadView::parse(
            payload,
            id,
            role == MessageType::Ack,
        ),
{
    lemma_identifiers();
    lemma_standard_table_valid();
    let t = standard_table();
    lemma_table_lookup_unique(t, 0);
    lemma_table_lookup_unique(t, 1);
    lemma_table_lookup_unique(t, 2);
    lemma_table_lookup_unique(t, 3);
    lemma_table_lookup_unique(t, 4);
    lemma_table_lookup_unique(t, 5);
    if PacketKind::spec_lookup(id) is None {
        assert forall|i: int| 0 <= i < t.len() implies (#[trigger] t[i]).cmd_id != id && t[i].rsp_id
            != id by {}
    }
}

/// A table that passed the checks.
#[derive(Debug)]
pub struct PacketRegistry {
    entries: Vec<RegistryEntry>,
}

impl View for PacketRegistry {
    type V = Seq<RegistryEntry>;

    /// The lines of the table.
    closed spec fn view(&self) -> Seq<RegistryEntry> {
        self.entries@
    }
}

/// Picks the identifier that two clashing lines share.
fn shared_id(a: &RegistryEntry, b: &RegistryEntry) -> (r: Option<u8>)
    ensures
        match r {
            Some(id) => uses_id(*a, id) && uses_id(*b, id),
            None => !clash(*a, *b),
        },
{
    if a.cmd_id == b.cmd_id || a.cmd_id == b.rsp_id {
        Some(a.cmd_id)
    } else if a.rsp_id == b.rsp_id || a.rsp_id == b.cmd_id {
        Some(a.rsp_id)
    } else {
        None
    }
}

/// Looks for a line with an identifier equal to `FF`.
fn find_reserved(entries: &Vec<RegistryEntry>) -> (r: Option<PacketKind>)
    ensures
        r is None <==> reserved_free(entries@),
        r matches Some(kind) ==> exists|i: int|
            0 <= i < entries@.len() && (#[trigger] entries@[i]).kind == kind && has_reserved(
                entries@[i],
            ),
{
    let mut i: usize = 0;
    while i < entries.len()
        invariant
            i <= entries.len(),
            forall|k: int| 0 <= k < i ==> !has_reserved(#[trigger] entries@[k]),
        decreases entries.len() - i,
    {
        if entries[i].cmd_id == ACK_SENTINEL || entries[i].rsp_id == ACK_SENTINEL {
            assert(has_reserved(entries@[i as int]));
            return Some(entries[i].kind);
        }
        i += 1;
    }
    None
}

/// Looks for an identifier that is registered more than once.
fn find_duplicate_id(entries: &Vec<RegistryEntry>) -> (r: Option<u8>)
    ensures
        r is None <==> ids_distinct(entries@),
        r matches Some(id) ==> registered_twice(entries@, id),
{
    let n: usize = entries.len();
    let mut i: usize = 0;
    while i < n
        invariant
            i <= n,
            n == entries.len(),
            forall|k: int| 0 <= k < i ==> (#[trigger] entries@[k]).cmd_id != entries@[k].rsp_id,
            forall|p: int, q: int|
                0 <= q < p < i ==> !clash(#[trigger] entries@[p], #[trigger] entries@[q]),
        decreases n - i,
    {
        if entries[i].cmd_id == entries[i].rsp_id {
            assert(registered_twice(entries@, entries@[i as int].cmd_id));
            return Some(entries[i].cmd_id);
        }
        let mut j: usize = 0;
        while j < i
            invariant
                j <= i < n,
                n == entries.len(),
                forall|q: int| 0 <= q < j ==> !clash(entries@[i as int], #[trigger] entries@[q]),
            decreases i - j,
        {
            match shared_id(&entries[i], &entries[j]) {
                Some(id) => {
                    assert(uses_id(entries@[i as int], id) && uses_id(entries@[j as int], id));
                    assert(registered_twice(entries@, id));
                    return Some(id);
                },
                None => {},
            }
            j += 1;
        }
        i += 1;
    }
    proof {
        assert forall|id: u8| !registered_twice(entries@, id) by {
            if registered_twice(entries@, id) {
                if exists|a: int, b: int|
                    0 <= a < n && 0 <= b < n && a != b && uses_id(#[trigger] entries@[a], id)
                        && uses_id(#[trigger] entries@[b], id) {
                    let (a, b) = choose|a: int, b: int|
                        0 <= a < n && 0 <= b < n && a != b && uses_id(#[trigger] entries@[a], id)
                            && uses_id(#[trigger] entries@[b], id);
                    if a < b {
                        assert(!clash(entries@[b], entries@[a]));
                    } else {
                        assert(!clash(entries@[a], entries@[b]));
                    }
                }
            }
        }
    }
    None
}

/// Looks for a kind that has more than one line.
fn find_duplicate_kind(entries: &Vec<RegistryEntry>) -> (r: Option<PacketKind>)
    ensures
        r is None <==> kinds_distinct(entries@),
        r matches Some(kind) ==> kind_twice(entries@, kind),
{
    let n: usize = entries.len();
    let mut i: usize = 0;
    while i < n
        invariant
            i <= n,
            n == entries.len(),
            forall|p: int, q: int|
                0 <= q < p < i ==> (#[trigger] entries@[p]).kind != (#[trigger] entries@[q]).kind,
        decreases n - i,
    {
        let mut j: usize = 0;
        while j < i
            invariant
                j <= i < n,
                n == entries.len(),
                forall|q: int| 0 <= q < j ==> entries@[i as int].kind != (#[trigger] entries@[q]).kind,
            decreases i - j,
        {
            if entries[i].kind == entries[j].kind {
                assert(entries@[i as int].kind == entries@[j as int].kind);
                assert(kind_twice(entries@, entries@[i as int].kind));
                return Some(entries[i].kind);
            }
            j += 1;
        }
        i += 1;
    }
    proof {
        assert forall|kind: PacketKind| !kind_twice(entries@, kind) by {
            if kind_twice(entries@, kind) {
                let (a, b) = choose|a: int, b: int|
                    0 <= a < n && 0 <= b < n && a != b && (#[trigger] entries@[a]).kind == kind && (
                    #[trigger] entries@[b]).kind == kind;
                if a < b {
                    assert(entries@[b].kind != entries@[a].kind);
                } else {
                    assert(entries@[a].kind != entries@[b].kind);
                }
            }
        }
    }
    None
}

/// Tests whether `kind` has a line.
fn contains_kind(entries: &Vec<RegistryEntry>, kind: PacketKind) -> (r: bool)
    ensures
        r == has_kind(entries@, kind),
{
    let mut i: usize = 0;
    while i < entries.len()
        invariant
            i <= entries.len(),
            forall|k: int| 0 <= k < i ==> (#[trigger] entries@[k]).kind != kind,
        decreases entries.len() - i,
    {
        if entries[i].kind == kind {
            return true;
        }
        i += 1;
    }
    false
}

/// Looks for a kind that has no line.
fn find_missing_kind(entries: &Vec<RegistryEntry>) -> (r: Option<PacketKind>)
    ensures
        r is None <==> kinds_complete(entries@),
        r matches Some(kind) ==> !has_kind(entries@, kind),
{
    if !contains_kind(entries, PacketKind::Inquiry) {
        Some(PacketKind::Inquiry)
    } else if !contains_kind(entries, PacketKind::Mac) {
        Some(PacketKind::Mac)
    } else if !contains_kind(entries, PacketKind::Version) {
        Some(PacketKind::Version)
    } else if !contains_kind(entries, PacketKind::SensorCount) {
        Some(PacketKind::SensorCount)
    } else if !contains_kind(entries, PacketKind::SensorList) {
        Some(PacketKind::SensorList)
    } else if !contains_kind(entries, PacketKind::Auth) {
        Some(PacketKind::Auth)
    } else {
        assert forall|kind: PacketKind| has_kind(entries@, kind) by {
            match kind {
                PacketKind::Inquiry => {},
                PacketKind::Mac => {},
                PacketKind::Version => {},
                PacketKind::SensorCount => {},
                PacketKind::SensorList => {},
                PacketKind::Auth => {},
            }
        }
        None
    }
}

impl PacketRegistry {
    #[verifier::type_invariant]
    spec fn inv(self) -> bool {
        valid_table(self.entries@)
    }

    /// The lines of the table, which passed every check.
    pub fn entries(&self) -> (entries: &Vec<RegistryEntry>)
        ensures
            entries@ == self@,
            valid_table(self@),
    {
        proof {
            use_type_invariant(self);
        }
        &self.entries
    }

    /// Checks a table and builds the registry of it.
    ///
    /// The checks run in this order, and the first that fails names the
    /// error: an identifier equal to `FF`; an identifier registered twice; a
    /// kind with two lines; a kind with none.
    pub fn build(entries: Vec<RegistryEntry>) -> (r: Result<PacketRegistry, RegistryError>)
        ensures
            r is Ok <==> valid_table(entries@),
            r matches Ok(registry) ==> registry@ == entries@,
            r matches Err(RegistryError::ReservedIdentifier { kind }) ==> exists|i: int|
                0 <= i < entries@.len() && (#[trigger] entries@[i]).kind == kind && has_reserved(
                    entries@[i],
                ),
            r matches Err(RegistryError::DuplicateIdentifier { id }) ==> reserved_free(entries@)
                && registered_twice(entries@, id),
            r matches Err(RegistryError::DuplicateKind { kind }) ==> reserved_free(entries@)
                && ids_distinct(entries@) && kind_twice(entries@, kind),
            r matches Err(RegistryError::MissingKind { kind }) ==> reserved_free(entries@)
                && ids_distinct(entries@) && kinds_distinct(entries@) && !has_kind(
                entries@,
                kind,
            ),
    {
        if let Some(kind) = find_reserved(&entries) {
            return Err(RegistryError::ReservedIdentifier { kind });
        }
        if let Some(id) = find_duplicate_id(&entries) {
            return Err(RegistryError::DuplicateIdentifier { id });
        }
        if let Some(kind) = find_duplicate_kind(&entries) {
            return Err(RegistryError::DuplicateKind { kind });
        }
        if let Some(kind) = find_missing_kind(&entries) {
            return Err(RegistryError::MissingKind { kind });
        }
        Ok(PacketRegistry { entries })
    }

    /// The registry of the protocol's own table.
    pub fn new() -> (registry: PacketRegistry)
        ensures
            registry@ == standard_table(),
            valid_table(registry@),
    {
        let mut entries: Vec<RegistryEntry> = Vec::new();
        entries.push(Self::entry_of(PacketKind::Inquiry));
        entries.push(Self::entry_of(PacketKind::Mac));
        entries.push(Self::entry_of(PacketKind::Version));
        entries.push(Self::entry_of(PacketKind::SensorCount));
        entries.push(Self::entry_of(PacketKind::SensorList));
        entries.push(Self::entry_of(PacketKind::Auth));
        proof {
            assert(entries@ =~= standard_table());
            lemma_standard_table_valid();
        }
        PacketRegistry { entries }
    }

    /// The line of a kind as the protocol defines it.
    pub fn entry_of(kind: PacketKind) -> (entry: RegistryEntry)
        ensures
            entry == standard_entry(kind),
    {
        RegistryEntry {
            kind,
            cmd_id: kind.cmd_id(),
            rsp_id: kind.rsp_id(),
            sync_type: kind.sync_type(),
        }
    }

    /// Finds the line that registers `id`, command identifiers first.
    pub fn lookup(&self, id: u8) -> (r: Option<(RegistryEntry, MessageType)>)
        ensures
            r == table_lookup(self@, id),
    {
        proof {
            use_type_invariant(self);
        }
        let n: usize = self.entries.len();
        let mut i: usize = 0;
        while i < n
            invariant
                i <= n,
                n == self.entries.len(),
                valid_table(self.entries@),
                forall|k: int| 0 <= k < i ==> (#[trigger] self.entries@[k]).cmd_id != id,
            decreases n - i,
        {
            if self.entries[i].cmd_id == id {
                proof {
                    lemma_table_lookup_unique(self.entries@, i as int);
                }
                return Some((self.entries[i], MessageType::Command));
            }
            i += 1;
        }
        let mut j: usize = 0;
        while j < n
            invariant
                j <= n,
                n == self.entries.len(),
                valid_table(self.entries@),
                forall|k: int| 0 <= k < n ==> (#[trigger] self.entries@[k]).cmd_id != id,
                forall|k: int| 0 <= k < j ==> (#[trigger] self.entries@[k]).rsp_id != id,
            decreases n - j,
        {
            if self.entries[j].rsp_id == id {
                proof {
                    lemma_table_lookup_unique(self.entries@, j as int);
                }
                return Some((self.entries[j], MessageType::Response));
            }
            j += 1;
        }
        None
    }

    /// Reads the payload of a frame.
    ///
    /// `command_id` is the frame's identifier. `role` says whether the frame
    /// is an acknowledgement; for any other role the table decides between
    /// command and response. Fails with `UnknownCommand` when the table has
    /// no such identifier, with `Malformed` when the payload does not fit the
    /// form.
    pub fn decode(&self, command_id: u8, role: MessageType, payload: &[u8]) -> (r: Result<
        PacketPayload,
        DecodeError,
    >)
        ensures
            match r {
                Ok(p) => table_decode(self@, command_id, role, payload@) == Ok::<
                    PacketPayloadView,
                    DecodeError,
                >(p@),
                Err(e) => table_decode(self@, command_id, role, payload@) == Err::<
                    PacketPayloadView,
                    DecodeError,
                >(e),
            },
    {
        match self.lookup(command_id) {
            None => Err(DecodeError::UnknownCommand),
            Some((entry, found)) => {
                let msg_type = match role {
                    MessageType::Ack => MessageType::Ack,
                    _ => found,
                };
                PacketPayload::parse_kind(entry.kind, payload, msg_type)
            },
        }
    }

    /// Finds the line of a kind.
    pub fn entry(&self, kind: PacketKind) -> (entry: RegistryEntry)
        ensures
            entry == table_entry(self@, kind),
            entry.kind == kind,
    {
        proof {
            use_type_invariant(self);
            assert(has_kind(self.entries@, kind));
        }
        let mut i: usize = 0;
        while self.entries[i].kind != kind
            invariant
                i < self.entries.len(),
                has_kind(self.entries@, kind),
                forall|k: int| 0 <= k < i ==> (#[trigger] self.entries@[k]).kind != kind,
            decreases self.entries.len() - i,
        {
            i += 1;
        }
        proof {
            lemma_table_lookup_unique(self.entries@, i as int);
        }
        self.entries[i]
    }

    /// Writes a payload: the identifier it travels under, its namespace and
    /// its bytes.
    pub fn encode(&self, value: &PacketPayload) -> (r: (u8, PacketSyncType, Vec<u8>))
        ensures
            (r.0, r.1, r.2@) == table_encode(self@, value@),
    {
        let entry = self.entry(value.kind());
        let id: u8 = match value.message_type() {
            MessageType::Response => entry.rsp_id,
            _ => entry.cmd_id,
        };
        (id, entry.sync_type, value.pack())
    }
}

} // verus!
