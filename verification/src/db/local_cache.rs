//! The local log of one vehicle: serialised period records, one after
//! another, each behind the four bytes of its length, least significant
//! byte first. The log has no header and is only ever appended to and read
//! from the start.
use vstd::prelude::*;
use vstd::slice::{slice_subrange, slice_to_vec};
use vstd::string::*;
use byteorder::{ByteOrder, LittleEndian};
use crate::db::Error;
use crate::numeral::{decimal, decimal_text};

verus! {

/// Bytes of a length prefix.
pub const PREFIX_LEN: usize = 4;

/// The four bytes of `n`, least significant first.
pub open spec fn le_bytes(n: u32) -> Seq<u8> {
    seq![
        (n % 256) as u8,
        (n / 256 % 256) as u8,
        (n / 65536 % 256) as u8,
        (n / 16777216) as u8,
    ]
}

/// The number that the first four bytes of `b` write, least significant
/// first.
pub open spec fn le_value(b: Seq<u8>) -> int {
    b[0] + b[1] * 256 + b[2] * 65536 + b[3] * 16777216
}

/// One record as it stands in the log: length prefix, then payload.
pub open spec fn frame(payload: Seq<u8>) -> Seq<u8> {
    le_bytes(payload.len() as u32) + payload
}

/// The log that holds exactly `payloads`, in order.
pub open spec fn log_of(payloads: Seq<Seq<u8>>) -> Seq<u8>
    decreases payloads.len(),
{
    if payloads.len() == 0 {
        Seq::empty()
    } else {
        frame(payloads[0]) + log_of(payloads.skip(1))
    }
}

/// Every payload is short enough for a length prefix.
pub open spec fn framable(payloads: Seq<Seq<u8>>) -> bool {
    forall|i: int| 0 <= i < payloads.len() ==> (#[trigger] payloads[i]).len() <= u32::MAX
}

/// How a replay ended.
#[derive(Debug, Clone, Copy, PartialEq, Eq, Structural)]
pub enum ReplayEnd {
    /// The log ended where a record ends.
    Complete,
    /// The log ended within a length prefix.
    TornPrefix,
    /// The log ended within the payload that the last length prefix
    /// announced.
    TornPayload,
}

/// What a replay of `bytes` gives: the payloads of the whole records from
/// the start, and how the log ended. Whatever follows the first torn
/// record is never looked at, since nothing can follow it.
pub open spec fn replay(bytes: Seq<u8>) -> (Seq<Seq<u8>>, ReplayEnd)
    decreases bytes.len(),
{
    if bytes.len() == 0 {
        (Seq::empty(), ReplayEnd::Complete)
    } else if bytes.len() < PREFIX_LEN {
        (Seq::empty(), ReplayEnd::TornPrefix)
    } else {
        let n = le_value(bytes.take(PREFIX_LEN as int));
        if bytes.len() - PREFIX_LEN < n {
            (Seq::empty(), ReplayEnd::TornPayload)
        } else {
            let rest = replay(bytes.skip(PREFIX_LEN + n));
            (seq![bytes.subrange(PREFIX_LEN as int, PREFIX_LEN + n)] + rest.0, rest.1)
        }
    }
}

/// A length prefix has four bytes and writes the length.
pub proof fn lemma_prefix_value(n: u32)
    ensures
        le_bytes(n).len() == PREFIX_LEN,
        le_value(le_bytes(n)) == n,
{
}

/// Appending one record to a log appends its frame.
pub proof fn lemma_log_push(payloads: Seq<Seq<u8>>, last: Seq<u8>)
    ensures
        log_of(payloads.push(last)) == log_of(payloads) + frame(last),
    decreases payloads.len(),
{
    let all = payloads.push(last);
    if payloads.len() == 0 {
        assert(log_of(all.skip(1)) =~= Seq::<u8>::empty());
    } else {
        assert(all.skip(1) =~= payloads.skip(1).push(last));
        lemma_log_push(payloads.skip(1), last);
    }
}

/// Replaying a log that is followed by more bytes gives the records of
/// the log, followed by whatever the further bytes replay to, and ends as
/// the replay of those ends.
pub proof fn lemma_replay_append(payloads: Seq<Seq<u8>>, tail: Seq<u8>)
    requires
        framable(payloads),
    ensures
        replay(log_of(payloads) + tail) == (payloads + replay(tail).0, replay(tail).1),
    decreases payloads.len(),
{
    if payloads.len() > 0 {
        let first = payloads[0];
        let rest = payloads.skip(1);
        let n = first.len() as u32;
        let bytes = log_of(payloads) + tail;
        lemma_prefix_value(n);
        assert(framable(rest)) by {
            assert(forall|i: int| 0 <= i < rest.len() ==> rest[i] == payloads[i + 1]);
        }
        lemma_replay_append(rest, tail);
        assert(bytes.subrange(PREFIX_LEN as int, PREFIX_LEN + n) =~= first);
        assert(bytes.skip(PREFIX_LEN + n) =~= log_of(rest) + tail);
    }
}

/// Replaying what was written gives every record back, byte for byte and in
/// order, and ends cleanly. The empty log replays to no records.
pub proof fn lemma_replay_written(payloads: Seq<Seq<u8>>)
    requires
        framable(payloads),
    ensures
        replay(log_of(payloads)) == (payloads, ReplayEnd::Complete),
{
    lemma_replay_append(payloads, Seq::empty());
}

/// A log whose last record was cut within its payload replays to every
/// record before it and reports the torn payload.
pub proof fn lemma_replay_torn_payload(payloads: Seq<Seq<u8>>, last: Seq<u8>, kept: int)
    requires
        framable(payloads),
        last.len() <= u32::MAX,
        0 <= kept < last.len(),
    ensures
        replay(log_of(payloads) + (le_bytes(last.len() as u32) + last.take(kept))) == (
            payloads,
            ReplayEnd::TornPayload,
        ),
{
    let n = last.len() as u32;
    let torn = le_bytes(n) + last.take(kept);
    lemma_replay_append(payloads, torn);
}

/// A log whose last record was cut within its length prefix replays to
/// every record before it and reports the torn prefix.
pub proof fn lemma_replay_torn_prefix(payloads: Seq<Seq<u8>>, stub: Seq<u8>)
    requires
        framable(payloads),
        0 < stub.len() < PREFIX_LEN,
    ensures
        replay(log_of(payloads) + stub) == (payloads, ReplayEnd::TornPrefix),
{
    lemma_replay_append(payloads, stub);
}

/// The path of the log directory of a vehicle.
pub open spec fn directory_of(vehicle_id: i64) -> Seq<char> {
    ".cache/"@ + decimal(vehicle_id as int)
}

/// The path of the log of a vehicle.
pub open spec fn path_of(vehicle_id: i64) -> Seq<char> {
    directory_of(vehicle_id) + "/stream.dat"@
}

/// Calls `byteorder::LittleEndian::write_u32` on a buffer of four bytes and
/// returns the buffer. The contract claims that the buffer then holds the
/// four bytes of `n`, least significant first.
#[verifier::external_body]
fn length_prefix(n: u32) -> (prefix: [u8; 4])
    ensures
        prefix@ == le_bytes(n),
{
    let mut prefix = [0u8; 4];
    LittleEndian::write_u32(&mut prefix, n);
    prefix
}

/// Calls `byteorder::LittleEndian::read_u32`, which reads the first four
/// bytes of `prefix` and panics where there are fewer. The contract claims
/// that the result is the number those bytes write, least significant
/// first.
#[verifier::external_body]
fn read_length(prefix: &[u8]) -> (n: u32)
    requires
        prefix@.len() >= PREFIX_LEN,
    ensures
        n == le_value(prefix@),
{
    LittleEndian::read_u32(prefix)
}

/// The contents of a list of buffers.
pub open spec fn contents(buffers: Seq<Vec<u8>>) -> Seq<Seq<u8>> {
    Seq::new(buffers.len(), |i: int| buffers[i]@)
}

/// What a replay found.
#[derive(Debug, Clone, PartialEq, Eq)]
pub struct Replay {
    /// The payloads of the whole records, in the order of the log.
    pub records: Vec<Vec<u8>>,
    pub end: ReplayEnd,
}

impl Replay {
    /// Whether the log ends in a torn record.
    pub fn is_truncated(&self) -> (torn: bool)
        ensures
            torn == (self.end != ReplayEnd::Complete),
    {
        match self.end {
            ReplayEnd::Complete => false,
            _ => true,
        }
    }
}

/// The writer of the log of one vehicle. It frames records into a buffer;
/// the caller appends the buffer to the file.
#[derive(Debug, Clone, PartialEq, Eq)]
pub struct LocalStream {
    vehicle_id: i64,
    pending: Vec<u8>,
}

impl LocalStream {
    pub closed spec fn vehicle_id(&self) -> i64 {
        self.vehicle_id
    }

    /// The bytes framed but not yet taken.
    pub closed spec fn pending(&self) -> Seq<u8> {
        self.pending@
    }

    /// The writer for the log of `vehicle_id`, with nothing pending.
    pub fn new(vehicle_id: i64) -> (s: Self)
        ensures
            s.vehicle_id() == vehicle_id,
            s.pending() == Seq::<u8>::empty(),
    {
        LocalStream { vehicle_id, pending: Vec::new() }
    }

    /// The directory that holds the log.
    pub fn directory(&self) -> (p: String)
        ensures
            p@ == directory_of(self.vehicle_id()),
    {
        let mut p = String::from_str(".cache/");
        let id = decimal_text(self.vehicle_id);
        p.append(id.as_str());
        p
    }

    /// The path of the log.
    pub fn path(&self) -> (p: String)
        ensures
            p@ == path_of(self.vehicle_id()),
    {
        let mut p = self.directory();
        p.append("/stream.dat");
        p
    }

    /// Frames one serialised record behind what is pending. A record that
    /// is too long for a length prefix is refused and changes nothing.
    pub fn write(&mut self, payload: &[u8]) -> (r: Result<(), Error>)
        ensures
            final(self).vehicle_id() == old(self).vehicle_id(),
            payload@.len() <= u32::MAX ==> {
                &&& r is Ok
                &&& final(self).pending() == old(self).pending() + frame(payload@)
            },
            payload@.len() > u32::MAX ==> {
                &&& r == Err::<(), Error>(Error::RecordTooLong)
                &&& final(self).pending() == old(self).pending()
            },
    {
        if payload.len() > u32::MAX as usize {
            return Err(Error::RecordTooLong);
        }
        let prefix = length_prefix(payload.len() as u32);
        let ghost before = self.pending@;
        let mut i: usize = 0;
        while i < PREFIX_LEN
            invariant
                i <= PREFIX_LEN,
                prefix@.len() == PREFIX_LEN,
                self.pending@ == before + prefix@.take(i as int),
                self.vehicle_id == old(self).vehicle_id,
            decreases PREFIX_LEN - i,
        {
            self.pending.push(prefix[i]);
            i += 1;
        }
        let mut j: usize = 0;
        while j < payload.len()
            invariant
                j <= payload.len(),
                self.pending@ == before + prefix@ + payload@.take(j as int),
                self.vehicle_id == old(self).vehicle_id,
            decreases payload.len() - j,
        {
            self.pending.push(payload[j]);
            j += 1;
        }
        Ok(())
    }

    /// Hands out what is pending, for the caller to append to the file.
    pub fn take_pending(&mut self) -> (bytes: Vec<u8>)
        ensures
            bytes@ == old(self).pending(),
            final(self).pending() == Seq::<u8>::empty(),
            final(self).vehicle_id() == old(self).vehicle_id(),
    {
        let mut bytes: Vec<u8> = Vec::new();
        std::mem::swap(&mut bytes, &mut self.pending);
        bytes
    }

    /// Replays a log from its start.
    pub fn load(bytes: &[u8]) -> (found: Replay)
        ensures
            contents(found.records@) == replay(bytes@).0,
            found.end == replay(bytes@).1,
    {
        let mut records: Vec<Vec<u8>> = Vec::new();
        let mut at: usize = 0;
        let mut end = ReplayEnd::Complete;
        assert(bytes@.skip(0) =~= bytes@);
        while at < bytes.len()
            invariant_except_break
                end == ReplayEnd::Complete,
                replay(bytes@).0 == contents(records@) + replay(bytes@.skip(at as int)).0,
                replay(bytes@).1 == replay(bytes@.skip(at as int)).1,
            invariant
                at <= bytes.len(),
            ensures
                replay(bytes@).0 == contents(records@),
                replay(bytes@).1 == end,
            decreases bytes.len() - at,
        {
            let ghost tail = bytes@.skip(at as int);
            let left: usize = bytes.len() - at;
            if left < PREFIX_LEN {
                end = ReplayEnd::TornPrefix;
                break ;
            }
            let prefix = slice_subrange(bytes, at, at + PREFIX_LEN);
            let n: usize = read_length(prefix) as usize;
            if left - PREFIX_LEN < n {
                end = ReplayEnd::TornPayload;
                break ;
            }
            let payload = slice_to_vec(slice_subrange(bytes, at + PREFIX_LEN, at + PREFIX_LEN + n));
            proof {
                assert(payload@ =~= tail.subrange(PREFIX_LEN as int, PREFIX_LEN + n));
                assert(tail.skip(PREFIX_LEN + n) =~= bytes@.skip(at + PREFIX_LEN + n));
            }
            records.push(payload);
            at = at + PREFIX_LEN + n;
        }
        Replay { records, end }
    }
}

} // verus!
