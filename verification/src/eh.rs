//! Decoder for per-function unwind metadata.
//!
//! Each function's metadata blob maps program-counter ranges to landing
//! pads.  Given the blob and a target program counter, [`find_eh_action`]
//! resolves the action owed at that point: no interest, cleanup work at
//! some code address, a handler at some code address, or a fatal
//! [`EHAction::Terminate`] when the metadata itself is malformed.
//!
//! The blob's layout, all multi-byte values in ULEB128:
//!
//! 1. one marker byte for the landing-pad base: [`BASE_OMIT`] leaves the
//!    base at the function start; [`BASE_ABSOLUTE`], [`BASE_TEXT_REL`] or
//!    [`BASE_DATA_REL`] announce a value that follows, taken absolutely or
//!    relative to one of the two relocation bases of the frame context;
//! 2. one marker byte for type information: anything but [`BASE_OMIT`]
//!    announces a class-info offset that follows, which must stay within
//!    the blob (the simplified typing model dispatches on no type entry,
//!    so the offset is only bounds-checked);
//! 3. the byte length of the call-site table, then the table itself: an
//!    ordered run of records, each four values — range start (relative to
//!    the function start), range length, landing-pad offset (0 for none)
//!    and one-based action-chain index (0 for none);
//! 4. the action table, filling the rest of the blob.
//!
//! Every offset is bounds-checked against the blob's declared length
//! before it is followed; indexing past the end is a decode failure or,
//! in the action chain, a `Terminate`, never an out-of-range read.

use vstd::prelude::*;

verus! {

/// What one frame owes at one program counter, recomputed on every
/// personality invocation and never cached across phases.
#[derive(Clone, Copy, Debug, PartialEq, Eq, Structural)]
pub enum EHAction {
    /// The frame has no interest at this point: keep unwinding.
    NoAction,
    /// The frame owes destructor-like work at this code address, but is
    /// not a handler.
    Cleanup(u64),
    /// The frame is a handler; control should transfer to this address.
    Catch(u64),
    /// The metadata is malformed or inconsistent: fatal.
    Terminate,
}

/// The metadata blob could not be decoded at all; the dispatcher turns
/// this into a fatal answer, never into a crash.
#[derive(Clone, Copy, Debug, PartialEq, Eq, Structural)]
pub struct DecodeError;

/// What the decoder needs to know about the frame being resolved: the
/// already-adjusted instruction pointer, the function's start address,
/// and the two relocation bases used when the metadata encodes the
/// landing-pad base relative to one of them.
#[derive(Clone, Copy, Debug, PartialEq, Eq, Structural)]
pub struct EHContext {
    /// Instruction pointer to look up, already decremented when it
    /// pointed at the instruction after a call.
    pub ip: u64,
    /// Start address of the function the frame belongs to.
    pub func_start: u64,
    /// Text-relative relocation base.
    pub text_start: u64,
    /// Data-relative relocation base.
    pub data_start: u64,
}

/// Marker byte: the announced value is omitted.
pub const BASE_OMIT: u8 = 0xff;

/// Marker byte: the landing-pad base follows as an absolute value.
pub const BASE_ABSOLUTE: u8 = 0x00;

/// Marker byte: the landing-pad base follows relative to the
/// text-relative relocation base.
pub const BASE_TEXT_REL: u8 = 0x20;

/// Marker byte: the landing-pad base follows relative to the
/// data-relative relocation base.
pub const BASE_DATA_REL: u8 = 0x30;

/// One decoded call-site record, covering the half-open range
/// `[start, start + len)` of program counters relative to the function
/// start.
#[derive(Clone, Copy, Debug, PartialEq, Eq, Structural)]
pub struct CsRecord {
    /// First program counter the record covers, relative to the
    /// function start.
    pub start: u64,
    /// Length of the covered range; the record covers
    /// `[start, start + len)`.
    pub len: u64,
    /// Landing-pad offset relative to the landing-pad base; 0 means the
    /// record names no landing pad.
    pub lpad: u64,
    /// One-based offset into the action table; 0 means the record has
    /// no action-chain entry.
    pub action: u64,
}

/// The ULEB128 value starting at `pos`, read strictly below `limit`,
/// whose lowest bit lands at `shift`: `Some` of the decoded value and
/// the position after it, or `None` when the bytes run out before a
/// final byte, or the value no longer fits in 64 bits.
pub open spec fn uleb_at(bytes: Seq<u8>, pos: int, limit: int, shift: u64) -> Option<(u64, int)>
    decreases limit - pos,
{
    if pos < 0 || pos >= limit || limit > bytes.len() {
        Option::None
    } else if shift >= 64 {
        Option::None
    } else {
        let b = bytes[pos];
        let low = (b & 0x7f) as u64;
        if shift == 63 && low > 1 {
            Option::None
        } else if b & 0x80 == 0 {
            Option::Some((low << shift, pos + 1))
        } else {
            match uleb_at(bytes, pos + 1, limit, (shift + 7) as u64) {
                Option::Some((rest, end)) => Option::Some(((low << shift) | rest, end)),
                Option::None => Option::None,
            }
        }
    }
}

/// A successful ULEB128 read always advances, and never past `limit`.
pub proof fn lemma_uleb_at_bounds(bytes: Seq<u8>, pos: int, limit: int, shift: u64)
    ensures
        uleb_at(bytes, pos, limit, shift) matches Option::Some(r) ==> pos < r.1 && r.1 <= limit,
    decreases limit - pos,
{
    if 0 <= pos && pos < limit && limit <= bytes.len() && shift < 64 {
        lemma_uleb_at_bounds(bytes, pos + 1, limit, (shift + 7) as u64);
    }
}

/// Reads the ULEB128 value starting at `pos`, strictly below `limit`.
pub fn read_uleb(bytes: &[u8], pos: usize, limit: usize, shift: u64) -> (r: Option<(u64, usize)>)
    requires
        limit <= bytes@.len(),
    ensures
        r matches Option::Some(ok) ==> uleb_at(bytes@, pos as int, limit as int, shift)
            == Option::Some((ok.0, ok.1 as int)) && pos < ok.1 && ok.1 <= limit,
        r is None ==> uleb_at(bytes@, pos as int, limit as int, shift) is None,
    decreases limit - pos,
{
    if pos >= limit || shift >= 64 {
        return Option::None;
    }
    let b: u8 = bytes[pos];
    let low: u64 = (b & 0x7f) as u64;
    if shift == 63 && low > 1 {
        return Option::None;
    }
    if b & 0x80 == 0 {
        return Option::Some((low << shift, pos + 1));
    }
    match read_uleb(bytes, pos + 1, limit, shift + 7) {
        Option::Some((rest, end)) => Option::Some(((low << shift) | rest, end)),
        Option::None => Option::None,
    }
}

/// The run of call-site records encoded between `pos` and `end`:
/// `Some` of the records in table order, or `None` when a value is
/// truncated, crosses `end`, or a record's range would run past the
/// largest program counter.
pub open spec fn records_from(bytes: Seq<u8>, pos: int, end: int) -> Option<Seq<CsRecord>>
    decreases end - pos,
        via records_from_dec
{
    if pos == end {
        Option::Some(Seq::empty())
    } else if pos < 0 || pos > end || end > bytes.len() {
        Option::None
    } else {
        match uleb_at(bytes, pos, end, 0) {
            Option::None => Option::None,
            Option::Some((start, p1)) => match uleb_at(bytes, p1, end, 0) {
                Option::None => Option::None,
                Option::Some((len, p2)) => match uleb_at(bytes, p2, end, 0) {
                    Option::None => Option::None,
                    Option::Some((lpad, p3)) => match uleb_at(bytes, p3, end, 0) {
                        Option::None => Option::None,
                        Option::Some((action, p4)) => if start + len > u64::MAX {
                            Option::None
                        } else {
                            match records_from(bytes, p4, end) {
                                Option::None => Option::None,
                                Option::Some(rest) => Option::Some(
                                    seq![CsRecord { start, len, lpad, action }] + rest,
                                ),
                            }
                        },
                    },
                },
            },
        }
    }
}

#[via_fn]
proof fn records_from_dec(bytes: Seq<u8>, pos: int, end: int) {
    if pos != end && 0 <= pos && pos <= end && end <= bytes.len() {
        lemma_uleb_at_bounds(bytes, pos, end, 0);
        if let Option::Some((_, p1)) = uleb_at(bytes, pos, end, 0) {
            lemma_uleb_at_bounds(bytes, p1, end, 0);
            if let Option::Some((_, p2)) = uleb_at(bytes, p1, end, 0) {
                lemma_uleb_at_bounds(bytes, p2, end, 0);
                if let Option::Some((_, p3)) = uleb_at(bytes, p2, end, 0) {
                    lemma_uleb_at_bounds(bytes, p3, end, 0);
                }
            }
        }
    }
}

/// Parses the call-site records encoded between `pos` and `end`.
pub fn parse_call_sites(bytes: &[u8], pos: usize, end: usize) -> (r: Option<Vec<CsRecord>>)
    requires
        pos <= end,
        end <= bytes@.len(),
    ensures
        r matches Option::Some(recs) ==> records_from(bytes@, pos as int, end as int)
            == Option::Some(recs@),
        r is None ==> records_from(bytes@, pos as int, end as int) is None,
    decreases end - pos,
{
    if pos == end {
        let recs: Vec<CsRecord> = Vec::new();
        assert(recs@ =~= Seq::<CsRecord>::empty());
        return Option::Some(recs);
    }
    let r1 = read_uleb(bytes, pos, end, 0);
    match r1 {
        Option::None => Option::None,
        Option::Some((start, p1)) => match read_uleb(bytes, p1, end, 0) {
            Option::None => Option::None,
            Option::Some((len, p2)) => match read_uleb(bytes, p2, end, 0) {
                Option::None => Option::None,
                Option::Some((lpad, p3)) => match read_uleb(bytes, p3, end, 0) {
                    Option::None => Option::None,
                    Option::Some((action, p4)) => {
                        if len > u64::MAX - start {
                            return Option::None;
                        }
                        match parse_call_sites(bytes, p4, end) {
                            Option::None => Option::None,
                            Option::Some(mut rest) => {
                                let rec = CsRecord { start, len, lpad, action };
                                rest.insert(0, rec);
                                proof {
                                    assert(rest@ =~= seq![rec]
                                        + records_from(bytes@, p4 as int, end as int)->Some_0);
                                }
                                Option::Some(rest)
                            },
                        }
                    },
                },
            },
        },
    }
}

/// The first record whose half-open range covers `ip_off`; ranges are
/// non-overlapping by the table invariant, so at most one does.
pub open spec fn spec_lookup(records: Seq<CsRecord>, ip_off: u64) -> Option<CsRecord>
    decreases records.len(),
{
    if records.len() == 0 {
        Option::None
    } else if records[0].start <= ip_off && ip_off - records[0].start < records[0].len {
        Option::Some(records[0])
    } else {
        spec_lookup(records.drop_first(), ip_off)
    }
}

/// A successful lookup returns a record of the table that covers the
/// looked-up point.
pub proof fn lemma_lookup_covers(records: Seq<CsRecord>, ip_off: u64)
    ensures
        spec_lookup(records, ip_off) matches Option::Some(r) ==> records.contains(r)
            && r.start <= ip_off && ip_off < r.start + r.len,
    decreases records.len(),
{
    if records.len() > 0 {
        lemma_lookup_covers(records.drop_first(), ip_off);
        if spec_lookup(records, ip_off) is Some && !(records[0].start <= ip_off && ip_off
            - records[0].start < records[0].len) {
            let r = spec_lookup(records.drop_first(), ip_off)->Some_0;
            assert(records.drop_first().contains(r));
            let i = choose|i: int|
                0 <= i < records.drop_first().len() && records.drop_first()[i] == r;
            assert(records[i + 1] == r);
        }
    }
}

/// A point no record covers has no associated record: the lookup is
/// `None` exactly when every range of the table misses the point.
pub proof fn lemma_lookup_none(records: Seq<CsRecord>, ip_off: u64)
    ensures
        spec_lookup(records, ip_off) is None <==> forall|i: int|
            0 <= i < records.len() ==> !(#[trigger] records[i].start <= ip_off && ip_off
                < records[i].start + records[i].len),
    decreases records.len(),
{
    if records.len() > 0 {
        lemma_lookup_none(records.drop_first(), ip_off);
        assert(forall|i: int|
            1 <= i < records.len() ==> records.drop_first()[i - 1] == #[trigger] records[i]);
    }
}

/// Scans the parsed table for the first record covering `ip_off`.
pub fn lookup_call_site(records: &Vec<CsRecord>, ip_off: u64) -> (r: Option<CsRecord>)
    ensures
        r == spec_lookup(records@, ip_off),
{
    let mut i: usize = 0;
    assert(records@.skip(0) =~= records@);
    while i < records.len()
        invariant
            i <= records@.len(),
            spec_lookup(records@, ip_off) == spec_lookup(records@.skip(i as int), ip_off),
        decreases records@.len() - i,
    {
        let rec = records[i];
        assert(records@.skip(i as int)[0] == records@[i as int]);
        if rec.start <= ip_off && ip_off - rec.start < rec.len {
            return Option::Some(rec);
        }
        assert(records@.skip(i as int).drop_first() =~= records@.skip(i as int + 1));
        i = i + 1;
    }
    assert(records@.skip(i as int) =~= Seq::<CsRecord>::empty());
    Option::None
}

/// The landing-pad base announced by the blob's first byte, and the
/// position after it: the function start when omitted, otherwise the
/// value that follows, absolute or shifted by the named relocation
/// base.  `None` when the byte names no known base, the value is
/// truncated, or the shifted base would leave the address space.
pub open spec fn spec_lpad_base(bytes: Seq<u8>, ctx: EHContext) -> Option<(u64, int)> {
    if bytes.len() < 1 {
        Option::None
    } else {
        let b0 = bytes[0];
        if b0 == BASE_OMIT {
            Option::Some((ctx.func_start, 1))
        } else {
            match uleb_at(bytes, 1, bytes.len() as int, 0) {
                Option::None => Option::None,
                Option::Some((v, p)) => if b0 == BASE_ABSOLUTE {
                    Option::Some((v, p))
                } else if b0 == BASE_TEXT_REL {
                    if ctx.text_start + v > u64::MAX {
                        Option::None
                    } else {
                        Option::Some(((ctx.text_start + v) as u64, p))
                    }
                } else if b0 == BASE_DATA_REL {
                    if ctx.data_start + v > u64::MAX {
                        Option::None
                    } else {
                        Option::Some(((ctx.data_start + v) as u64, p))
                    }
                } else {
                    Option::None
                },
            }
        }
    }
}

/// Reads the landing-pad base from the head of the blob.
pub fn read_lpad_base(bytes: &[u8], ctx: &EHContext) -> (r: Option<(u64, usize)>)
    requires
        bytes@.len() >= 1,
    ensures
        r matches Option::Some(ok) ==> spec_lpad_base(bytes@, *ctx) == Option::Some((
            ok.0,
            ok.1 as int,
        )) && 0 < ok.1 && ok.1 <= bytes@.len(),
        r is None ==> spec_lpad_base(bytes@, *ctx) is None,
{
    let b0: u8 = bytes[0];
    if b0 == BASE_OMIT {
        return Option::Some((ctx.func_start, 1));
    }
    match read_uleb(bytes, 1, bytes.len(), 0) {
        Option::None => Option::None,
        Option::Some((v, p)) => {
            if b0 == BASE_ABSOLUTE {
                Option::Some((v, p))
            } else if b0 == BASE_TEXT_REL {
                if v > u64::MAX - ctx.text_start {
                    Option::None
                } else {
                    Option::Some((ctx.text_start + v, p))
                }
            } else if b0 == BASE_DATA_REL {
                if v > u64::MAX - ctx.data_start {
                    Option::None
                } else {
                    Option::Some((ctx.data_start + v, p))
                }
            } else {
                Option::None
            }
        },
    }
}

/// The position after the type-information field that starts at `pos`:
/// one byte when omitted, otherwise the marker byte and a class-info
/// offset that must stay within the blob.
pub open spec fn spec_skip_ttype(bytes: Seq<u8>, pos: int) -> Option<int> {
    if pos < 0 || pos >= bytes.len() {
        Option::None
    } else {
        let b1 = bytes[pos];
        if b1 == BASE_OMIT {
            Option::Some(pos + 1)
        } else {
            match uleb_at(bytes, pos + 1, bytes.len() as int, 0) {
                Option::None => Option::None,
                Option::Some((tt, q)) => if q + tt > bytes.len() {
                    Option::None
                } else {
                    Option::Some(q)
                },
            }
        }
    }
}

/// Skips the type-information field, bounds-checking its offset.
pub fn skip_ttype(bytes: &[u8], pos: usize) -> (r: Option<usize>)
    ensures
        r matches Option::Some(q) ==> spec_skip_ttype(bytes@, pos as int) == Option::Some(
            q as int,
        ) && pos < q && q <= bytes@.len(),
        r is None ==> spec_skip_ttype(bytes@, pos as int) is None,
{
    if pos >= bytes.len() {
        return Option::None;
    }
    let b1: u8 = bytes[pos];
    if b1 == BASE_OMIT {
        return Option::Some(pos + 1);
    }
    match read_uleb(bytes, pos + 1, bytes.len(), 0) {
        Option::None => Option::None,
        Option::Some((tt, q)) => {
            if tt > (bytes.len() - q) as u64 {
                Option::None
            } else {
                Option::Some(q)
            }
        },
    }
}

/// The call-site table's bounds: the byte length read at `pos` must
/// keep the whole table within the blob.
pub open spec fn spec_table_bounds(bytes: Seq<u8>, pos: int) -> Option<(int, int)> {
    match uleb_at(bytes, pos, bytes.len() as int, 0) {
        Option::None => Option::None,
        Option::Some((tlen, p)) => if p + tlen > bytes.len() {
            Option::None
        } else {
            Option::Some((p, p + tlen))
        },
    }
}

/// Reads the call-site table's byte length and bounds-checks it.
pub fn read_table_bounds(bytes: &[u8], pos: usize) -> (r: Option<(usize, usize)>)
    ensures
        r matches Option::Some(ok) ==> spec_table_bounds(bytes@, pos as int) == Option::Some((
            ok.0 as int,
            ok.1 as int,
        )) && ok.0 <= ok.1 && ok.1 <= bytes@.len(),
        r is None ==> spec_table_bounds(bytes@, pos as int) is None,
{
    match read_uleb(bytes, pos, bytes.len(), 0) {
        Option::None => Option::None,
        Option::Some((tlen, p)) => {
            if tlen > (bytes.len() - p) as u64 {
                Option::None
            } else {
                Option::Some((p, p + (tlen as usize)))
            }
        },
    }
}

/// The action a covering record resolves to.  A record without a
/// landing pad is of no interest.  A landing pad that would leave the
/// address space is malformed: `Terminate`.  A record without an
/// action-chain entry owes cleanup work; one with an entry is a handler
/// — in the simplified typing model a populated entry is an immediate
/// catch — provided the entry's two values can be read inside the blob;
/// a truncated chain is malformed: `Terminate`.
pub open spec fn spec_record_action(
    bytes: Seq<u8>,
    table_end: int,
    base: u64,
    rec: CsRecord,
) -> EHAction {
    if rec.lpad == 0 {
        EHAction::NoAction
    } else if base + rec.lpad > u64::MAX {
        EHAction::Terminate
    } else {
        let pad = (base + rec.lpad) as u64;
        if rec.action == 0 {
            EHAction::Cleanup(pad)
        } else {
            match uleb_at(bytes, table_end + rec.action - 1, bytes.len() as int, 0) {
                Option::None => EHAction::Terminate,
                Option::Some((filter, e1)) => match uleb_at(bytes, e1, bytes.len() as int, 0) {
                    Option::None => EHAction::Terminate,
                    Option::Some(next) => EHAction::Catch(pad),
                },
            }
        }
    }
}

/// Malformed metadata resolves to `Terminate`, never to a read past
/// the blob: a covering record whose landing pad would leave the
/// address space, or whose action-chain entry starts at or past the
/// blob's declared length, is fatal.
pub proof fn lemma_malformed_record_terminates(
    bytes: Seq<u8>,
    table_end: int,
    base: u64,
    rec: CsRecord,
)
    requires
        rec.lpad != 0,
        base + rec.lpad > u64::MAX || (rec.action != 0 && table_end + rec.action - 1
            >= bytes.len()),
    ensures
        spec_record_action(bytes, table_end, base, rec) == EHAction::Terminate,
{
}

/// Resolves the action a record owes, walking its action-chain entry.
pub fn record_action(bytes: &[u8], table_end: usize, base: u64, rec: &CsRecord) -> (a: EHAction)
    requires
        table_end <= bytes@.len(),
    ensures
        a == spec_record_action(bytes@, table_end as int, base, *rec),
{
    if rec.lpad == 0 {
        return EHAction::NoAction;
    }
    if rec.lpad > u64::MAX - base {
        return EHAction::Terminate;
    }
    let pad: u64 = base + rec.lpad;
    if rec.action == 0 {
        return EHAction::Cleanup(pad);
    }
    let rem: u64 = (bytes.len() - table_end) as u64;
    if rec.action - 1 >= rem {
        assert(uleb_at(bytes@, table_end + rec.action - 1, bytes@.len() as int, 0) is None);
        return EHAction::Terminate;
    }
    let entry: usize = table_end + ((rec.action - 1) as usize);
    match read_uleb(bytes, entry, bytes.len(), 0) {
        Option::None => EHAction::Terminate,
        Option::Some((_filter, e1)) => match read_uleb(bytes, e1, bytes.len(), 0) {
            Option::None => EHAction::Terminate,
            Option::Some(_next) => EHAction::Catch(pad),
        },
    }
}

/// The action owed at the context's instruction pointer, as the whole
/// blob determines it: `Ok` of the resolved action, or `Err` when the
/// metadata cannot be decoded.  An empty blob means the function has no
/// metadata at all: no interest.  A context whose instruction pointer
/// lies below the function start is malformed.
pub open spec fn spec_find_eh_action(bytes: Seq<u8>, ctx: EHContext) -> Result<
    EHAction,
    DecodeError,
> {
    if bytes.len() == 0 {
        Result::Ok(EHAction::NoAction)
    } else if ctx.ip < ctx.func_start {
        Result::Err(DecodeError)
    } else {
        let ip_off = (ctx.ip - ctx.func_start) as u64;
        match spec_lpad_base(bytes, ctx) {
            Option::None => Result::Err(DecodeError),
            Option::Some((base, p1)) => match spec_skip_ttype(bytes, p1) {
                Option::None => Result::Err(DecodeError),
                Option::Some(p2) => match spec_table_bounds(bytes, p2) {
                    Option::None => Result::Err(DecodeError),
                    Option::Some((ts, te)) => match records_from(bytes, ts, te) {
                        Option::None => Result::Err(DecodeError),
                        Option::Some(recs) => match spec_lookup(recs, ip_off) {
                            Option::None => Result::Ok(EHAction::NoAction),
                            Option::Some(rec) => Result::Ok(
                                spec_record_action(bytes, te, base, rec),
                            ),
                        },
                    },
                },
            },
        }
    }
}

/// Decodes the metadata blob for one function and resolves the action
/// owed at the context's instruction pointer.  Every offset is
/// bounds-checked before it is followed; malformed metadata comes back
/// as `Err` or as `Terminate`, never as an out-of-range read.
pub fn find_eh_action(lsda: &[u8], ctx: &EHContext) -> (r: Result<EHAction, DecodeError>)
    ensures
        r == spec_find_eh_action(lsda@, *ctx),
{
    if lsda.len() == 0 {
        return Result::Ok(EHAction::NoAction);
    }
    if ctx.ip < ctx.func_start {
        return Result::Err(DecodeError);
    }
    let ip_off: u64 = ctx.ip - ctx.func_start;
    let (base, p1) = match read_lpad_base(lsda, ctx) {
        Option::None => {
            return Result::Err(DecodeError);
        },
        Option::Some(ok) => ok,
    };
    let p2 = match skip_ttype(lsda, p1) {
        Option::None => {
            return Result::Err(DecodeError);
        },
        Option::Some(q) => q,
    };
    let (ts, te) = match read_table_bounds(lsda, p2) {
        Option::None => {
            return Result::Err(DecodeError);
        },
        Option::Some(ok) => ok,
    };
    let recs = match parse_call_sites(lsda, ts, te) {
        Option::None => {
            return Result::Err(DecodeError);
        },
        Option::Some(v) => v,
    };
    match lookup_call_site(&recs, ip_off) {
        Option::None => Result::Ok(EHAction::NoAction),
        Option::Some(rec) => Result::Ok(record_action(lsda, te, base, &rec)),
    }
}

} // verus!
