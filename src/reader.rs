use vstd::prelude::*;
use crate::ident::{Nslc, joined_id};
use crate::timeconv::{CalendarParts, parts_valid, parts_le, instant_of, nstime_to_time};

verus! {

/// Decoder status: success.
pub const MS_NOERROR: i32 = 0;

/// Decoder status: the end of the file was reached.
pub const MS_ENDOFFILE: i32 = 1;

/// Decoder status: a general failure.
pub const MS_GENERROR: i32 = -1;

/// Read flag: unpack the data samples.
pub const MSF_UNPACKDATA: u32 = 0x0001;

/// Read flag: validate the CRC of version 3 records.
pub const MSF_VALIDATECRC: u32 = 0x0004;

/// What a read can end in besides a record.
#[derive(Debug, Clone, Copy, PartialEq, Eq, Structural)]
pub enum MSError {
    /// The file holds no further record.
    EOF,
    /// The decoder failed with this status code.
    Error(i32),
}

/// What a decoder status means for one read.
pub open spec fn status_result(rv: i32) -> Result<(), MSError> {
    if rv == MS_NOERROR {
        Ok(())
    } else if rv == MS_ENDOFFILE {
        Err(MSError::EOF)
    } else {
        Err(MSError::Error(rv))
    }
}

/// Maps a decoder status to the outcome of a read.
pub fn read_status(rv: i32) -> (r: Result<(), MSError>)
    ensures
        r == status_result(rv),
{
    if rv == MS_NOERROR {
        Ok(())
    } else if rv == MS_ENDOFFILE {
        Err(MSError::EOF)
    } else {
        Err(MSError::Error(rv))
    }
}

/// The item that the record sequence yields for a status, if any.
pub open spec fn status_item(rv: i32) -> Option<Result<(), MSError>> {
    match status_result(rv) {
        Err(MSError::EOF) => None,
        other => Some(other),
    }
}

/// One step of the record sequence: the item it yields and whether the
/// sequence is over afterwards.
pub open spec fn step_spec(finished: bool, rv: i32) -> (Option<Result<(), MSError>>, bool) {
    if finished {
        (None, true)
    } else {
        (status_item(rv), rv != MS_NOERROR)
    }
}

/// The state of a sequential reader over one file: its path, the decode
/// cursor, the read flags and whether the record sequence has ended.
#[derive(Debug)]
pub struct MSFileParam {
    path: String,
    fpos: i64,
    verbose: i8,
    flags: u32,
    finished: bool,
}

impl MSFileParam {
    pub closed spec fn spec_path(&self) -> Seq<char> {
        self.path@
    }

    pub closed spec fn spec_flags(&self) -> u32 {
        self.flags
    }

    pub closed spec fn spec_verbose(&self) -> i8 {
        self.verbose
    }

    pub closed spec fn spec_finished(&self) -> bool {
        self.finished
    }

    pub closed spec fn spec_cursor(&self) -> i64 {
        self.fpos
    }

    /// A reader at the start of `path`: unpacking on, CRC checks off, quiet.
    pub fn new(path: &str) -> (r: MSFileParam)
        ensures
            r.spec_path() == path@,
            r.spec_flags() == MSF_UNPACKDATA,
            r.spec_verbose() == 0,
            !r.spec_finished(),
            r.spec_cursor() == 0,
    {
        MSFileParam {
            path: path.to_owned(),
            fpos: 0,
            verbose: 0,
            flags: MSF_UNPACKDATA,
            finished: false,
        }
    }

    /// Turns unpacking of samples on later reads on or off.
    pub fn unpack_data(&mut self, unpack: bool)
        ensures
            (final(self).spec_flags() & MSF_UNPACKDATA != 0) == unpack,
            final(self).spec_flags() & !MSF_UNPACKDATA == old(self).spec_flags() & !MSF_UNPACKDATA,
            final(self).spec_path() == old(self).spec_path(),
            final(self).spec_verbose() == old(self).spec_verbose(),
            final(self).spec_finished() == old(self).spec_finished(),
            final(self).spec_cursor() == old(self).spec_cursor(),
    {
        let f: u32 = self.flags;
        if unpack {
            self.flags = f | MSF_UNPACKDATA;
            assert((f | 1u32) & 1u32 != 0 && (f | 1u32) & !1u32 == f & !1u32) by (bit_vector);
        } else {
            self.flags = f & !MSF_UNPACKDATA;
            assert((f & !1u32) & 1u32 == 0 && (f & !1u32) & !1u32 == f & !1u32) by (bit_vector);
        }
    }

    /// Turns CRC validation on later reads on or off.
    pub fn validate_crc(&mut self, validate: bool)
        ensures
            (final(self).spec_flags() & MSF_VALIDATECRC != 0) == validate,
            final(self).spec_flags() & !MSF_VALIDATECRC == old(self).spec_flags() & !MSF_VALIDATECRC,
            final(self).spec_path() == old(self).spec_path(),
            final(self).spec_verbose() == old(self).spec_verbose(),
            final(self).spec_finished() == old(self).spec_finished(),
            final(self).spec_cursor() == old(self).spec_cursor(),
    {
        let f: u32 = self.flags;
        if validate {
            self.flags = f | MSF_VALIDATECRC;
            assert((f | 4u32) & 4u32 != 0 && (f | 4u32) & !4u32 == f & !4u32) by (bit_vector);
        } else {
            self.flags = f & !MSF_VALIDATECRC;
            assert((f & !4u32) & 4u32 == 0 && (f & !4u32) & !4u32 == f & !4u32) by (bit_vector);
        }
    }

    /// Turns the decoder's diagnostic output on later reads on or off.
    pub fn verbose(&mut self, verbose: bool)
        ensures
            final(self).spec_verbose() == (if verbose { 1i8 } else { 0i8 }),
            final(self).spec_flags() == old(self).spec_flags(),
            final(self).spec_path() == old(self).spec_path(),
            final(self).spec_finished() == old(self).spec_finished(),
            final(self).spec_cursor() == old(self).spec_cursor(),
    {
        self.verbose = if verbose {
            1
        } else {
            0
        };
    }

    pub fn filename(&self) -> (r: &str)
        ensures
            r@ == self.spec_path(),
    {
        self.path.as_str()
    }

    pub fn flags(&self) -> (r: u32)
        ensures
            r == self.spec_flags(),
    {
        self.flags
    }

    pub fn verbosity(&self) -> (r: i8)
        ensures
            r == self.spec_verbose(),
    {
        self.verbose
    }

    /// The stream position that the last read left.
    pub fn cursor(&self) -> (r: i64)
        ensures
            r == self.spec_cursor(),
    {
        self.fpos
    }

    /// Whether the record sequence may still yield items, so that a read is due.
    pub fn wants_read(&self) -> (r: bool)
        ensures
            r == !self.spec_finished(),
    {
        !self.finished
    }

    /// Takes in the outcome of one read (its status and the stream position it left)
    /// and gives the item that the record sequence yields for it. The sequence
    /// ends at the end of the file, and after an error, which is its last item.
    pub fn advance(&mut self, rv: i32, fpos: i64) -> (r: Option<Result<(), MSError>>)
        ensures
            (r, final(self).spec_finished()) == step_spec(old(self).spec_finished(), rv),
            final(self).spec_cursor() == (if old(self).spec_finished() {
                old(self).spec_cursor()
            } else {
                fpos
            }),
            final(self).spec_path() == old(self).spec_path(),
            final(self).spec_flags() == old(self).spec_flags(),
            final(self).spec_verbose() == old(self).spec_verbose(),
    {
        if self.finished {
            return None;
        }
        self.fpos = fpos;
        match read_status(rv) {
            Ok(()) => Some(Ok(())),
            Err(MSError::EOF) => {
                self.finished = true;
                None
            },
            Err(e) => {
                self.finished = true;
                Some(Err(e))
            },
        }
    }
}

/// The items that the record sequence yields for a run of decoder statuses.
pub open spec fn run_items(finished: bool, rvs: Seq<i32>) -> Seq<Option<Result<(), MSError>>>
    decreases rvs.len(),
{
    if rvs.len() == 0 {
        Seq::empty()
    } else {
        let (item, fin) = step_spec(finished, rvs[0]);
        seq![item] + run_items(fin, rvs.drop_first())
    }
}

/// One item per status.
pub proof fn run_items_len(finished: bool, rvs: Seq<i32>)
    ensures
        run_items(finished, rvs).len() == rvs.len(),
    decreases rvs.len(),
{
    if rvs.len() > 0 {
        let (item, fin) = step_spec(finished, rvs[0]);
        run_items_len(fin, rvs.drop_first());
    }
}

/// A sequence that has ended yields nothing more.
pub proof fn ended_run_is_empty(rvs: Seq<i32>, k: int)
    requires
        0 <= k < rvs.len(),
    ensures
        run_items(true, rvs)[k] is None,
    decreases rvs.len(),
{
    run_items_len(true, rvs.drop_first());
    if k > 0 {
        ended_run_is_empty(rvs.drop_first(), k - 1);
    }
}

/// Once the record sequence has yielded an error, or nothing (the end of the
/// file), every later step yields nothing, whatever the decoder says: no
/// record follows an error.
pub proof fn nothing_after_error_or_end(finished: bool, rvs: Seq<i32>, i: int, j: int)
    requires
        0 <= i < j < rvs.len(),
        !(run_items(finished, rvs)[i] matches Some(Ok(_))),
    ensures
        run_items(finished, rvs)[j] is None,
    decreases rvs.len(),
{
    let (item, fin) = step_spec(finished, rvs[0]);
    run_items_len(fin, rvs.drop_first());
    if i == 0 {
        ended_run_is_empty(rvs.drop_first(), j - 1);
    } else {
        nothing_after_error_or_end(fin, rvs.drop_first(), i - 1, j - 1);
    }
}

/// A decoded record, read off the decoder's buffers at the time of its read.
#[derive(Debug)]
pub struct MSRecord {
    sid: String,
    ident: Nslc,
    pubversion: u8,
    reclen: i32,
    samplecnt: i64,
    numsamples: i64,
    start: CalendarParts,
    time_string: String,
}

impl MSRecord {
    pub closed spec fn wf(&self) -> bool {
        parts_valid(self.start)
    }

    pub closed spec fn spec_sid(&self) -> Seq<char> {
        self.sid@
    }

    pub closed spec fn spec_ident(&self) -> Nslc {
        self.ident
    }

    pub closed spec fn spec_numsamples(&self) -> i64 {
        self.numsamples
    }

    pub closed spec fn spec_samplecnt(&self) -> i64 {
        self.samplecnt
    }

    pub closed spec fn spec_pubversion(&self) -> u8 {
        self.pubversion
    }

    pub closed spec fn spec_reclen(&self) -> i32 {
        self.reclen
    }

    pub closed spec fn spec_start(&self) -> CalendarParts {
        self.start
    }

    pub closed spec fn spec_time_string(&self) -> Seq<char> {
        self.time_string@
    }

    /// Gathers a record's fields; `None` where the start time names no instant.
    pub fn new(
        sid: String,
        ident: Nslc,
        pubversion: u8,
        reclen: i32,
        samplecnt: i64,
        numsamples: i64,
        start: CalendarParts,
        time_string: String,
    ) -> (r: Option<MSRecord>)
        ensures
            r is Some <==> parts_valid(start),
            r matches Some(m) ==> {
                &&& m.wf()
                &&& m.spec_sid() == sid@
                &&& m.spec_ident() == ident
                &&& m.spec_pubversion() == pubversion
                &&& m.spec_reclen() == reclen
                &&& m.spec_samplecnt() == samplecnt
                &&& m.spec_numsamples() == numsamples
                &&& m.spec_start() == start
                &&& m.spec_time_string() == time_string@
            },
    {
        if !start.is_valid() {
            return None;
        }
        Some(MSRecord { sid, ident, pubversion, reclen, samplecnt, numsamples, start, time_string })
    }

    pub fn numsamples(&self) -> (r: i64)
        ensures
            r == self.spec_numsamples(),
    {
        self.numsamples
    }

    pub fn samplecnt(&self) -> (r: i64)
        ensures
            r == self.spec_samplecnt(),
    {
        self.samplecnt
    }

    pub fn pubversion(&self) -> (r: u8)
        ensures
            r == self.spec_pubversion(),
    {
        self.pubversion
    }

    pub fn reclen(&self) -> (r: i32)
        ensures
            r == self.spec_reclen(),
    {
        self.reclen
    }

    /// The compact source identifier.
    pub fn sid(&self) -> (r: String)
        ensures
            r@ == self.spec_sid(),
    {
        self.sid.clone()
    }

    /// `NET_STA_LOC_CHA`.
    pub fn id(&self) -> (r: String)
        ensures
            r@ == joined_id(self.spec_ident()),
    {
        self.ident.id()
    }

    pub fn network(&self) -> (r: String)
        ensures
            r@ == self.spec_ident().net@,
    {
        self.ident.net.clone()
    }

    pub fn station(&self) -> (r: String)
        ensures
            r@ == self.spec_ident().sta@,
    {
        self.ident.sta.clone()
    }

    pub fn location(&self) -> (r: String)
        ensures
            r@ == self.spec_ident().loc@,
    {
        self.ident.loc.clone()
    }

    pub fn channel(&self) -> (r: String)
        ensures
            r@ == self.spec_ident().cha@,
    {
        self.ident.cha.clone()
    }

    /// The start time, in UTC.
    pub fn start_time(&self) -> (r: time::OffsetDateTime)
        requires
            self.wf(),
        ensures
            r == instant_of(self.spec_start()),
    {
        nstime_to_time(&self.start).unwrap()
    }

    /// The start time as calendar parts.
    pub fn start_parts(&self) -> (r: CalendarParts)
        ensures
            r == self.spec_start(),
    {
        self.start
    }

    /// The start time written as year, day of year and time of day.
    pub fn time_string(&self) -> (r: String)
        ensures
            r@ == self.spec_time_string(),
    {
        self.time_string.clone()
    }
}

} // verus!
