use vstd::prelude::*;
use crate::ident::{Nslc, joined_id};
use crate::reader::{MSError, MS_NOERROR, MS_GENERROR};
use crate::sample::{MSSampleType, tag_of, width_of, is_known_tag, type_of_tag, le_i32_at, decode_i32_le};
use crate::timeconv::{CalendarParts, parts_valid, parts_le, instant_of, nstime_to_time};

verus! {

/// A contiguous run of samples of one channel: its time span, counts, native
/// sample type and raw payload.
#[derive(Debug)]
pub struct MSTraceSegment {
    start: CalendarParts,
    end: CalendarParts,
    samplecnt: i64,
    numsamples: i64,
    sampletype: MSSampleType,
    data: Vec<u8>,
}

/// The segment as the contracts see it.
pub struct SegmentView {
    pub start: CalendarParts,
    pub end: CalendarParts,
    pub samplecnt: int,
    pub numsamples: int,
    pub sampletype: MSSampleType,
    pub data: Seq<u8>,
}

/// The samples were decoded: the counts agree and the payload is not empty.
pub open spec fn unpacked(s: SegmentView) -> bool {
    s.samplecnt == s.numsamples && s.data.len() > 0
}

/// The payload holds `count` samples of type `t`.
pub open spec fn payload_fits(count: int, t: MSSampleType, data: Seq<u8>) -> bool {
    0 <= count && count * width_of(t) <= data.len()
}

/// Both times name instants, the start is not after the end, and a decoded payload holds every declared
/// sample of its native type.
pub open spec fn segment_wf(s: SegmentView) -> bool {
    &&& parts_valid(s.start)
    &&& parts_valid(s.end)
    &&& parts_le(s.start, s.end)
    &&& unpacked(s) ==> payload_fits(s.samplecnt, s.sampletype, s.data)
}

/// The declared samples of an `Integer32` payload.
pub open spec fn i32_samples(s: SegmentView) -> Seq<i32> {
    Seq::new(s.samplecnt as nat, |i: int| le_i32_at(s.data, i))
}

/// Whether asking for samples of type `t` needs the decoder to convert the payload.
pub open spec fn needs_conversion(s: SegmentView, t: MSSampleType) -> bool {
    unpacked(s) && s.sampletype != t
}

/// The decoder's answer to a conversion request as plain values.
pub open spec fn outcome_view(o: Result<Vec<u8>, i32>) -> Result<Seq<u8>, i32> {
    match o {
        Ok(b) => Ok(b@),
        Err(c) => Err(c),
    }
}

/// The segment after a request for samples of type `t`, where the decoder,
/// if it was asked, answered `outcome`: the converted payload, or the status
/// code of its failure. A failed or short conversion, or one asked of a
/// segment whose samples were never decoded, leaves the segment as it was.
pub open spec fn converted(s: SegmentView, t: MSSampleType, outcome: Result<Seq<u8>, i32>) -> SegmentView {
    if needs_conversion(s, t) {
        match outcome {
            Ok(b) => if payload_fits(s.samplecnt, t, b) {
                SegmentView { sampletype: t, data: b, ..s }
            } else {
                s
            },
            Err(_) => s,
        }
    } else {
        s
    }
}

/// What a request for samples of type `t` returns, given the same answer.
/// A segment whose samples were never decoded has nothing to convert: that
/// request fails.
pub open spec fn conversion_result(s: SegmentView, t: MSSampleType, outcome: Result<Seq<u8>, i32>) -> Result<(), MSError> {
    if !unpacked(s) {
        Err(MSError::Error(MS_GENERROR))
    } else if needs_conversion(s, t) {
        match outcome {
            Ok(b) => if payload_fits(s.samplecnt, t, b) {
                Ok(())
            } else {
                Err(MSError::Error(MS_GENERROR))
            },
            Err(c) => Err(MSError::Error(c)),
        }
    } else {
        Ok(())
    }
}

impl View for MSTraceSegment {
    type V = SegmentView;

    closed spec fn view(&self) -> SegmentView {
        SegmentView {
            start: self.start,
            end: self.end,
            samplecnt: self.samplecnt as int,
            numsamples: self.numsamples as int,
            sampletype: self.sampletype,
            data: self.data@,
        }
    }
}

/// Whether `count` samples of type `t` fit in `data`.
fn fits(count: i64, t: MSSampleType, data: &Vec<u8>) -> (r: bool)
    ensures
        r == payload_fits(count as int, t, data@),
{
    if count < 0 {
        return false;
    }
    let w: usize = t.width();
    let len: usize = data.len();
    let c: u128 = count as u128;
    let wide: u128 = w as u128;
    assert(c * wide <= 0x8000_0000_0000_0000u128 * 8) by (nonlinear_arith)
        requires
            c < 0x8000_0000_0000_0000u128,
            wide <= 8,
    ;
    let need: u128 = c * wide;
    need <= len as u128
}

impl MSTraceSegment {
    /// Gathers a segment's fields. `None` where the sample type tag is not one
    /// of the three, a time names no instant, or a decoded payload is shorter
    /// than its declared samples.
    pub fn new(
        start: CalendarParts,
        end: CalendarParts,
        samplecnt: i64,
        numsamples: i64,
        sampletype: i8,
        data: Vec<u8>,
    ) -> (r: Option<MSTraceSegment>)
        ensures
            r is Some <==> is_known_tag(sampletype) && segment_wf(
                (SegmentView {
                    start,
                    end,
                    samplecnt: samplecnt as int,
                    numsamples: numsamples as int,
                    sampletype: type_of_tag(sampletype),
                    data: data@,
                }),
            ),
            r matches Some(s) ==> s.wf(),
            r matches Some(s) ==> s@ == (SegmentView {
                start,
                end,
                samplecnt: samplecnt as int,
                numsamples: numsamples as int,
                sampletype: type_of_tag(sampletype),
                data: data@,
            }),
    {
        let t = match MSSampleType::from_char(sampletype) {
            Some(t) => t,
            None => return None,
        };
        if !start.is_valid() || !end.is_valid() || !start.le(&end) {
            return None;
        }
        if samplecnt == numsamples && data.len() > 0 && !fits(samplecnt, t, &data) {
            return None;
        }
        Some(MSTraceSegment { start, end, samplecnt, numsamples, sampletype: t, data })
    }

    pub closed spec fn wf(&self) -> bool {
        segment_wf(self@)
    }

    pub fn is_wf(&self) -> (r: bool)
        ensures
            r == self.wf(),
    {
        self.start.is_valid() && self.end.is_valid() && self.start.le(&self.end) && (!self.data_unpacked() || fits(
            self.samplecnt,
            self.sampletype,
            &self.data,
        ))
    }

    pub fn start_time(&self) -> (r: time::OffsetDateTime)
        requires
            self.wf(),
        ensures
            r == instant_of(self@.start),
    {
        nstime_to_time(&self.start).unwrap()
    }

    pub fn end_time(&self) -> (r: time::OffsetDateTime)
        requires
            self.wf(),
        ensures
            r == instant_of(self@.end),
    {
        nstime_to_time(&self.end).unwrap()
    }

    pub fn start_parts(&self) -> (r: CalendarParts)
        ensures
            r == self@.start,
    {
        self.start
    }

    pub fn end_parts(&self) -> (r: CalendarParts)
        ensures
            r == self@.end,
    {
        self.end
    }

    /// The number of samples the segment declares.
    pub fn samplecnt(&self) -> (r: i64)
        ensures
            r == self@.samplecnt,
    {
        self.samplecnt
    }

    /// The number of samples that were decoded.
    pub fn numsamples(&self) -> (r: i64)
        ensures
            r == self@.numsamples,
    {
        self.numsamples
    }

    /// The size of the payload in bytes.
    pub fn datasize(&self) -> (r: u64)
        ensures
            r == self@.data.len(),
    {
        self.data.len() as u64
    }

    pub fn sampletype(&self) -> (r: MSSampleType)
        ensures
            r == self@.sampletype,
    {
        self.sampletype
    }

    /// The raw payload.
    pub fn data(&self) -> (r: &Vec<u8>)
        ensures
            r@ == self@.data,
    {
        &self.data
    }

    /// Whether the samples were decoded; no sample can be read otherwise.
    pub fn data_unpacked(&self) -> (r: bool)
        ensures
            r == unpacked(self@),
    {
        self.samplecnt == self.numsamples && self.data.len() > 0
    }

    /// The tag of the conversion that the decoder must make before samples of
    /// type `t` can be read, if one is needed.
    pub fn conversion_request(&self, t: MSSampleType) -> (r: Option<i8>)
        ensures
            r is Some <==> needs_conversion(self@, t),
            r matches Some(c) ==> c == tag_of(t),
    {
        if self.data_unpacked() && self.sampletype != t {
            Some(t.as_char())
        } else {
            None
        }
    }

    /// Takes in the decoder's answer to a conversion to type `t`: the converted
    /// payload, or the status code of its failure. Where no conversion is
    /// needed the answer is not looked at and nothing changes; a segment whose
    /// samples were never decoded is left as it is and the request fails.
    pub fn convert_data(&mut self, t: MSSampleType, outcome: Result<Vec<u8>, i32>) -> (r: Result<(), MSError>)
        requires
            old(self).wf(),
        ensures
            final(self).wf(),
            final(self)@ == converted(old(self)@, t, outcome_view(outcome)),
            r == conversion_result(old(self)@, t, outcome_view(outcome)),
    {
        if !self.data_unpacked() {
            return Err(MSError::Error(MS_GENERROR));
        }
        if self.sampletype == t {
            return Ok(());
        }
        match outcome {
            Ok(b) => {
                if fits(self.samplecnt, t, &b) {
                    self.data = b;
                    self.sampletype = t;
                    Ok(())
                } else {
                    Err(MSError::Error(MS_GENERROR))
                }
            },
            Err(c) => Err(MSError::Error(c)),
        }
    }

    /// The declared samples as 32-bit integers, copied out of the payload.
    /// Empty where the samples were not decoded; `None` where the payload is of
    /// another type and must be converted first.
    pub fn to_vec_i32(&self) -> (r: Option<Vec<i32>>)
        requires
            self.wf(),
        ensures
            !unpacked(self@) ==> (r matches Some(v) && v@.len() == 0),
            unpacked(self@) && self@.sampletype == MSSampleType::Integer32 ==> (r matches Some(v)
                && v@ == i32_samples(self@) && v@.len() == self@.samplecnt),
            unpacked(self@) && self@.sampletype != MSSampleType::Integer32 ==> r is None,
    {
        if !self.data_unpacked() {
            return Some(Vec::new());
        }
        if self.sampletype != MSSampleType::Integer32 {
            return None;
        }
        let len: usize = self.data.len();
        assert(self.samplecnt <= len);
        let n: usize = self.samplecnt as usize;
        assert(n as int == self@.samplecnt);
        let v = decode_i32_le(self.data.as_slice(), n);
        assert(v@ =~= i32_samples(self@));
        Some(v)
    }
}

/// A channel holds at least one segment, every segment is well formed, the
/// segments come in ascending order of start time and their number fits the
/// count type. The channel's earliest time is its first segment's start, its
/// latest time the latest of its segments' ends, and the one is not after the
/// other.
#[verifier::opaque]
pub open spec fn channel_fields_wf(earliest: CalendarParts, latest: CalendarParts, segments: Seq<MSTraceSegment>) -> bool {
    &&& parts_valid(earliest)
    &&& parts_valid(latest)
    &&& parts_le(earliest, latest)
    &&& 1 <= segments.len() <= u32::MAX
    &&& forall|i: int| 0 <= i < segments.len() ==> #[trigger] segments[i].wf()
    &&& forall|i: int|
        0 <= i < segments.len() - 1 ==> parts_le(#[trigger] segments[i]@.start, segments[i + 1]@.start)
    &&& earliest == segments[0]@.start
    &&& forall|i: int| 0 <= i < segments.len() ==> parts_le(#[trigger] segments[i]@.end, latest)
    &&& exists|i: int| 0 <= i < segments.len() && #[trigger] segments[i]@.end == latest
}

/// Each segment of a well-formed channel is well formed.
pub proof fn channel_segment_wf(earliest: CalendarParts, latest: CalendarParts, segments: Seq<MSTraceSegment>, i: int)
    requires
        channel_fields_wf(earliest, latest, segments),
        0 <= i < segments.len(),
    ensures
        segments[i].wf(),
        1 <= segments.len() <= u32::MAX,
{
    reveal(channel_fields_wf);
}

/// A well-formed channel's times name instants, the earliest not after the latest.
pub proof fn channel_times_valid(earliest: CalendarParts, latest: CalendarParts, segments: Seq<MSTraceSegment>)
    requires
        channel_fields_wf(earliest, latest, segments),
    ensures
        parts_valid(earliest),
        parts_valid(latest),
        parts_le(earliest, latest),
        1 <= segments.len() <= u32::MAX,
{
    reveal(channel_fields_wf);
}

/// What a well-formed channel states of its segments: they come in ascending
/// order of start time, the channel's earliest time is the first start, and
/// its latest time is the latest of the segments' ends.
pub proof fn channel_span(c: MSTraceID)
    requires
        c.wf(),
    ensures
        c.spec_earliest() == c.spec_segments()[0]@.start,
        forall|i: int|
            0 <= i < c.spec_segments().len() - 1 ==> parts_le(
                #[trigger] c.spec_segments()[i]@.start,
                c.spec_segments()[i + 1]@.start,
            ),
        forall|i: int|
            0 <= i < c.spec_segments().len() ==> parts_le(#[trigger] c.spec_segments()[i]@.end, c.spec_latest()),
        exists|i: int| 0 <= i < c.spec_segments().len() && #[trigger] c.spec_segments()[i]@.end == c.spec_latest(),
{
    reveal(channel_fields_wf);
}

/// Segments whose times are unchanged keep a channel well formed.
proof fn same_times_keep_channel_wf(
    earliest: CalendarParts,
    latest: CalendarParts,
    before: Seq<MSTraceSegment>,
    after: Seq<MSTraceSegment>,
)
    requires
        channel_fields_wf(earliest, latest, before),
        after.len() == before.len(),
        forall|k: int|
            #![trigger after[k]]
            0 <= k < after.len() ==> after[k].wf() && after[k]@.start == before[k]@.start && after[k]@.end
                == before[k]@.end,
    ensures
        channel_fields_wf(earliest, latest, after),
{
    reveal(channel_fields_wf);
    let w = choose|k: int| 0 <= k < before.len() && #[trigger] before[k]@.end == latest;
    assert(after[w]@.end == latest);
    assert forall|k: int| 0 <= k < after.len() - 1 implies parts_le(
        #[trigger] after[k]@.start,
        after[k + 1]@.start,
    ) by {
        assert(parts_le(before[k]@.start, before[k + 1]@.start));
        assert(after[k + 1]@.start == before[k + 1]@.start);
    }
    assert forall|k: int| 0 <= k < after.len() implies parts_le(#[trigger] after[k]@.end, latest) by {
        assert(parts_le(before[k]@.end, latest));
    }
    assert(after[0]@.start == before[0]@.start);
}

/// One channel of an archive: its identity, time span, publication version
/// and its segments in ascending time order.
#[derive(Debug)]
pub struct MSTraceID {
    sid: String,
    ident: Nslc,
    earliest: CalendarParts,
    latest: CalendarParts,
    pubversion: u8,
    segments: Vec<MSTraceSegment>,
}

impl MSTraceID {
    pub closed spec fn spec_sid(&self) -> Seq<char> {
        self.sid@
    }

    pub closed spec fn spec_ident(&self) -> Nslc {
        self.ident
    }

    pub closed spec fn spec_earliest(&self) -> CalendarParts {
        self.earliest
    }

    pub closed spec fn spec_latest(&self) -> CalendarParts {
        self.latest
    }

    pub closed spec fn spec_pubversion(&self) -> u8 {
        self.pubversion
    }

    pub closed spec fn spec_segments(&self) -> Seq<MSTraceSegment> {
        self.segments@
    }

    pub open spec fn wf(&self) -> bool {
        &&& channel_fields_wf(self.spec_earliest(), self.spec_latest(), self.spec_segments())
        &&& 1 <= self.spec_segments().len()
        &&& parts_le(self.spec_earliest(), self.spec_latest())
    }

    pub fn is_wf(&self) -> (r: bool)
        ensures
            r == self.wf(),
    {
        proof {
            reveal(channel_fields_wf);
        }
        let n: usize = self.segments.len();
        if !self.earliest.is_valid() || !self.latest.is_valid() || !self.earliest.le(&self.latest)
            || n == 0 || n > 0xffff_ffff {
            return false;
        }
        if self.earliest != self.segments[0].start_parts() {
            return false;
        }
        let mut found: bool = false;
        let mut i: usize = 0;
        while i < n
            invariant
                n == self.segments@.len(),
                i <= n,
                forall|k: int| 0 <= k < i ==> #[trigger] self.segments@[k].wf(),
                forall|k: int| 0 <= k < i && k < n - 1 ==> parts_le(#[trigger] self.segments@[k]@.start, self.segments@[k + 1]@.start),
                forall|k: int| 0 <= k < i ==> parts_le(#[trigger] self.segments@[k]@.end, self.latest),
                found <==> exists|k: int| 0 <= k < i && #[trigger] self.segments@[k]@.end == self.latest,
            decreases n - i,
        {
            proof {
                reveal(channel_fields_wf);
            }
            let seg = &self.segments[i];
            if !seg.is_wf() || !seg.end_parts().le(&self.latest) {
                return false;
            }
            if i + 1 < n && !seg.start_parts().le(&self.segments[i + 1].start_parts()) {
                return false;
            }
            if seg.end_parts() == self.latest {
                found = true;
            }
            i = i + 1;
        }
        found
    }

    /// Gathers a channel's fields; `None` where the result would not be well formed.
    pub fn new(
        sid: String,
        ident: Nslc,
        earliest: CalendarParts,
        latest: CalendarParts,
        pubversion: u8,
        segments: Vec<MSTraceSegment>,
    ) -> (r: Option<MSTraceID>)
        ensures
            r matches Some(c) ==> {
                &&& c.wf()
                &&& c.spec_sid() == sid@
                &&& c.spec_ident() == ident
                &&& c.spec_earliest() == earliest
                &&& c.spec_latest() == latest
                &&& c.spec_pubversion() == pubversion
                &&& c.spec_segments() == segments@
            },
            r is Some <==> channel_fields_wf(earliest, latest, segments@),
    {
        let c = MSTraceID { sid, ident, earliest, latest, pubversion, segments };
        proof {
            if channel_fields_wf(c.earliest, c.latest, c.segments@) {
                channel_times_valid(c.earliest, c.latest, c.segments@);
            }
        }
        if c.is_wf() {
            Some(c)
        } else {
            None
        }
    }

    /// The compact source identifier.
    pub fn sid(&self) -> (r: String)
        ensures
            r@ == self.spec_sid(),
    {
        self.sid.clone()
    }

    pub fn sid_ref(&self) -> (r: &String)
        ensures
            r@ == self.spec_sid(),
    {
        &self.sid
    }

    /// `NET_STA_LOC_CHA`.
    pub fn id(&self) -> (r: String)
        ensures
            r@ == joined_id(self.spec_ident()),
    {
        self.ident.id()
    }

    pub fn network(&self) -> (r: String)
        ensures
            r@ == self.spec_ident().net@,
    {
        self.ident.net.clone()
    }

    pub fn station(&self) -> (r: String)
        ensures
            r@ == self.spec_ident().sta@,
    {
        self.ident.sta.clone()
    }

    pub fn location(&self) -> (r: String)
        ensures
            r@ == self.spec_ident().loc@,
    {
        self.ident.loc.clone()
    }

    pub fn channel(&self) -> (r: String)
        ensures
            r@ == self.spec_ident().cha@,
    {
        self.ident.cha.clone()
    }

    /// The time of the earliest sample, in UTC.
    pub fn start_time(&self) -> (r: time::OffsetDateTime)
        requires
            self.wf(),
        ensures
            r == instant_of(self.spec_earliest()),
    {
        proof {
            channel_times_valid(self.earliest, self.latest, self.segments@);
        }
        nstime_to_time(&self.earliest).unwrap()
    }

    /// The time of the latest sample, in UTC.
    pub fn end_time(&self) -> (r: time::OffsetDateTime)
        requires
            self.wf(),
        ensures
            r == instant_of(self.spec_latest()),
    {
        proof {
            channel_times_valid(self.earliest, self.latest, self.segments@);
        }
        nstime_to_time(&self.latest).unwrap()
    }

    pub fn pubversion(&self) -> (r: u8)
        ensures
            r == self.spec_pubversion(),
    {
        self.pubversion
    }

    pub fn numsegments(&self) -> (r: u32)
        requires
            self.wf(),
        ensures
            r == self.spec_segments().len(),
    {
        proof {
            channel_times_valid(self.earliest, self.latest, self.segments@);
        }
        self.segments.len() as u32
    }

    /// The segments in ascending time order; each call starts from the first.
    pub fn segments(&self) -> (r: &[MSTraceSegment])
        ensures
            r@ == self.spec_segments(),
    {
        self.segments.as_slice()
    }

    /// Hands the decoder's answer to a conversion request to segment `i`
    /// (see `MSTraceSegment::convert_data`); the other segments stay as they are.
    pub fn convert_segment(
        &mut self,
        i: usize,
        t: MSSampleType,
        outcome: Result<Vec<u8>, i32>,
    ) -> (r: Result<(), MSError>)
        requires
            old(self).wf(),
            i < old(self).spec_segments().len(),
        ensures
            final(self).wf(),
            r == conversion_result(old(self).spec_segments()[i as int]@, t, outcome_view(outcome)),
            final(self).spec_segments().len() == old(self).spec_segments().len(),
            final(self).spec_segments()[i as int]@ == converted(
                old(self).spec_segments()[i as int]@,
                t,
                outcome_view(outcome),
            ),
            forall|k: int|
                0 <= k < old(self).spec_segments().len() && k != i ==> #[trigger] final(self).spec_segments()[k]
                    == old(self).spec_segments()[k],
            final(self).spec_sid() == old(self).spec_sid(),
            final(self).spec_ident() == old(self).spec_ident(),
            final(self).spec_earliest() == old(self).spec_earliest(),
            final(self).spec_latest() == old(self).spec_latest(),
            final(self).spec_pubversion() == old(self).spec_pubversion(),
    {
        let ghost before = self.segments@;
        proof {
            channel_segment_wf(self.earliest, self.latest, before, i as int);
        }
        let mut seg = self.segments.remove(i);
        assert(seg.wf());
        let r = seg.convert_data(t, outcome);
        self.segments.insert(i, seg);
        assert forall|k: int| 0 <= k < self.segments@.len() implies #[trigger] self.segments@[k].wf()
            && self.segments@[k]@.start == before[k]@.start && self.segments@[k]@.end == before[k]@.end by {
            if k != i {
                channel_segment_wf(self.earliest, self.latest, before, k);
                assert(self.segments@[k] == before[k]);
            }
        }
        proof {
            same_times_keep_channel_wf(self.earliest, self.latest, before, self.segments@);
        }
        r
    }
}

/// Two channels with one identity: the same source identifier and
/// publication version.
pub open spec fn same_identity(a: MSTraceID, b: MSTraceID) -> bool {
    a.spec_sid() == b.spec_sid() && a.spec_pubversion() == b.spec_pubversion()
}

/// Every channel is well formed, no two share an identity, and their number
/// fits the count type.
pub open spec fn channels_wf(traces: Seq<MSTraceID>) -> bool {
    &&& traces.len() <= u32::MAX
    &&& forall|i: int| 0 <= i < traces.len() ==> #[trigger] traces[i].wf()
    &&& forall|i: int, j: int|
        0 <= i < j < traces.len() ==> !same_identity(#[trigger] traces[i], #[trigger] traces[j])
}

/// Whether the channels are fit to form a loaded archive.
fn check_channels(traces: &Vec<MSTraceID>) -> (r: bool)
    ensures
        r == channels_wf(traces@),
{
    let n: usize = traces.len();
    if n > 0xffff_ffff {
        return false;
    }
    let mut i: usize = 0;
    while i < n
        invariant
            n == traces@.len(),
            n <= u32::MAX,
            i <= n,
            forall|k: int| 0 <= k < i ==> #[trigger] traces@[k].wf(),
            forall|a: int, b: int|
                0 <= a < i && a < b < n ==> !same_identity(#[trigger] traces@[a], #[trigger] traces@[b]),
        decreases n - i,
    {
        if !traces[i].is_wf() {
            return false;
        }
        let mut j: usize = i + 1;
        while j < n
            invariant
                n == traces@.len(),
                i < n,
                i < j <= n,
                forall|b: int| i < b < j ==> !same_identity(traces@[i as int], #[trigger] traces@[b]),
            decreases n - j,
        {
            if traces[i].pubversion() == traces[j].pubversion() && traces[i].sid_ref().eq(traces[j].sid_ref()) {
                return false;
            }
            j = j + 1;
        }
        i = i + 1;
    }
    true
}

/// The channels of one archive file, read in one bulk parse.
#[derive(Debug)]
pub struct MSTraceList {
    path: String,
    traces: Vec<MSTraceID>,
    loaded: bool,
}

impl MSTraceList {
    pub closed spec fn spec_path(&self) -> Seq<char> {
        self.path@
    }

    pub closed spec fn spec_loaded(&self) -> bool {
        self.loaded
    }

    pub closed spec fn spec_traces(&self) -> Seq<MSTraceID> {
        self.traces@
    }

    /// A load that succeeded left only well-formed channels, few enough to count.
    pub open spec fn wf(&self) -> bool {
        self.spec_loaded() ==> channels_wf(self.spec_traces())
    }

    /// An archive over `path`, not loaded yet.
    pub fn new(path: &str) -> (r: MSTraceList)
        ensures
            r.spec_path() == path@,
            !r.spec_loaded(),
            r.spec_traces().len() == 0,
            r.wf(),
    {
        MSTraceList { path: path.to_owned(), traces: Vec::new(), loaded: false }
    }

    pub fn filename(&self) -> (r: &str)
        ensures
            r@ == self.spec_path(),
    {
        self.path.as_str()
    }

    pub fn is_loaded(&self) -> (r: bool)
        ensures
            r == self.spec_loaded(),
    {
        self.loaded
    }

    /// Takes in the channels that a successful bulk parse built. An archive
    /// is loaded once. Channels that are not well formed, or two with one
    /// identity, are an error; the archive then stays unloaded.
    pub fn read(&mut self, traces: Vec<MSTraceID>) -> (r: Result<(), MSError>)
        requires
            old(self).wf(),
            !old(self).spec_loaded(),
        ensures
            final(self).wf(),
            final(self).spec_path() == old(self).spec_path(),
            r is Ok <==> channels_wf(traces@),
            r is Ok ==> final(self).spec_loaded() && final(self).spec_traces() == traces@,
            r is Err ==> r == Err::<(), MSError>(MSError::Error(MS_GENERROR)) && *final(self) == *old(self),
    {
        if !check_channels(&traces) {
            return Err(MSError::Error(MS_GENERROR));
        }
        self.traces = traces;
        self.loaded = true;
        Ok(())
    }

    /// The number of distinct channels.
    pub fn numtraces(&self) -> (r: u32)
        requires
            self.wf(),
            self.spec_loaded(),
        ensures
            r == self.spec_traces().len(),
    {
        self.traces.len() as u32
    }

    /// The channels in the order the parse found them; each call starts from the first.
    pub fn traces(&self) -> (r: &[MSTraceID])
        requires
            self.spec_loaded(),
        ensures
            r@ == self.spec_traces(),
    {
        self.traces.as_slice()
    }

    /// Hands the decoder's answer to a conversion request to segment `s` of
    /// channel `c` (see `MSTraceSegment::convert_data`); everything else stays.
    pub fn convert_segment(
        &mut self,
        c: usize,
        s: usize,
        t: MSSampleType,
        outcome: Result<Vec<u8>, i32>,
    ) -> (r: Result<(), MSError>)
        requires
            old(self).wf(),
            old(self).spec_loaded(),
            c < old(self).spec_traces().len(),
            s < old(self).spec_traces()[c as int].spec_segments().len(),
        ensures
            final(self).wf(),
            final(self).spec_loaded(),
            final(self).spec_path() == old(self).spec_path(),
            final(self).spec_traces().len() == old(self).spec_traces().len(),
            r == conversion_result(
                old(self).spec_traces()[c as int].spec_segments()[s as int]@,
                t,
                outcome_view(outcome),
            ),
            final(self).spec_traces()[c as int].spec_segments()[s as int]@ == converted(
                old(self).spec_traces()[c as int].spec_segments()[s as int]@,
                t,
                outcome_view(outcome),
            ),
            final(self).spec_traces()[c as int].spec_segments().len() == old(
                self,
            ).spec_traces()[c as int].spec_segments().len(),
            forall|k: int|
                0 <= k < old(self).spec_traces()[c as int].spec_segments().len() && k != s
                    ==> #[trigger] final(self).spec_traces()[c as int].spec_segments()[k]
                    == old(self).spec_traces()[c as int].spec_segments()[k],
            forall|k: int|
                0 <= k < old(self).spec_traces().len() && k != c ==> #[trigger] final(self).spec_traces()[k]
                    == old(self).spec_traces()[k],
    {
        let ghost before = self.traces@;
        let mut ch = self.traces.remove(c);
        assert(ch.wf());
        let r = ch.convert_segment(s, t, outcome);
        self.traces.insert(c, ch);
        assert forall|k: int| 0 <= k < self.traces@.len() implies #[trigger] self.traces@[k].wf() by {
            if k != c {
                assert(self.traces@[k] == before[k]);
            }
        }
        r
    }
}

/// Asking for samples of a segment's own native type changes nothing: the
/// decoder is not asked and the payload bytes stay as they were. Where the
/// samples were decoded the request succeeds.
pub proof fn native_conversion_is_noop(s: SegmentView, outcome: Result<Seq<u8>, i32>)
    ensures
        !needs_conversion(s, s.sampletype),
        converted(s, s.sampletype, outcome) == s,
        converted(s, s.sampletype, outcome).data == s.data,
        unpacked(s) ==> conversion_result(s, s.sampletype, outcome) == Ok::<(), MSError>(()),
{
}

/// A segment whose samples were not decoded is left as it is by any
/// conversion request, which fails without asking the decoder.
pub proof fn undecoded_segment_yields_nothing(s: SegmentView, t: MSSampleType, outcome: Result<Seq<u8>, i32>)
    requires
        !unpacked(s),
    ensures
        !needs_conversion(s, t),
        converted(s, t, outcome) == s,
        conversion_result(s, t, outcome) == Err::<(), MSError>(MSError::Error(MS_GENERROR)),
{
}

} // verus!
