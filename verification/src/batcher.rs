//! The telemetry batcher: records gathered in one buffer and handed on in
//! batches, so that the sink sees one write per batch and not one per sample.

use crate::api::remote::Data;
use crate::influx::error::LineProtocolError;
use crate::influx::{LineProtocol, ToLineProtocolEntries};
use vstd::prelude::*;
use vstd::string::*;
use vstd::utf8::encode_utf8;

verus! {

/// The longest time, in milliseconds, that may pass between two frames handed
/// to the latest-value slot without the next frame being handed on too.
pub const FORWARD_PERIOD_MILLIS: u128 = 15;

/// The number of records that a batch must exceed before it is flushed.
pub const FLUSH_THRESHOLD: usize = 50;

/// The size in bytes reserved for the first batch.
pub const INITIAL_CAPACITY: usize = 20;

/// Whether a frame goes to the latest-value slot: only where more than
/// `FORWARD_PERIOD_MILLIS` have passed since the last one went.
pub fn forward_due(elapsed_millis: u128) -> (r: bool)
    ensures
        r == (elapsed_millis > FORWARD_PERIOD_MILLIS),
{
    elapsed_millis > FORWARD_PERIOD_MILLIS
}

/// A buffer with the records of a frame appended, the last record first.
pub open spec fn appended(buffer: Seq<char>, records: Seq<Seq<char>>) -> Seq<char>
    decreases records.len(),
{
    if records.len() == 0 {
        buffer
    } else {
        appended(buffer + records.last(), records.drop_last())
    }
}

/// The size of a text in bytes, encoded as UTF-8.
pub open spec fn byte_len(text: Seq<char>) -> usize {
    encode_utf8(text).len() as usize
}

/// `String::with_capacity`: an empty string with room reserved.
#[verifier::external_body]
fn string_with_capacity(capacity: usize) -> (r: String)
    ensures
        r@ == Seq::<char>::empty(),
{
    String::with_capacity(capacity)
}

/// The batch being gathered, the count of its records, and the size to
/// reserve for the next batch.
pub struct Batcher {
    buffer: String,
    entries: usize,
    capacity: usize,
    threshold: usize,
}

impl Batcher {
    /// The text gathered since the last flush.
    pub closed spec fn spec_buffer(&self) -> Seq<char> {
        self.buffer@
    }

    /// The number of records gathered since the last flush.
    pub closed spec fn spec_entries(&self) -> nat {
        self.entries as nat
    }

    /// The size in bytes reserved for a fresh buffer: the largest batch so
    /// far, and no less than what the batcher began with.
    pub closed spec fn spec_capacity(&self) -> nat {
        self.capacity as nat
    }

    /// The number of records that a batch must exceed before it is flushed.
    pub closed spec fn spec_threshold(&self) -> nat {
        self.threshold as nat
    }

    /// A batch that has exceeded the threshold has been flushed.
    pub open spec fn wf(&self) -> bool {
        self.spec_entries() <= self.spec_threshold()
    }

    /// An empty batcher.
    pub fn new(threshold: usize, capacity: usize) -> (r: Self)
        ensures
            r.wf(),
            r.spec_buffer() == Seq::<char>::empty(),
            r.spec_entries() == 0,
            r.spec_capacity() == capacity,
            r.spec_threshold() == threshold,
    {
        Batcher { buffer: string_with_capacity(capacity), entries: 0, capacity, threshold }
    }

    /// The number of records gathered since the last flush.
    pub fn entries(&self) -> (r: usize)
        ensures
            r == self.spec_entries(),
    {
        self.entries
    }

    /// The number of records that a batch must exceed before it is flushed.
    pub fn threshold(&self) -> (r: usize)
        ensures
            r == self.spec_threshold(),
    {
        self.threshold
    }

    /// The size in bytes reserved for a fresh buffer.
    pub fn capacity(&self) -> (r: usize)
        ensures
            r == self.spec_capacity(),
    {
        self.capacity
    }

    /// The text gathered since the last flush.
    pub fn buffer(&self) -> (r: &str)
        ensures
            r@ == self.spec_buffer(),
    {
        self.buffer.as_str()
    }

    /// Whether `after` and `flushed` are what becomes of this batcher when the
    /// records of one frame are appended to its batch, the last record first.
    ///
    /// Where the batch then holds more records than the threshold, the batch
    /// is flushed whole and a fresh one is begun; the size reserved for it
    /// grows to that of the batch flushed, where that was larger.
    pub open spec fn pushed(
        &self,
        records: Seq<Seq<char>>,
        after: &Batcher,
        flushed: Option<Seq<char>>,
    ) -> bool {
        let batch = appended(self.spec_buffer(), records);
        &&& after.spec_threshold() == self.spec_threshold()
        &&& if self.spec_entries() + records.len() > self.spec_threshold() {
            &&& flushed == Some(batch)
            &&& after.spec_buffer() == Seq::<char>::empty()
            &&& after.spec_entries() == 0
            &&& after.spec_capacity() == if byte_len(batch) > self.spec_capacity() {
                byte_len(batch) as nat
            } else {
                self.spec_capacity()
            }
        } else {
            &&& flushed is None
            &&& after.spec_buffer() == batch
            &&& after.spec_entries() == self.spec_entries() + records.len()
            &&& after.spec_capacity() == self.spec_capacity()
        }
    }

    /// Whether `after` holds what this batcher holds.
    pub open spec fn unchanged(&self, after: &Batcher) -> bool {
        &&& after.spec_threshold() == self.spec_threshold()
        &&& after.spec_buffer() == self.spec_buffer()
        &&& after.spec_entries() == self.spec_entries()
        &&& after.spec_capacity() == self.spec_capacity()
    }

    /// Appends the records of one frame to the batch, the last record first,
    /// and hands the batch out for the sink where it is due.
    pub fn process_data(&mut self, records: Vec<LineProtocol>) -> (r: Option<String>)
        requires
            old(self).wf(),
        ensures
            final(self).wf(),
            old(self).pushed(
                records.deep_view(),
                final(self),
                match r {
                    Some(batch) => Some(batch@),
                    None => None,
                },
            ),
    {
        let mut records = records;
        let count: usize = records.len();
        let ghost all = records.deep_view();
        while records.len() > 0
            invariant
                appended(self.buffer@, records.deep_view()) == appended(old(self).buffer@, all),
                self.entries == old(self).entries,
                self.capacity == old(self).capacity,
                self.threshold == old(self).threshold,
            decreases records.len(),
        {
            let ghost before = records.deep_view();
            match records.pop() {
                Some(record) => {
                    self.buffer.append(record.as_str());
                    proof {
                        assert(before.last() == record@);
                        assert(records.deep_view() =~= before.drop_last());
                    }
                },
                None => {},
            }
        }
        if count > self.threshold - self.entries {
            let size: usize = self.buffer.as_str().len();
            if size > self.capacity {
                self.capacity = size;
            }
            let mut batch = string_with_capacity(self.capacity);
            std::mem::swap(&mut self.buffer, &mut batch);
            self.entries = 0;
            Some(batch)
        } else {
            self.entries = self.entries + count;
            None
        }
    }

    /// Writes the records of a frame, each with the clock's reading as its
    /// timestamp, and appends them to the batch.
    ///
    /// A frame without a measurement leaves the batch as it is and is no
    /// error. A frame whose records could not be written leaves the batch as
    /// it is too, and the error is handed back.
    pub fn process_frame(&mut self, data: &Data) -> (r: Result<Option<String>, LineProtocolError>)
        requires
            old(self).wf(),
        ensures
            final(self).wf(),
            data.sensor is None ==> r == Ok::<Option<String>, LineProtocolError>(None) && old(
                self,
            ).unchanged(final(self)),
            match r {
                Ok(flushed) => exists|timestamp: nat|
                    #![trigger data.entries(timestamp)]
                    old(self).pushed(
                        data.entries(timestamp),
                        final(self),
                        match flushed {
                            Some(batch) => Some(batch@),
                            None => None,
                        },
                    ),
                Err(_) => old(self).unchanged(final(self)),
            },
    {
        match data.to_line_protocol_entries() {
            Ok(records) => {
                proof {
                    match data.sensor {
                        Some(reading) => {
                            let timestamp = choose|timestamp: nat|
                                data.entry_at(0, timestamp) == records[0]@;
                            assert(records.deep_view() =~= data.entries(timestamp));
                        },
                        None => {
                            assert(records.deep_view() =~= data.entries(0));
                        },
                    }
                }
                Ok(self.process_data(records))
            },
            Err(e) => Err(e),
        }
    }
}

} // verus!
