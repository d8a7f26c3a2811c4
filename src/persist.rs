//! The sample file: one CSV record `HH:MM,latency_ms` per sample, no header.

use vstd::prelude::*;
use crate::clock::hhmm;
use crate::store::Time;
use crate::text::{decimal, decimal_string};

verus! {

/// The bytes of one CSV record holding `fields`, with its line terminator.
pub uninterp spec fn csv_record_bytes(fields: Seq<Seq<char>>) -> Seq<u8>;

/// The text of each string.
pub open spec fn strings_view(v: Seq<String>) -> Seq<Seq<char>> {
    v.map_values(|f: String| f@)
}

/// Relies on csv's `Writer::from_writer`, `Writer::write_record` and
/// `Writer::into_inner` over a `Vec<u8>`: the bytes of one record. A fresh
/// writer into a `Vec<u8>` reports no error on its first record: writing to
/// a `Vec` cannot fail, and the field count is only checked against an
/// earlier record.
#[verifier::external_body]
fn csv_record(fields: &Vec<String>) -> (r: Option<Vec<u8>>)
    ensures
        r is Some,
        r matches Some(b) ==> b@ == csv_record_bytes(strings_view(fields@)),
{
    let mut writer = csv::Writer::from_writer(Vec::new());
    match writer.write_record(fields) {
        Ok(()) => {},
        Err(_) => return None,
    }
    match writer.into_inner() {
        Ok(bytes) => Some(bytes),
        Err(_) => None,
    }
}

/// The two fields of a sample's record: its `HH:MM` timestamp and its
/// latency in decimal milliseconds.
pub open spec fn record_fields(s: Time) -> Seq<Seq<char>> {
    seq![hhmm(s.real_time), decimal(s.response_time as nat)]
}

/// The sample file of `samples`: their records, in order.
pub open spec fn csv_file(samples: Seq<Time>) -> Seq<u8>
    decreases samples.len(),
{
    if samples.len() == 0 {
        Seq::empty()
    } else {
        csv_file(samples.drop_last()) + csv_record_bytes(record_fields(samples.last()))
    }
}

/// Why the sample file could not be produced.
#[derive(Clone, Copy, Debug, PartialEq, Eq, Structural)]
pub enum PersistError {
    /// The CSV writer refused a record.
    Encoding,
}

/// The contents of the sample file for `list_time`, one record per sample
/// in the given order; empty for no samples.
pub fn write_csv(list_time: &Vec<Time>) -> (r: Result<Vec<u8>, PersistError>)
    ensures
        r matches Ok(b) && b@ == csv_file(list_time@),
{
    let mut out: Vec<u8> = Vec::new();
    let mut i: usize = 0;
    while i < list_time.len()
        invariant
            0 <= i <= list_time.len(),
            out@ == csv_file(list_time@.subrange(0, i as int)),
        decreases list_time.len() - i,
    {
        let sample = list_time[i];
        let mut fields: Vec<String> = Vec::new();
        fields.push(sample.real_time.timestamp());
        fields.push(decimal_string(sample.response_time));
        assert(strings_view(fields@) =~= record_fields(sample));
        match csv_record(&fields) {
            Some(mut bytes) => {
                out.append(&mut bytes);
            },
            None => return Err(PersistError::Encoding),
        }
        proof {
            let done = list_time@.subrange(0, i as int + 1);
            assert(done.drop_last() =~= list_time@.subrange(0, i as int));
            assert(done.last() == sample);
        }
        i = i + 1;
    }
    assert(list_time@.subrange(0, list_time.len() as int) =~= list_time@);
    Ok(out)
}

} // verus!
