//! Line protocol of a time-series database: one text record per measurement,
//! of the form `measurement,tag=value field=value timestamp`.

use vstd::prelude::*;
use vstd::string::*;

pub mod attribute;
pub mod decimal;
pub mod error;
pub mod record;
pub mod time;

use decimal::{decimal, push_decimal};
use error::LineProtocolError;

verus! {

/// Valid line protocol.
pub type LineProtocol = String;

/// A value that can stand in the field set of a record.
pub trait ToFieldValue {
    /// The text of the value, with the marker of its type.
    spec fn field_value(&self) -> Seq<char>;

    fn to_field_value(&self) -> (r: String)
        ensures
            r@ == self.field_value(),
    ;
}

impl ToFieldValue for i64 {
    /// The numeral, followed by `i`.
    open spec fn field_value(&self) -> Seq<char> {
        if *self < 0 {
            seq!['-'] + decimal((-*self) as nat) + seq!['i']
        } else {
            decimal(*self as nat) + seq!['i']
        }
    }

    fn to_field_value(&self) -> (r: String) {
        let mut text = String::new();
        proof {
            reveal_strlit("-");
            reveal_strlit("i");
        }
        if *self < 0 {
            text.append("-");
            push_decimal(&mut text, (-(*self as i128)) as u128);
        } else {
            push_decimal(&mut text, *self as u128);
        }
        text.append("i");
        assert(text@ =~= self.field_value());
        text
    }
}

impl ToFieldValue for u64 {
    /// The numeral, followed by `u`.
    open spec fn field_value(&self) -> Seq<char> {
        decimal(*self as nat) + seq!['u']
    }

    fn to_field_value(&self) -> (r: String) {
        let mut text = String::new();
        proof {
            reveal_strlit("u");
        }
        push_decimal(&mut text, *self as u128);
        text.append("u");
        assert(text@ =~= self.field_value());
        text
    }
}

impl ToFieldValue for bool {
    /// `true` or `false`.
    open spec fn field_value(&self) -> Seq<char> {
        if *self {
            "true"@
        } else {
            "false"@
        }
    }

    fn to_field_value(&self) -> (r: String) {
        if *self {
            String::from_str("true")
        } else {
            String::from_str("false")
        }
    }
}

/// The parts of a list in their order, with a separator between each two.
pub open spec fn joined(parts: Seq<Seq<char>>, separator: Seq<char>) -> Seq<char>
    decreases parts.len(),
{
    if parts.len() == 0 {
        Seq::empty()
    } else if parts.len() == 1 {
        parts[0]
    } else {
        joined(parts.drop_last(), separator) + separator + parts.last()
    }
}

/// The text of a record: the tag set, the field set and the timestamp, with
/// one space between them. The tag set begins with the measurement.
pub open spec fn record(tags: Seq<Seq<char>>, fields: Seq<Seq<char>>, timestamp: nat) -> Seq<char> {
    joined(tags, seq![',']) + seq![' '] + joined(fields, seq![',']) + seq![' '] + decimal(
        timestamp,
    )
}

/// Appends the parts of a list to `buf`, with a separator between each two.
pub fn push_joined(buf: &mut String, parts: &Vec<String>, separator: &str)
    ensures
        final(buf)@ == old(buf)@ + joined(parts.deep_view(), separator@),
{
    let mut i: usize = 0;
    while i < parts.len()
        invariant
            i <= parts.len(),
            buf@ == old(buf)@ + joined(parts.deep_view().take(i as int), separator@),
        decreases parts.len() - i,
    {
        let ghost before = parts.deep_view().take(i as int);
        let ghost after = parts.deep_view().take(i + 1);
        if i > 0 {
            buf.append(separator);
        }
        buf.append(parts[i].as_str());
        proof {
            assert(after.drop_last() =~= before);
            assert(after.last() == parts[i as int]@);
            assert(buf@ =~= old(buf)@ + joined(after, separator@));
        }
        i += 1;
    }
    proof {
        assert(parts.deep_view().take(i as int) =~= parts.deep_view());
    }
}

/// Writes a record in line protocol, where it has a field: a record without
/// fields is not valid and is not written.
pub fn line_protocol(tags: &Vec<String>, fields: &Vec<String>, timestamp: u128) -> (r: Option<
    LineProtocol,
>)
    ensures
        fields.len() == 0 <==> r is None,
        r matches Some(line) ==> line@ == record(
            tags.deep_view(),
            fields.deep_view(),
            timestamp as nat,
        ),
{
    if fields.len() == 0 {
        return None;
    }
    let mut line = String::new();
    proof {
        reveal_strlit(",");
        reveal_strlit(" ");
        assert(","@ =~= seq![',']);
        assert(" "@ =~= seq![' ']);
    }
    push_joined(&mut line, tags, ",");
    line.append(" ");
    push_joined(&mut line, fields, ",");
    line.append(" ");
    push_decimal(&mut line, timestamp);
    assert(line@ =~= record(tags.deep_view(), fields.deep_view(), timestamp as nat));
    Some(line)
}

/// A measurement that can be written as one record.
pub trait ToLineProtocol {
    /// The record of this measurement at a timestamp, where it has a field.
    spec fn record_at(&self, timestamp: nat) -> Option<Seq<char>>;

    /// Writes the record with the clock's reading as its timestamp.
    ///
    /// Fails where the clock stands before the Unix epoch, and with the
    /// general error where the measurement has no field.
    fn to_line_protocol(&self) -> (r: Result<LineProtocol, LineProtocolError>)
        ensures
            match r {
                Ok(line) => exists|timestamp: nat| #[trigger]
                    self.record_at(timestamp) == Some(line@),
                Err(e) => e == LineProtocolError::FailedToGetSystemTime || (e
                    == LineProtocolError::Error && forall|timestamp: nat| #[trigger]
                    self.record_at(timestamp) is None),
            },
    ;
}

/// A frame that holds any number of measurements, each written as one record.
pub trait ToLineProtocolEntries {
    /// The number of measurements that this frame holds.
    spec fn entry_count(&self) -> nat;

    /// The record of the measurement at a place in this frame, at a timestamp.
    spec fn entry_at(&self, i: int, timestamp: nat) -> Seq<char>;

    /// Writes the records in the frame's order, each with the clock's reading
    /// as its timestamp.
    ///
    /// A frame that holds no measurement gives no record and reads no clock.
    fn to_line_protocol_entries(&self) -> (r: Result<Vec<LineProtocol>, LineProtocolError>)
        ensures
            self.entry_count() == 0 ==> r is Ok,
            match r {
                Ok(entries) => entries.len() == self.entry_count() && forall|i: int|
                    #![trigger entries[i]]
                    0 <= i < entries.len() ==> exists|timestamp: nat| #[trigger]
                        self.entry_at(i, timestamp) == entries[i]@,
                Err(e) => e == LineProtocolError::FailedToGetSystemTime || e
                    == LineProtocolError::Error,
            },
    ;
}

} // verus!
