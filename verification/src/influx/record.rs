//! A record under construction: a measurement with its tags and fields.

use super::{line_protocol, record, LineProtocol};
use vstd::prelude::*;
use vstd::string::*;

verus! {

/// The texts `key=value` of a list of keys and the list of their values.
pub open spec fn entries(keys: Seq<Seq<char>>, values: Seq<Seq<char>>) -> Seq<Seq<char>> {
    Seq::new(keys.len(), |i: int| keys[i] + seq!['='] + values[i])
}

/// Whether a key stands in a list of keys.
fn holds(keys: &Vec<String>, key: &String) -> (r: bool)
    ensures
        r == keys.deep_view().contains(key@),
{
    let mut i: usize = 0;
    while i < keys.len()
        invariant
            i <= keys.len(),
            forall|k: int| 0 <= k < i ==> keys.deep_view()[k] != key@,
        decreases keys.len() - i,
    {
        if keys[i] == *key {
            assert(keys.deep_view()[i as int] == key@);
            return true;
        }
        i += 1;
    }
    false
}

/// Appends the texts `key=value` of the keys and their values to a list.
fn push_entries(out: &mut Vec<String>, keys: &Vec<String>, values: &Vec<String>)
    requires
        keys.len() == values.len(),
    ensures
        final(out).deep_view() == old(out).deep_view() + entries(
            keys.deep_view(),
            values.deep_view(),
        ),
{
    let mut i: usize = 0;
    proof {
        reveal_strlit("=");
        assert("="@ =~= seq!['=']);
        assert(out.deep_view() =~= old(out).deep_view() + entries(
            keys.deep_view(),
            values.deep_view(),
        ).take(0));
    }
    while i < keys.len()
        invariant
            i <= keys.len(),
            keys.len() == values.len(),
            "="@ == seq!['='],
            out.deep_view() == old(out).deep_view() + entries(
                keys.deep_view(),
                values.deep_view(),
            ).take(i as int),
        decreases keys.len() - i,
    {
        let ghost before = out.deep_view();
        let mut entry = String::new();
        entry.append(keys[i].as_str());
        entry.append("=");
        entry.append(values[i].as_str());
        out.push(entry);
        proof {
            let all = entries(keys.deep_view(), values.deep_view());
            assert(entry@ =~= all[i as int]);
            assert(out.deep_view() =~= before.push(entry@));
            assert(all.take(i + 1) =~= all.take(i as int).push(all[i as int]));
            assert(out.deep_view() =~= old(out).deep_view() + all.take(i + 1));
        }
        i += 1;
    }
    proof {
        let all = entries(keys.deep_view(), values.deep_view());
        assert(all.take(i as int) =~= all);
    }
}

/// A measurement with its tags and fields, each a key and a value.
///
/// No key occurs twice, among the tags and the fields together.
pub struct TimeSeriesRecord {
    measurement: String,
    tag_keys: Vec<String>,
    tag_values: Vec<String>,
    field_keys: Vec<String>,
    field_values: Vec<String>,
}

impl TimeSeriesRecord {
    /// The name of the series.
    pub closed spec fn spec_measurement(&self) -> Seq<char> {
        self.measurement@
    }

    /// The keys of the tags, in the order in which they were added.
    pub closed spec fn spec_tag_keys(&self) -> Seq<Seq<char>> {
        self.tag_keys.deep_view()
    }

    /// The values of the tags, each at the place of its key.
    pub closed spec fn spec_tag_values(&self) -> Seq<Seq<char>> {
        self.tag_values.deep_view()
    }

    /// The keys of the fields, in the order in which they were added.
    pub closed spec fn spec_field_keys(&self) -> Seq<Seq<char>> {
        self.field_keys.deep_view()
    }

    /// The values of the fields, each at the place of its key.
    pub closed spec fn spec_field_values(&self) -> Seq<Seq<char>> {
        self.field_values.deep_view()
    }

    /// Every key has its value, and no key occurs twice.
    pub open spec fn wf(&self) -> bool {
        &&& self.spec_tag_keys().len() == self.spec_tag_values().len()
        &&& self.spec_field_keys().len() == self.spec_field_values().len()
        &&& (self.spec_tag_keys() + self.spec_field_keys()).no_duplicates()
    }

    /// Whether a key is taken, by a tag or by a field.
    pub open spec fn has_key(&self, key: Seq<char>) -> bool {
        self.spec_tag_keys().contains(key) || self.spec_field_keys().contains(key)
    }

    /// The tag set: the measurement, then the tags.
    pub open spec fn tag_set(&self) -> Seq<Seq<char>> {
        seq![self.spec_measurement()] + entries(self.spec_tag_keys(), self.spec_tag_values())
    }

    /// The field set.
    pub open spec fn field_set(&self) -> Seq<Seq<char>> {
        entries(self.spec_field_keys(), self.spec_field_values())
    }

    /// The text of the record at a timestamp, where it has a field.
    pub open spec fn line(&self, timestamp: nat) -> Option<Seq<char>> {
        if self.spec_field_keys().len() == 0 {
            None
        } else {
            Some(record(self.tag_set(), self.field_set(), timestamp))
        }
    }

    /// A record of a series, with no tag and no field yet.
    pub fn new(measurement: String) -> (r: Self)
        ensures
            r.wf(),
            r.spec_measurement() == measurement@,
            r.spec_tag_keys() == Seq::<Seq<char>>::empty(),
            r.spec_tag_values() == Seq::<Seq<char>>::empty(),
            r.spec_field_keys() == Seq::<Seq<char>>::empty(),
            r.spec_field_values() == Seq::<Seq<char>>::empty(),
    {
        let r = TimeSeriesRecord {
            measurement,
            tag_keys: Vec::new(),
            tag_values: Vec::new(),
            field_keys: Vec::new(),
            field_values: Vec::new(),
        };
        assert(r.tag_keys.deep_view() =~= Seq::<Seq<char>>::empty());
        assert(r.tag_values.deep_view() =~= Seq::<Seq<char>>::empty());
        assert(r.field_keys.deep_view() =~= Seq::<Seq<char>>::empty());
        assert(r.field_values.deep_view() =~= Seq::<Seq<char>>::empty());
        r
    }

    /// Adds a tag, unless its key is taken. Tells whether it was added.
    pub fn tag(&mut self, key: String, value: String) -> (added: bool)
        requires
            old(self).wf(),
        ensures
            final(self).wf(),
            added == !old(self).has_key(key@),
            final(self).spec_measurement() == old(self).spec_measurement(),
            final(self).spec_field_keys() == old(self).spec_field_keys(),
            final(self).spec_field_values() == old(self).spec_field_values(),
            final(self).spec_tag_keys() == if added {
                old(self).spec_tag_keys().push(key@)
            } else {
                old(self).spec_tag_keys()
            },
            final(self).spec_tag_values() == if added {
                old(self).spec_tag_values().push(value@)
            } else {
                old(self).spec_tag_values()
            },
    {
        if holds(&self.tag_keys, &key) || holds(&self.field_keys, &key) {
            return false;
        }
        self.tag_keys.push(key);
        self.tag_values.push(value);
        proof {
            let tags = old(self).tag_keys.deep_view();
            let fields = old(self).field_keys.deep_view();
            assert(self.tag_keys.deep_view() =~= tags.push(key@));
            assert(self.tag_values.deep_view() =~= old(self).tag_values.deep_view().push(value@));
            let before = tags + fields;
            let after = tags.push(key@) + fields;
            assert forall|i: int, j: int| 0 <= i < after.len() && 0 <= j < after.len() && i != j
                implies after[i] != after[j] by {
                let a = if i < tags.len() {
                    i
                } else {
                    i - 1
                };
                let b = if j < tags.len() {
                    j
                } else {
                    j - 1
                };
                if i == tags.len() {
                    assert(after[j] == before[b]);
                    assert(tags.contains(before[b]) || fields.contains(before[b])) by {
                        if b < tags.len() {
                            assert(tags[b] == before[b]);
                        } else {
                            assert(fields[b - tags.len()] == before[b]);
                        }
                    }
                } else if j == tags.len() {
                    assert(after[i] == before[a]);
                    assert(tags.contains(before[a]) || fields.contains(before[a])) by {
                        if a < tags.len() {
                            assert(tags[a] == before[a]);
                        } else {
                            assert(fields[a - tags.len()] == before[a]);
                        }
                    }
                } else {
                    assert(after[i] == before[a]);
                    assert(after[j] == before[b]);
                }
            }
        }
        true
    }

    /// Adds a field, unless its key is taken. Tells whether it was added.
    ///
    /// The value is the text of a field value, with the marker of its type.
    pub fn field(&mut self, key: String, value: String) -> (added: bool)
        requires
            old(self).wf(),
        ensures
            final(self).wf(),
            added == !old(self).has_key(key@),
            final(self).spec_measurement() == old(self).spec_measurement(),
            final(self).spec_tag_keys() == old(self).spec_tag_keys(),
            final(self).spec_tag_values() == old(self).spec_tag_values(),
            final(self).spec_field_keys() == if added {
                old(self).spec_field_keys().push(key@)
            } else {
                old(self).spec_field_keys()
            },
            final(self).spec_field_values() == if added {
                old(self).spec_field_values().push(value@)
            } else {
                old(self).spec_field_values()
            },
    {
        if holds(&self.tag_keys, &key) || holds(&self.field_keys, &key) {
            return false;
        }
        self.field_keys.push(key);
        self.field_values.push(value);
        proof {
            let tags = old(self).tag_keys.deep_view();
            let fields = old(self).field_keys.deep_view();
            assert(self.field_keys.deep_view() =~= fields.push(key@));
            assert(self.field_values.deep_view() =~= old(self).field_values.deep_view().push(
                value@,
            ));
            let before = tags + fields;
            let after = tags + fields.push(key@);
            assert(after =~= before.push(key@));
            assert forall|i: int| 0 <= i < before.len() implies before[i] != key@ by {
                if i < tags.len() {
                    assert(tags[i] == before[i]);
                } else {
                    assert(fields[i - tags.len()] == before[i]);
                }
            }
        }
        true
    }

    /// The number of fields.
    pub fn field_count(&self) -> (r: usize)
        ensures
            r == self.spec_field_keys().len(),
    {
        self.field_keys.len()
    }

    /// The number of tags.
    pub fn tag_count(&self) -> (r: usize)
        ensures
            r == self.spec_tag_keys().len(),
    {
        self.tag_keys.len()
    }

    /// Writes the record with the timestamp given, where it has a field: a
    /// record without fields is not valid and is not written.
    pub fn to_line(&self, timestamp: u128) -> (r: Option<LineProtocol>)
        requires
            self.wf(),
        ensures
            match (r, self.line(timestamp as nat)) {
                (Some(text), Some(line)) => text@ == line,
                (None, None) => true,
                _ => false,
            },
    {
        let mut tags: Vec<String> = Vec::new();
        tags.push(self.measurement.clone());
        assert(tags.deep_view() =~= seq![self.spec_measurement()]);
        push_entries(&mut tags, &self.tag_keys, &self.tag_values);
        let mut fields: Vec<String> = Vec::new();
        assert(fields.deep_view() =~= Seq::<Seq<char>>::empty());
        push_entries(&mut fields, &self.field_keys, &self.field_values);
        assert(fields.deep_view() =~= self.field_set());
        line_protocol(&tags, &fields, timestamp)
    }
}

} // verus!
