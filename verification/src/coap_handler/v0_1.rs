//! Encoding of the resource records a handler reports, in CoRE link format (RFC 6690)
//!
//! Each record becomes `<` followed by its path elements (each with a leading `/`) and `>`,
//! then `;rel="..."` if it has a relation, and `;obs`, `;if="..."` and `;rt="..."` for the
//! attributes of those kinds (other attributes are left out). Records are separated by commas.

use vstd::prelude::*;

verus! {

/// An attribute of a resource record
pub enum LinkAttribute {
    Observable,
    Interface(Vec<u8>),
    ResourceType(Vec<u8>),
    /// An attribute that is not expressed in the link format output
    Other,
}

/// A resource a handler reports
pub struct LinkRecord {
    pub path: Vec<Vec<u8>>,
    pub rel: Option<Vec<u8>>,
    pub attributes: Vec<LinkAttribute>,
}

/// The link format text of a path: each element preceded by a slash
pub open spec fn encode_path(path: Seq<Seq<u8>>) -> Seq<u8>
    decreases path.len(),
{
    if path.len() == 0 {
        Seq::empty()
    } else {
        encode_path(path.drop_last()) + seq![0x2fu8] + path.last()
    }
}

/// `;obs`
pub open spec fn obs_text() -> Seq<u8> {
    seq![0x3bu8, 0x6fu8, 0x62u8, 0x73u8]
}

/// `;if="`
pub open spec fn if_text() -> Seq<u8> {
    seq![0x3bu8, 0x69u8, 0x66u8, 0x3du8, 0x22u8]
}

/// `;rt="`
pub open spec fn rt_text() -> Seq<u8> {
    seq![0x3bu8, 0x72u8, 0x74u8, 0x3du8, 0x22u8]
}

/// `;rel="`
pub open spec fn rel_text() -> Seq<u8> {
    seq![0x3bu8, 0x72u8, 0x65u8, 0x6cu8, 0x3du8, 0x22u8]
}

/// The link format text of one attribute
pub open spec fn encode_attribute(a: LinkAttribute) -> Seq<u8> {
    match a {
        LinkAttribute::Observable => obs_text(),
        LinkAttribute::Interface(i) => if_text() + i@ + seq![0x22u8],
        LinkAttribute::ResourceType(r) => rt_text() + r@ + seq![0x22u8],
        LinkAttribute::Other => Seq::empty(),
    }
}

/// The link format text of a list of attributes
pub open spec fn encode_attributes(attrs: Seq<LinkAttribute>) -> Seq<u8>
    decreases attrs.len(),
{
    if attrs.len() == 0 {
        Seq::empty()
    } else {
        encode_attributes(attrs.drop_last()) + encode_attribute(attrs.last())
    }
}

/// The link format text of a record's relation
pub open spec fn encode_rel(rel: Option<Vec<u8>>) -> Seq<u8> {
    match rel {
        None => Seq::empty(),
        Some(r) => rel_text() + r@ + seq![0x22u8],
    }
}

/// The link format text of one record
pub open spec fn encode_record(r: LinkRecord) -> Seq<u8> {
    seq![0x3cu8] + encode_path(r.path@.map_values(|e: Vec<u8>| e@)) + seq![0x3eu8] + encode_rel(r.rel)
        + encode_attributes(r.attributes@)
}

/// The link format text of records, separated by commas
pub open spec fn encode_records(records: Seq<LinkRecord>) -> Seq<u8>
    decreases records.len(),
{
    if records.len() == 0 {
        Seq::empty()
    } else if records.len() == 1 {
        encode_record(records[0])
    } else {
        encode_records(records.drop_last()) + seq![0x2cu8] + encode_record(records.last())
    }
}

/// The text of a record, part by part: `<`, the path, `>`; then, whenever the record has a
/// relation `v` (whatever its attributes), `;rel="v"`; then the attributes' texts.
pub proof fn law_record_text(r: LinkRecord)
    ensures
        ({
            let p = encode_path(r.path@.map_values(|e: Vec<u8>| e@));
            let t = encode_record(r);
            let head = p.len() + 2int;
            &&& t.take(head) == seq![0x3cu8] + p + seq![0x3eu8]
            &&& (r.rel matches Some(v) ==> t.subrange(head, head + 7 + v@.len() as int) == seq![
                0x3bu8,
                0x72u8,
                0x65u8,
                0x6cu8,
                0x3du8,
                0x22u8,
            ] + v@ + seq![0x22u8])
            &&& (r.rel matches Some(v) ==> t.skip(head + 7 + v@.len() as int) == encode_attributes(
                r.attributes@,
            ))
            &&& (r.rel is None ==> t.skip(head) == encode_attributes(r.attributes@))
        }),
{
    let p = encode_path(r.path@.map_values(|e: Vec<u8>| e@));
    let t = encode_record(r);
    let head = p.len() + 2int;
    assert(t.take(head) =~= seq![0x3cu8] + p + seq![0x3eu8]);
    match r.rel {
        Some(v) => {
            assert(t.subrange(head, head + 7 + v@.len() as int) =~= seq![
                0x3bu8,
                0x72u8,
                0x65u8,
                0x6cu8,
                0x3du8,
                0x22u8,
            ] + v@ + seq![0x22u8]);
            assert(t.skip(head + 7 + v@.len() as int) =~= encode_attributes(r.attributes@));
        },
        None => {
            assert(t.skip(head) =~= encode_attributes(r.attributes@));
        },
    }
}

/// Records that differ only in their attributes are encoded alike up to the attributes: the
/// attributes' texts are appended to the text of the record without them.
pub proof fn law_attributes_are_appended(r: LinkRecord, s: LinkRecord)
    requires
        r.path@.map_values(|e: Vec<u8>| e@) == s.path@.map_values(|e: Vec<u8>| e@),
        r.rel == s.rel,
        s.attributes@.len() == 0,
    ensures
        encode_record(r) == encode_record(s) + encode_attributes(r.attributes@),
{
    assert(encode_attributes(s.attributes@) == Seq::<u8>::empty());
    assert(encode_record(r) =~= encode_record(s) + encode_attributes(r.attributes@));
}

/// Writer of link format text, which knows whether a record was written yet
pub struct LinkEncoder {
    output: Vec<u8>,
    is_first: bool,
}

impl LinkEncoder {
    /// The text written so far
    pub closed spec fn spec_output(&self) -> Seq<u8> {
        self.output@
    }

    /// Whether no record was started yet
    pub closed spec fn spec_is_first(&self) -> bool {
        self.is_first
    }

    /// An encoder that has written nothing
    pub fn new() -> (e: Self)
        ensures
            e.spec_output() == Seq::<u8>::empty(),
            e.spec_is_first(),
    {
        LinkEncoder { output: Vec::new(), is_first: true }
    }

    /// The text written so far
    pub fn output(&self) -> (o: &[u8])
        ensures
            o@ == self.spec_output(),
    {
        self.output.as_slice()
    }

    /// Append bytes
    pub fn write(&mut self, data: &[u8])
        ensures
            final(self).spec_output() == old(self).spec_output() + data@,
            final(self).spec_is_first() == old(self).spec_is_first(),
    {
        let mut i: usize = 0;
        while i < data.len()
            invariant
                i <= data@.len(),
                self.output@ == old(self).spec_output() + data@.take(i as int),
                self.is_first == old(self).spec_is_first(),
            decreases data@.len() - i,
        {
            self.output.push(data[i]);
            i = i + 1;
            assert(self.output@ =~= old(self).spec_output() + data@.take(i as int));
        }
        assert(data@.take(data@.len() as int) =~= data@);
    }

    /// Separate a new record from the one before it, if there is one
    pub fn write_comma_maybe(&mut self)
        ensures
            final(self).spec_output() == if old(self).spec_is_first() {
                old(self).spec_output()
            } else {
                old(self).spec_output() + seq![0x2cu8]
            },
            !final(self).spec_is_first(),
    {
        if !self.is_first {
            self.write(&[0x2c]);
        }
        self.is_first = false;
    }
}

/// Write the path elements of a record, each preceded by a slash
fn write_path(path: &Vec<Vec<u8>>, writer: &mut LinkEncoder)
    ensures
        final(writer).spec_output() == old(writer).spec_output() + encode_path(
            path@.map_values(|e: Vec<u8>| e@),
        ),
        final(writer).spec_is_first() == old(writer).spec_is_first(),
{
    let mut p: usize = 0;
    while p < path.len()
        invariant
            p <= path@.len(),
            writer.spec_is_first() == old(writer).spec_is_first(),
            writer.spec_output() == old(writer).spec_output() + encode_path(
                path@.take(p as int).map_values(|e: Vec<u8>| e@),
            ),
        decreases path@.len() - p,
    {
        writer.write(&[0x2f]);
        writer.write(path[p].as_slice());
        proof {
            let prev = path@.take(p as int).map_values(|e: Vec<u8>| e@);
            let next = path@.take(p + 1).map_values(|e: Vec<u8>| e@);
            assert(next.drop_last() =~= prev);
            assert(next.last() == path@[p as int]@);
        }
        p = p + 1;
    }
    proof {
        assert(path@.take(path@.len() as int) =~= path@);
    }
}

/// Write the attributes of a record
fn write_attributes(attributes: &Vec<LinkAttribute>, writer: &mut LinkEncoder)
    ensures
        final(writer).spec_output() == old(writer).spec_output() + encode_attributes(attributes@),
        final(writer).spec_is_first() == old(writer).spec_is_first(),
{
    let mut a: usize = 0;
    while a < attributes.len()
        invariant
            a <= attributes@.len(),
            writer.spec_is_first() == old(writer).spec_is_first(),
            writer.spec_output() == old(writer).spec_output() + encode_attributes(
                attributes@.take(a as int),
            ),
        decreases attributes@.len() - a,
    {
        let ghost before = writer.spec_output();
        match &attributes[a] {
            LinkAttribute::Observable => writer.write(&[0x3b, 0x6f, 0x62, 0x73]),
            LinkAttribute::Interface(i) => {
                writer.write(&[0x3b, 0x69, 0x66, 0x3d, 0x22]);
                writer.write(i.as_slice());
                writer.write(&[0x22]);
            },
            LinkAttribute::ResourceType(r) => {
                writer.write(&[0x3b, 0x72, 0x74, 0x3d, 0x22]);
                writer.write(r.as_slice());
                writer.write(&[0x22]);
            },
            LinkAttribute::Other => {},
        }
        proof {
            assert(writer.spec_output() =~= before + encode_attribute(attributes@[a as int]));
            assert(attributes@.take(a + 1).drop_last() =~= attributes@.take(a as int));
        }
        a = a + 1;
    }
    proof {
        assert(attributes@.take(attributes@.len() as int) =~= attributes@);
    }
}

/// Write the link format text of one record
fn write_record(record: &LinkRecord, writer: &mut LinkEncoder)
    ensures
        final(writer).spec_output() == old(writer).spec_output() + encode_record(*record),
        final(writer).spec_is_first() == old(writer).spec_is_first(),
{
    let ghost start = writer.spec_output();
    writer.write(&[0x3c]);
    write_path(&record.path, writer);
    writer.write(&[0x3e]);
    match &record.rel {
        Some(rel) => {
            writer.write(&[0x3b, 0x72, 0x65, 0x6c, 0x3d, 0x22]);
            writer.write(rel.as_slice());
            writer.write(&[0x22]);
        },
        None => {},
    }
    write_attributes(&record.attributes, writer);
    proof {
        assert(writer.spec_output() =~= start + encode_record(*record));
    }
}

/// Write the link format text of `records` through `writer`
pub fn encode(records: &[LinkRecord], writer: &mut LinkEncoder)
    ensures
        old(writer).spec_is_first() ==> final(writer).spec_output() == old(writer).spec_output()
            + encode_records(records@),
        !old(writer).spec_is_first() && records@.len() > 0 ==> final(writer).spec_output()
            == old(writer).spec_output() + seq![0x2cu8] + encode_records(records@),
        records@.len() == 0 ==> final(writer).spec_output() == old(writer).spec_output(),
        records@.len() > 0 ==> !final(writer).spec_is_first(),
        records@.len() == 0 ==> final(writer).spec_is_first() == old(writer).spec_is_first(),
{
    let mut k: usize = 0;
    while k < records.len()
        invariant
            k <= records@.len(),
            k == 0 ==> writer.spec_output() == old(writer).spec_output() && writer.spec_is_first()
                == old(writer).spec_is_first(),
            k > 0 ==> !writer.spec_is_first(),
            k > 0 && old(writer).spec_is_first() ==> writer.spec_output() == old(writer).spec_output()
                + encode_records(records@.take(k as int)),
            k > 0 && !old(writer).spec_is_first() ==> writer.spec_output() == old(writer).spec_output()
                + seq![0x2cu8] + encode_records(records@.take(k as int)),
        decreases records@.len() - k,
    {
        writer.write_comma_maybe();
        write_record(&records[k], writer);
        proof {
            let taken = records@.take(k + 1);
            assert(taken.drop_last() =~= records@.take(k as int));
            assert(taken.last() == records@[k as int]);
            if k == 0 {
                assert(encode_records(taken) == encode_record(records@[0]));
                assert(writer.spec_output() =~= old(writer).spec_output() + encode_records(taken)
                    || !old(writer).spec_is_first());
                if !old(writer).spec_is_first() {
                    assert(writer.spec_output() =~= old(writer).spec_output() + seq![0x2cu8]
                        + encode_records(taken));
                }
            } else {
                if old(writer).spec_is_first() {
                    assert(writer.spec_output() =~= old(writer).spec_output() + encode_records(taken));
                } else {
                    assert(writer.spec_output() =~= old(writer).spec_output() + seq![0x2cu8]
                        + encode_records(taken));
                }
            }
        }
        k = k + 1;
    }
    proof {
        assert(records@.take(records@.len() as int) =~= records@);
    }
}

} // verus!
