//! The low-level object graph a document compiles into: PDF objects, the
//! numbered objects of a file and its trailer.

use vstd::prelude::*;
use vstd::string::StringSliceAdditionalSpecFns;

verus! {

/// A dictionary key.
#[allow(non_camel_case_types)]
#[derive(Debug, Clone, Copy, PartialEq, Eq, Structural)]
pub enum PdfKey {
    Type,
    Subtype,
    Length1,
    N,
    Count,
    Kids,
    Parent,
    MediaBox,
    TrimBox,
    CropBox,
    Rotate,
    Resources,
    Font,
    XObject,
    PageLayout,
    PageMode,
    Pages,
    Metadata,
    OutputIntents,
    S,
    OutputCondition,
    OutputConditionIdentifier,
    RegistryName,
    Info,
    DestinationOutputProfile,
    Root,
    ID,
    Trapped,
    CreationDate,
    ModDate,
    GTS_PDFXVersion,
    Title,
    Creator,
    Producer,
    /// The resource name under which a page refers to a content object:
    /// `R` followed by the content handle.
    ResourceName(usize),
}

/// A PDF object value.
pub enum PdfObject {
    Integer(i64),
    /// A name object (`/Type`), without the leading slash.
    Name(String),
    /// A literal string object.
    Text(String),
    /// A literal string object given as bytes.
    Bytes(Vec<u8>),
    /// An indirect reference to the object with the given number
    /// (generation 0).
    Reference(u32),
    Array(Vec<PdfObject>),
    /// A dictionary; a later entry for a key replaces an earlier one.
    Dictionary(Vec<(PdfKey, PdfObject)>),
    /// A stream with its dictionary and binary content.
    Stream(Vec<(PdfKey, PdfObject)>, Vec<u8>),
}

/// The value a dictionary holds for key `k`: its last entry with that key.
pub open spec fn dict_get(d: Seq<(PdfKey, PdfObject)>, k: PdfKey) -> Option<PdfObject>
    decreases d.len(),
{
    if d.len() == 0 {
        None
    } else if d.last().0 == k {
        Some(d.last().1)
    } else {
        dict_get(d.drop_last(), k)
    }
}

/// The object a graph holds under number `id`: its last entry with that number.
pub open spec fn graph_get(objs: Seq<(u32, PdfObject)>, id: u32) -> Option<PdfObject>
    decreases objs.len(),
{
    if objs.len() == 0 {
        None
    } else if objs.last().0 == id {
        Some(objs.last().1)
    } else {
        graph_get(objs.drop_last(), id)
    }
}

/// `o` is the name object `n`.
pub open spec fn is_name(o: Option<PdfObject>, n: Seq<char>) -> bool {
    match o {
        Some(PdfObject::Name(s)) => s@ == n,
        _ => false,
    }
}

/// `o` is the literal string `t`.
pub open spec fn is_text(o: Option<PdfObject>, t: Seq<char>) -> bool {
    match o {
        Some(PdfObject::Text(s)) => s@ == t,
        _ => false,
    }
}

/// `o` is the literal string of bytes `b`.
pub open spec fn is_bytes(o: Option<PdfObject>, b: Seq<u8>) -> bool {
    match o {
        Some(PdfObject::Bytes(v)) => v@ == b,
        _ => false,
    }
}

/// `o` is an array of exactly `n` elements.
pub open spec fn is_array_of_len(o: Option<PdfObject>, n: int) -> bool {
    match o {
        Some(PdfObject::Array(v)) => v@.len() == n,
        _ => false,
    }
}

/// The entries of `o` if it is a dictionary (or a stream's dictionary).
pub open spec fn entries(o: Option<PdfObject>) -> Seq<(PdfKey, PdfObject)> {
    match o {
        Some(PdfObject::Dictionary(d)) => d@,
        Some(PdfObject::Stream(d, _)) => d@,
        _ => Seq::empty(),
    }
}

pub proof fn lemma_dict_get_push(d: Seq<(PdfKey, PdfObject)>, e: (PdfKey, PdfObject), k: PdfKey)
    ensures
        dict_get(d.push(e), k) == if e.0 == k { Some(e.1) } else { dict_get(d, k) },
{
    assert(d.push(e).drop_last() =~= d);
}

pub proof fn lemma_graph_get_push(objs: Seq<(u32, PdfObject)>, e: (u32, PdfObject), id: u32)
    ensures
        graph_get(objs.push(e), id) == if e.0 == id { Some(e.1) } else { graph_get(objs, id) },
{
    assert(objs.push(e).drop_last() =~= objs);
}

/// Appends the entry `k` → `v` to a dictionary under construction.
pub fn dict_set(d: &mut Vec<(PdfKey, PdfObject)>, k: PdfKey, v: PdfObject)
    ensures
        final(d)@ == old(d)@.push((k, v)),
        forall|key: PdfKey|
            #[trigger] dict_get(final(d)@, key) == if key == k { Some(v) } else { dict_get(old(d)@, key) },
{
    let ghost before = d@;
    d.push((k, v));
    proof {
        assert forall|kk: PdfKey|
            #[trigger] dict_get(d@, kk) == if kk == k { Some(v) } else { dict_get(before, kk) } by {
            lemma_dict_get_push(before, (k, v), kk);
        }
    }
}

/// A name object.
pub fn name(n: &str) -> (r: PdfObject)
    ensures
        is_name(Some(r), n@),
{
    PdfObject::Name(String::from_str(n))
}

/// A literal string object.
pub fn text(t: &str) -> (r: PdfObject)
    ensures
        is_text(Some(r), t@),
{
    PdfObject::Text(String::from_str(t))
}

/// Appends the bytes of `s` to `v`.
pub fn push_str(v: &mut Vec<u8>, s: &str)
    ensures
        final(v)@ == old(v)@ + s.spec_bytes(),
{
    let b = s.as_bytes();
    let mut i: usize = 0;
    while i < b.len()
        invariant
            b@ == s.spec_bytes(),
            i <= b@.len(),
            v@ == old(v)@ + b@.subrange(0, i as int),
        decreases b@.len() - i,
    {
        v.push(b[i]);
        i = i + 1;
        assert(b@.subrange(0, i as int) =~= b@.subrange(0, i - 1 as int).push(b@[i - 1]));
    }
    assert(b@.subrange(0, b@.len() as int) =~= b@);
}

/// Appends `bytes` to `v`.
pub fn push_bytes(v: &mut Vec<u8>, bytes: &Vec<u8>)
    ensures
        final(v)@ == old(v)@ + bytes@,
{
    let mut i: usize = 0;
    while i < bytes.len()
        invariant
            i <= bytes@.len(),
            v@ == old(v)@ + bytes@.subrange(0, i as int),
        decreases bytes@.len() - i,
    {
        v.push(bytes[i]);
        i = i + 1;
        assert(bytes@.subrange(0, i as int) =~= bytes@.subrange(0, i - 1 as int).push(bytes@[i - 1]));
    }
    assert(bytes@.subrange(0, bytes@.len() as int) =~= bytes@);
}

/// A numbered object graph with its trailer dictionary, ready to be written.
pub struct ObjectGraph {
    /// Numbered objects; a later entry for a number replaces an earlier one.
    pub objects: Vec<(u32, PdfObject)>,
    pub trailer: Vec<(PdfKey, PdfObject)>,
    /// The highest object number handed out.
    pub max_id: u32,
}

impl ObjectGraph {
    /// Every object number in use is at least 1 and at most `max_id`.
    pub open spec fn wf(&self) -> bool {
        forall|i: int| 0 <= i < self.objects@.len() ==> 1 <= #[trigger] self.objects@[i].0 <= self.max_id
    }

    pub fn new() -> (r: ObjectGraph)
        ensures
            r.wf(),
            r.objects@.len() == 0,
            r.trailer@.len() == 0,
            r.max_id == 0,
    {
        ObjectGraph { objects: Vec::new(), trailer: Vec::new(), max_id: 0 }
    }

    /// Reserves a fresh object number without storing an object under it.
    pub fn new_object_id(&mut self) -> (id: u32)
        requires
            old(self).wf(),
            old(self).max_id < u32::MAX,
        ensures
            final(self).wf(),
            id == old(self).max_id + 1,
            final(self).max_id == id,
            final(self).objects == old(self).objects,
            final(self).trailer == old(self).trailer,
    {
        self.max_id = self.max_id + 1;
        self.max_id
    }

    /// Stores `obj` under a number reserved earlier.
    pub fn set_object(&mut self, id: u32, obj: PdfObject)
        requires
            old(self).wf(),
            1 <= id <= old(self).max_id,
        ensures
            final(self).wf(),
            final(self).max_id == old(self).max_id,
            final(self).trailer == old(self).trailer,
            final(self).objects@ == old(self).objects@.push((id, obj)),
            forall|n: u32|
                #[trigger] graph_get(final(self).objects@, n) == if n == id { Some(obj) } else {
                    graph_get(old(self).objects@, n)
                },
    {
        let ghost before = self.objects@;
        self.objects.push((id, obj));
        proof {
            assert forall|n: u32|
                #[trigger] graph_get(self.objects@, n) == if n == id { Some(obj) } else {
                    graph_get(before, n)
                } by {
                lemma_graph_get_push(before, (id, obj), n);
            }
        }
    }

    /// Stores `obj` under a fresh number and returns that number.
    pub fn add_object(&mut self, obj: PdfObject) -> (id: u32)
        requires
            old(self).wf(),
            old(self).max_id < u32::MAX,
        ensures
            final(self).wf(),
            id == old(self).max_id + 1,
            final(self).max_id == id,
            final(self).trailer == old(self).trailer,
            final(self).objects@ == old(self).objects@.push((id, obj)),
            forall|n: u32|
                #[trigger] graph_get(final(self).objects@, n) == if n == id { Some(obj) } else {
                    graph_get(old(self).objects@, n)
                },
    {
        let id = self.new_object_id();
        self.set_object(id, obj);
        id
    }
}

} // verus!
