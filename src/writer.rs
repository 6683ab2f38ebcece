//! Serialisation of an object graph through lopdf, which encodes the objects,
//! the cross-reference table and the trailer.

use vstd::prelude::*;
use vstd::string::StringSliceAdditionalSpecFns;
use crate::metadata::push_decimal;
use crate::object::{push_str, ObjectGraph, PdfKey, PdfObject};

verus! {

#[verifier::external_type_specification]
#[verifier::external_body]
pub struct ExLoObject(lopdf::Object);

#[verifier::external_type_specification]
#[verifier::external_body]
pub struct ExLoDictionary(lopdf::Dictionary);

#[verifier::external_type_specification]
#[verifier::external_body]
pub struct ExLoDocument(lopdf::Document);

/// Relies on `lopdf::Object::Integer`.
#[verifier::external_body]
fn lo_integer(i: i64) -> lopdf::Object {
    lopdf::Object::Integer(i)
}

/// Relies on `lopdf::Object::Name`, given the name's UTF-8 bytes.
#[verifier::external_body]
fn lo_name(n: &String) -> lopdf::Object {
    lopdf::Object::Name(n.as_bytes().to_vec())
}

/// Relies on `lopdf::Object::String` in literal form, given UTF-8 bytes.
#[verifier::external_body]
fn lo_text(t: &String) -> lopdf::Object {
    lopdf::Object::String(t.as_bytes().to_vec(), lopdf::StringFormat::Literal)
}

/// Relies on `lopdf::Object::String` in literal form.
#[verifier::external_body]
fn lo_bytes(b: Vec<u8>) -> lopdf::Object {
    lopdf::Object::String(b, lopdf::StringFormat::Literal)
}

/// Relies on `lopdf::Object::Reference` to generation 0 of object `id`.
#[verifier::external_body]
fn lo_reference(id: u32) -> lopdf::Object {
    lopdf::Object::Reference((id, 0))
}

/// Relies on `lopdf::Object::Array`.
#[verifier::external_body]
fn lo_array(items: Vec<lopdf::Object>) -> lopdf::Object {
    lopdf::Object::Array(items)
}

/// Relies on `lopdf::Dictionary::new`.
#[verifier::external_body]
fn lo_dictionary_new() -> lopdf::Dictionary {
    lopdf::Dictionary::new()
}

/// Relies on `lopdf::Dictionary::set`.
#[verifier::external_body]
fn lo_dictionary_set(d: &mut lopdf::Dictionary, key: Vec<u8>, value: lopdf::Object) {
    d.set(key, value)
}

/// Relies on `lopdf::Object::Dictionary`.
#[verifier::external_body]
fn lo_dictionary(d: lopdf::Dictionary) -> lopdf::Object {
    lopdf::Object::Dictionary(d)
}

/// Relies on `lopdf::Stream::new`, which also sets the stream's `/Length`.
#[verifier::external_body]
fn lo_stream(d: lopdf::Dictionary, content: Vec<u8>) -> lopdf::Object {
    lopdf::Object::Stream(lopdf::Stream::new(d, content))
}

/// Relies on `lopdf::Document::with_version`.
#[verifier::external_body]
fn lo_document(version: &str) -> lopdf::Document {
    lopdf::Document::with_version(version)
}

/// Relies on `lopdf::Document::set_object` at generation 0 of object `id`.
#[verifier::external_body]
fn lo_set_object(doc: &mut lopdf::Document, id: u32, obj: lopdf::Object)
    requires
        id < u32::MAX - 1,
{
    doc.set_object((id, 0), obj)
}

/// Relies on `lopdf::Dictionary::set` on the document's trailer.
#[verifier::external_body]
fn lo_trailer_set(doc: &mut lopdf::Document, key: Vec<u8>, value: lopdf::Object) {
    doc.trailer.set(key, value)
}

/// Relies on `lopdf::Document::prune_objects`: drops the objects that the
/// trailer does not reach.
#[verifier::external_body]
fn lo_prune_objects(doc: &mut lopdf::Document) {
    doc.prune_objects();
}

/// Relies on `lopdf::Document::delete_zero_length_streams`.
#[verifier::external_body]
fn lo_delete_zero_length_streams(doc: &mut lopdf::Document) {
    doc.delete_zero_length_streams();
}

/// Relies on lopdf's `Document::max_id` (the highest object number in use)
/// and `Document::save_to`, writing into memory. The writer adds one or two
/// to `max_id` without an overflow check, hence the bound. It reports only
/// failures of the writer, and writing into a `Vec` does not fail.
#[verifier::external_body]
fn lo_save_to_vec(doc: &mut lopdf::Document, max_id: u32) -> (r: Option<Vec<u8>>)
    requires
        max_id < u32::MAX - 1,
    ensures
        r is Some,
{
    doc.max_id = max_id;
    let mut out: Vec<u8> = Vec::new();
    match doc.save_to(&mut out) {
        Ok(()) => Some(out),
        Err(_) => None,
    }
}

/// The spelling of a dictionary key, without the leading slash.
pub open spec fn key_spelling(k: PdfKey) -> Seq<u8> {
    match k {
        PdfKey::ResourceName(c) => seq![82u8] + crate::metadata::decimal(c as nat),
        _ => key_literal(k).spec_bytes(),
    }
}

/// The spelling of each fixed key.
pub open spec fn key_literal(k: PdfKey) -> &'static str {
    match k {
        PdfKey::Type => "Type",
        PdfKey::Subtype => "Subtype",
        PdfKey::Length1 => "Length1",
        PdfKey::N => "N",
        PdfKey::Count => "Count",
        PdfKey::Kids => "Kids",
        PdfKey::Parent => "Parent",
        PdfKey::MediaBox => "MediaBox",
        PdfKey::TrimBox => "TrimBox",
        PdfKey::CropBox => "CropBox",
        PdfKey::Rotate => "Rotate",
        PdfKey::Resources => "Resources",
        PdfKey::Font => "Font",
        PdfKey::XObject => "XObject",
        PdfKey::PageLayout => "PageLayout",
        PdfKey::PageMode => "PageMode",
        PdfKey::Pages => "Pages",
        PdfKey::Metadata => "Metadata",
        PdfKey::OutputIntents => "OutputIntents",
        PdfKey::S => "S",
        PdfKey::OutputCondition => "OutputCondition",
        PdfKey::OutputConditionIdentifier => "OutputConditionIdentifier",
        PdfKey::RegistryName => "RegistryName",
        PdfKey::Info => "Info",
        PdfKey::DestinationOutputProfile => "DestinationOutputProfile",
        PdfKey::Root => "Root",
        PdfKey::ID => "ID",
        PdfKey::Trapped => "Trapped",
        PdfKey::CreationDate => "CreationDate",
        PdfKey::ModDate => "ModDate",
        PdfKey::GTS_PDFXVersion => "GTS_PDFXVersion",
        PdfKey::Title => "Title",
        PdfKey::Creator => "Creator",
        PdfKey::Producer => "Producer",
        PdfKey::ResourceName(_) => "R",
    }
}

/// The spelling of each fixed key.
#[verifier::when_used_as_spec(key_literal)]
pub fn key_str(k: PdfKey) -> (r: &'static str)
    ensures
        r == key_literal(k),
{
    match k {
        PdfKey::Type => "Type",
        PdfKey::Subtype => "Subtype",
        PdfKey::Length1 => "Length1",
        PdfKey::N => "N",
        PdfKey::Count => "Count",
        PdfKey::Kids => "Kids",
        PdfKey::Parent => "Parent",
        PdfKey::MediaBox => "MediaBox",
        PdfKey::TrimBox => "TrimBox",
        PdfKey::CropBox => "CropBox",
        PdfKey::Rotate => "Rotate",
        PdfKey::Resources => "Resources",
        PdfKey::Font => "Font",
        PdfKey::XObject => "XObject",
        PdfKey::PageLayout => "PageLayout",
        PdfKey::PageMode => "PageMode",
        PdfKey::Pages => "Pages",
        PdfKey::Metadata => "Metadata",
        PdfKey::OutputIntents => "OutputIntents",
        PdfKey::S => "S",
        PdfKey::OutputCondition => "OutputCondition",
        PdfKey::OutputConditionIdentifier => "OutputConditionIdentifier",
        PdfKey::RegistryName => "RegistryName",
        PdfKey::Info => "Info",
        PdfKey::DestinationOutputProfile => "DestinationOutputProfile",
        PdfKey::Root => "Root",
        PdfKey::ID => "ID",
        PdfKey::Trapped => "Trapped",
        PdfKey::CreationDate => "CreationDate",
        PdfKey::ModDate => "ModDate",
        PdfKey::GTS_PDFXVersion => "GTS_PDFXVersion",
        PdfKey::Title => "Title",
        PdfKey::Creator => "Creator",
        PdfKey::Producer => "Producer",
        PdfKey::ResourceName(_) => "R",
    }
}

/// The spelling of key `k`.
pub fn key_name(k: PdfKey) -> (r: Vec<u8>)
    ensures
        r@ == key_spelling(k),
{
    let mut v: Vec<u8> = Vec::new();
    match k {
        PdfKey::ResourceName(c) => {
            v.push(82u8);
            push_decimal(&mut v, c as u64);
            assert(v@ =~= key_spelling(k));
        },
        _ => {
            let lit: &str = key_str(k);
            push_str(&mut v, lit);
            assert(v@ =~= key_spelling(k));
        },
    }
    v
}

/// Converts a dictionary's entries, in order, into a lopdf dictionary.
fn to_lopdf_dictionary(d: &Vec<(PdfKey, PdfObject)>, Ghost(outer): Ghost<PdfObject>) -> lopdf::Dictionary
    requires
        forall|i: int| 0 <= i < d@.len() ==> decreases_to!(outer => (#[trigger] d@[i]).1),
    decreases outer, 0int,
{
    let mut r = lo_dictionary_new();
    let mut i: usize = 0;
    while i < d.len()
        invariant
            forall|j: int| 0 <= j < d@.len() ==> decreases_to!(outer => (#[trigger] d@[j]).1),
        decreases d@.len() - i,
    {
        let (k, v) = &d[i];
        assert(decreases_to!(outer => d@[i as int].1));
        let value = to_lopdf(v);
        lo_dictionary_set(&mut r, key_name(*k), value);
        i = i + 1;
    }
    r
}

/// Converts an object into lopdf's representation.
pub fn to_lopdf(o: &PdfObject) -> lopdf::Object
    decreases o, 1int,
{
    match o {
        PdfObject::Integer(i) => lo_integer(*i),
        PdfObject::Name(n) => lo_name(n),
        PdfObject::Text(t) => lo_text(t),
        PdfObject::Bytes(b) => lo_bytes(b.clone()),
        PdfObject::Reference(id) => lo_reference(*id),
        PdfObject::Array(items) => {
            let mut v: Vec<lopdf::Object> = Vec::new();
            let mut i: usize = 0;
            proof {
                assert forall|j: int| 0 <= j < items@.len() implies decreases_to!(*o => (#[trigger] items@[j])) by {
                    assert(decreases_to!(*o => items@[j]));
                }
            }
            while i < items.len()
                invariant
                    forall|j: int| 0 <= j < items@.len() ==> decreases_to!(*o => (#[trigger] items@[j])),
                decreases items@.len() - i,
            {
                v.push(to_lopdf(&items[i]));
                i = i + 1;
            }
            lo_array(v)
        },
        PdfObject::Dictionary(d) => {
            proof {
                assert forall|i: int| 0 <= i < d@.len() implies decreases_to!(*o => (#[trigger] d@[i]).1) by {
                    assert(decreases_to!(*o => d@[i].1));
                }
            }
            lo_dictionary(to_lopdf_dictionary(d, Ghost(*o)))
        },
        PdfObject::Stream(d, content) => {
            proof {
                assert forall|i: int| 0 <= i < d@.len() implies decreases_to!(*o => (#[trigger] d@[i]).1) by {
                    assert(decreases_to!(*o => d@[i].1));
                }
            }
            lo_stream(to_lopdf_dictionary(d, Ghost(*o)), content.clone())
        },
    }
}

/// Writes `g` as a PDF file: every object at its number, the trailer, then
/// lopdf's clean-up of unreachable objects and empty streams.
pub fn write_graph(g: &ObjectGraph) -> (r: Result<Vec<u8>, crate::errors::Error>)
    requires
        g.wf(),
        g.max_id < u32::MAX - 1,
    ensures
        r is Ok,
{
    let mut doc = lo_document("1.5");
    let mut i: usize = 0;
    while i < g.objects.len()
        invariant
            g.wf(),
            g.max_id < u32::MAX - 1,
        decreases g.objects@.len() - i,
    {
        let (id, obj) = &g.objects[i];
        assert(1 <= g.objects@[i as int].0 <= g.max_id);
        lo_set_object(&mut doc, *id, to_lopdf(obj));
        i = i + 1;
    }
    let mut j: usize = 0;
    while j < g.trailer.len()
        invariant
            g.max_id < u32::MAX - 1,
        decreases g.trailer@.len() - j,
    {
        let (k, v) = &g.trailer[j];
        lo_trailer_set(&mut doc, key_name(*k), to_lopdf(v));
        j = j + 1;
    }
    lo_prune_objects(&mut doc);
    lo_delete_zero_length_streams(&mut doc);
    match lo_save_to_vec(&mut doc, g.max_id) {
        Some(bytes) => Ok(bytes),
        None => Err(crate::errors::Error::IoError),
    }
}

} // verus!
