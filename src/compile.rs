//! Compilation of a document into its PDF object graph: the page tree, the
//! pages with their resources, the registered content, the metadata, the
//! catalog and the trailer.

use vstd::prelude::*;
use crate::document::{PdfContent, PdfDocument, PdfPage};
use crate::object::{
    dict_get, dict_set, entries, graph_get, is_array_of_len, is_bytes, is_name, is_text, name, text, ObjectGraph,
    PdfKey, PdfObject,
};
use crate::errors::Error;
use crate::metadata::{pdf_date, xmp_packet};
use crate::sources::random_alphanumeric;
use crate::units::{mpt_to_pt, to_whole_points};
use crate::writer::write_graph;

verus! {

/// Description of the output condition that the ICC profile stands for.
pub const OUTPUT_CONDITION: &'static str = "Commercial and special offset print according to ISO 12647-2:2004 / Amd 1, paper type 1 or 2 (matte or gloss-coated offset paper, 115 g/m2), screen ruling 60/cm";

/// Name of the characterised printing condition.
pub const OUTPUT_CONDITION_INFO: &'static str = "Coated FOGRA39 (ISO 12647-2:2004)";

/// Identifier of the characterised printing condition in the ICC registry.
pub const OUTPUT_CONDITION_IDENTIFIER: &'static str = "FOGRA39";

/// The ICC registry.
pub const REGISTRY_NAME: &'static str = "http://www.color.org";

/// The number `o` refers to, if it is a reference.
pub open spec fn ref_of(o: Option<PdfObject>) -> u32 {
    match o {
        Some(PdfObject::Reference(id)) => id,
        _ => 0,
    }
}

/// `o` is a reference.
pub open spec fn is_ref(o: Option<PdfObject>) -> bool {
    o matches Some(PdfObject::Reference(_))
}

/// The rectangle `[0 0 w h]` of a page, in whole points.
pub open spec fn page_box(p: PdfPage) -> Seq<PdfObject> {
    seq![
        PdfObject::Integer(0),
        PdfObject::Integer(0),
        PdfObject::Integer(mpt_to_pt(p.width_pt as int) as i64),
        PdfObject::Integer(mpt_to_pt(p.height_pt as int) as i64),
    ]
}

/// `o` is the rectangle `b`.
pub open spec fn is_box(o: Option<PdfObject>, b: Seq<PdfObject>) -> bool {
    match o {
        Some(PdfObject::Array(v)) => v@ == b,
        _ => false,
    }
}

/// `o` is the page object of `p` under the page tree `parent`.
pub open spec fn is_page_object(o: Option<PdfObject>, p: PdfPage, parent: u32) -> bool {
    let d = entries(o);
    &&& o matches Some(PdfObject::Dictionary(_))
    &&& is_name(dict_get(d, PdfKey::Type), "Page"@)
    &&& dict_get(d, PdfKey::Rotate) == Some(PdfObject::Integer(0))
    &&& is_box(dict_get(d, PdfKey::MediaBox), page_box(p))
    &&& is_box(dict_get(d, PdfKey::TrimBox), page_box(p))
    &&& is_box(dict_get(d, PdfKey::CropBox), page_box(p))
    &&& dict_get(d, PdfKey::Parent) == Some(PdfObject::Reference(parent))
    &&& dict_get(d, PdfKey::Resources) matches Some(PdfObject::Dictionary(_))
}

/// `o` is the page object of `p`, and its resources list what the layers of
/// `p` use.
pub open spec fn is_page_object_with_resources(
    o: Option<PdfObject>,
    p: PdfPage,
    parent: u32,
    is_font: Seq<bool>,
    content_ids: Seq<u32>,
) -> bool {
    &&& is_page_object(o, p, parent)
    &&& lists_resources(dict_get(entries(o), PdfKey::Resources)->0, p, is_font, content_ids)
}

/// The object `o` refers to in `g`.
pub open spec fn deref(g: ObjectGraph, o: Option<PdfObject>) -> Option<PdfObject> {
    graph_get(g.objects@, ref_of(o))
}

/// `kids` lists, in order, references to the page objects of `pages` under
/// the page tree `parent`.
pub open spec fn lists_pages(g: ObjectGraph, kids: Seq<PdfObject>, pages: Seq<PdfPage>, parent: u32) -> bool {
    &&& kids.len() == pages.len()
    &&& forall|i: int|
        0 <= i < kids.len() ==> {
            &&& (#[trigger] kids[i]) matches PdfObject::Reference(_)
            &&& is_page_object(graph_get(g.objects@, ref_of(Some(kids[i]))), pages[i], parent)
        }
}

/// Each registered content object that a layer of `page` uses is listed in
/// the resource dictionary `res` (under `/Font` for a font, `/XObject`
/// otherwise) by a reference to its compiled object in `g`.
pub open spec fn links_content(g: ObjectGraph, res: PdfObject, page: PdfPage, contents: Seq<PdfContent>) -> bool {
    forall|l: int, k: int|
        0 <= l < page.layers@.len() && 0 <= k < page.layers@[l].resources@.len()
            && (#[trigger] page.layers@[l].resources@[k]).0 < contents.len() ==> {
            let c = page.layers@[l].resources@[k].0;
            let sub = entries(
                dict_get(entries(Some(res)), if contents[c as int] is Font { PdfKey::Font } else { PdfKey::XObject }),
            );
            let e = dict_get(sub, PdfKey::ResourceName(c));
            &&& e matches Some(PdfObject::Reference(_))
            &&& graph_get(g.objects@, ref_of(e)) matches Some(o) && content_object_ok(o, contents[c as int])
        }
}

/// The resource dictionary of page object `o`.
pub open spec fn resources_of(o: Option<PdfObject>) -> PdfObject {
    dict_get(entries(o), PdfKey::Resources)->0
}

/// The page-tree object that the catalog of `g` refers to.
pub open spec fn page_tree(g: ObjectGraph) -> Option<PdfObject> {
    let catalog = deref(g, dict_get(g.trailer@, PdfKey::Root));
    deref(g, dict_get(entries(catalog), PdfKey::Pages))
}

/// The compiled form of a registered content object.
pub open spec fn content_object_ok(o: PdfObject, c: PdfContent) -> bool {
    match c {
        PdfContent::Font(b) => o matches PdfObject::Stream(_, s) && s@ == b@,
        PdfContent::Svg(b) => o matches PdfObject::Stream(_, s) && s@ == b@,
        PdfContent::Raw(x) => o == x,
    }
}

/// Compiles a registered content object.
pub fn compile_content(c: PdfContent) -> (r: PdfObject)
    ensures
        content_object_ok(r, c),
{
    match c {
        PdfContent::Font(bytes) => {
            let mut d: Vec<(PdfKey, PdfObject)> = Vec::new();
            let n = bytes.len();
            if n <= i64::MAX as usize {
                dict_set(&mut d, PdfKey::Length1, PdfObject::Integer(n as i64));
            }
            PdfObject::Stream(d, bytes)
        },
        PdfContent::Svg(bytes) => {
            let mut d: Vec<(PdfKey, PdfObject)> = Vec::new();
            dict_set(&mut d, PdfKey::Type, name("XObject"));
            PdfObject::Stream(d, bytes)
        },
        PdfContent::Raw(obj) => obj,
    }
}

/// The rectangle `[0 0 w h]` of `page`, in whole points.
fn page_box_object(page: &PdfPage) -> (r: PdfObject)
    ensures
        is_box(Some(r), page_box(*page)),
{
    let mut v: Vec<PdfObject> = Vec::new();
    v.push(PdfObject::Integer(0));
    v.push(PdfObject::Integer(0));
    v.push(PdfObject::Integer(to_whole_points(page.width_pt)));
    v.push(PdfObject::Integer(to_whole_points(page.height_pt)));
    assert(v@ =~= page_box(*page));
    PdfObject::Array(v)
}

/// The resource entry for content `c`: a reference to its number, under
/// `/Font` for a font and under `/XObject` otherwise.
pub open spec fn resource_entry_ok(
    fonts: Seq<(PdfKey, PdfObject)>,
    xobjects: Seq<(PdfKey, PdfObject)>,
    is_font: Seq<bool>,
    content_ids: Seq<u32>,
    c: usize,
) -> bool {
    dict_get(if is_font[c as int] { fonts } else { xobjects }, PdfKey::ResourceName(c)) == Some(
        PdfObject::Reference(content_ids[c as int]),
    )
}

/// `r` is a resource dictionary listing every registered content object that
/// a layer of `page` uses.
pub open spec fn lists_resources(r: PdfObject, page: PdfPage, is_font: Seq<bool>, content_ids: Seq<u32>) -> bool {
    let d = entries(Some(r));
    &&& r matches PdfObject::Dictionary(_)
    &&& dict_get(d, PdfKey::Font) matches Some(PdfObject::Dictionary(_))
    &&& dict_get(d, PdfKey::XObject) matches Some(PdfObject::Dictionary(_))
    &&& forall|l: int, k: int|
        0 <= l < page.layers@.len() && 0 <= k < page.layers@[l].resources@.len()
            && (#[trigger] page.layers@[l].resources@[k]).0 < content_ids.len() ==> resource_entry_ok(
            entries(dict_get(d, PdfKey::Font)),
            entries(dict_get(d, PdfKey::XObject)),
            is_font,
            content_ids,
            page.layers@[l].resources@[k].0,
        )
}

/// The resource dictionary of `page`: each content object that one of its
/// layers uses, under `/Font` for fonts and `/XObject` otherwise, named by
/// its handle and referring to its number in `content_ids`.
fn page_resources(page: &PdfPage, is_font: &Vec<bool>, content_ids: &Vec<u32>) -> (r: PdfObject)
    requires
        is_font@.len() == content_ids@.len(),
    ensures
        lists_resources(r, *page, is_font@, content_ids@),
{
    let mut fonts: Vec<(PdfKey, PdfObject)> = Vec::new();
    let mut xobjects: Vec<(PdfKey, PdfObject)> = Vec::new();
    let mut i: usize = 0;
    while i < page.layers.len()
        invariant
            is_font@.len() == content_ids@.len(),
            i <= page.layers@.len(),
            forall|l: int, k: int|
                0 <= l < i && 0 <= k < page.layers@[l].resources@.len()
                    && (#[trigger] page.layers@[l].resources@[k]).0 < content_ids@.len() ==> resource_entry_ok(
                    fonts@,
                    xobjects@,
                    is_font@,
                    content_ids@,
                    page.layers@[l].resources@[k].0,
                ),
        decreases page.layers@.len() - i,
    {
        let layer = &page.layers[i];
        let mut j: usize = 0;
        while j < layer.resources.len()
            invariant
                is_font@.len() == content_ids@.len(),
                i < page.layers@.len(),
                *layer == page.layers@[i as int],
                j <= layer.resources@.len(),
                forall|l: int, k: int|
                    ((0 <= l < i && 0 <= k < page.layers@[l].resources@.len()) || (l == i && 0 <= k < j))
                        && (#[trigger] page.layers@[l].resources@[k]).0 < content_ids@.len()
                        ==> resource_entry_ok(
                        fonts@,
                        xobjects@,
                        is_font@,
                        content_ids@,
                        page.layers@[l].resources@[k].0,
                    ),
            decreases layer.resources@.len() - j,
        {
            let c = layer.resources[j].0;
            if c < content_ids.len() {
                let entry = PdfObject::Reference(content_ids[c]);
                if is_font[c] {
                    dict_set(&mut fonts, PdfKey::ResourceName(c), entry);
                } else {
                    dict_set(&mut xobjects, PdfKey::ResourceName(c), entry);
                }
            }
            j = j + 1;
        }
        i = i + 1;
    }
    let ghost fonts_view = fonts@;
    let ghost xobjects_view = xobjects@;
    let mut d: Vec<(PdfKey, PdfObject)> = Vec::new();
    dict_set(&mut d, PdfKey::Font, PdfObject::Dictionary(fonts));
    dict_set(&mut d, PdfKey::XObject, PdfObject::Dictionary(xobjects));
    assert(entries(dict_get(d@, PdfKey::Font)) == fonts_view);
    assert(entries(dict_get(d@, PdfKey::XObject)) == xobjects_view);
    PdfObject::Dictionary(d)
}

/// The page object of `page` under the page tree `parent`.
fn page_object(page: &PdfPage, parent: u32, is_font: &Vec<bool>, content_ids: &Vec<u32>) -> (r: PdfObject)
    requires
        is_font@.len() == content_ids@.len(),
    ensures
        is_page_object_with_resources(Some(r), *page, parent, is_font@, content_ids@),
{
    let mut p: Vec<(PdfKey, PdfObject)> = Vec::new();
    dict_set(&mut p, PdfKey::Type, name("Page"));
    dict_set(&mut p, PdfKey::Rotate, PdfObject::Integer(0));
    dict_set(&mut p, PdfKey::MediaBox, page_box_object(page));
    dict_set(&mut p, PdfKey::TrimBox, page_box_object(page));
    dict_set(&mut p, PdfKey::CropBox, page_box_object(page));
    dict_set(&mut p, PdfKey::Parent, PdfObject::Reference(parent));
    dict_set(&mut p, PdfKey::Resources, page_resources(page, is_font, content_ids));
    PdfObject::Dictionary(p)
}

/// The output intent for the ICC profile stored under `profile_id`.
fn output_intent(profile_id: u32) -> (r: PdfObject)
    ensures
        r matches PdfObject::Dictionary(d) && {
            &&& is_name(dict_get(d@, PdfKey::Type), "OutputIntent"@)
            &&& is_name(dict_get(d@, PdfKey::S), "GTS_PDFX"@)
            &&& is_text(dict_get(d@, PdfKey::RegistryName), REGISTRY_NAME@)
            &&& is_text(dict_get(d@, PdfKey::OutputConditionIdentifier), OUTPUT_CONDITION_IDENTIFIER@)
            &&& dict_get(d@, PdfKey::DestinationOutputProfile) == Some(PdfObject::Reference(profile_id))
        },
{
    let mut d: Vec<(PdfKey, PdfObject)> = Vec::new();
    dict_set(&mut d, PdfKey::S, name("GTS_PDFX"));
    dict_set(&mut d, PdfKey::OutputCondition, text(OUTPUT_CONDITION));
    dict_set(&mut d, PdfKey::Type, name("OutputIntent"));
    dict_set(&mut d, PdfKey::OutputConditionIdentifier, text(OUTPUT_CONDITION_IDENTIFIER));
    dict_set(&mut d, PdfKey::RegistryName, text(REGISTRY_NAME));
    dict_set(&mut d, PdfKey::Info, text(OUTPUT_CONDITION_INFO));
    dict_set(&mut d, PdfKey::DestinationOutputProfile, PdfObject::Reference(profile_id));
    PdfObject::Dictionary(d)
}


/// The trailer of `g` has an `/ID` array of two literal strings: the
/// document identifier, then the instance identifier.
pub open spec fn has_ids(g: ObjectGraph, document_id: Seq<char>, instance_id: Seq<char>) -> bool {
    dict_get(g.trailer@, PdfKey::ID) matches Some(PdfObject::Array(ids)) && {
        &&& ids@.len() == 2
        &&& is_text(Some(ids@[0]), document_id)
        &&& is_text(Some(ids@[1]), instance_id)
    }
}

/// Entry `i` of the trailer's `/ID` array, as text.
pub open spec fn id_entry(g: ObjectGraph, i: int) -> Seq<char> {
    match dict_get(g.trailer@, PdfKey::ID) {
        Some(PdfObject::Array(ids)) => match ids@[i] {
            PdfObject::Text(t) => t@,
            _ => Seq::empty(),
        },
        _ => Seq::empty(),
    }
}

/// Two compiled graphs of documents with one identifier carry the same first
/// `/ID` entry, whatever their instance identifiers; graphs compiled under
/// different instance identifiers differ in the second entry.
pub proof fn lemma_document_id_stable(
    g1: ObjectGraph,
    g2: ObjectGraph,
    document_id: Seq<char>,
    instance1: Seq<char>,
    instance2: Seq<char>,
)
    requires
        has_ids(g1, document_id, instance1),
        has_ids(g2, document_id, instance2),
    ensures
        id_entry(g1, 0) == id_entry(g2, 0),
        id_entry(g1, 0) == document_id,
        instance1 != instance2 ==> id_entry(g1, 1) != id_entry(g2, 1),
{
}

/// The catalog of `g`: the object that the trailer's `/Root` refers to.
pub open spec fn catalog(g: ObjectGraph) -> Option<PdfObject> {
    deref(g, dict_get(g.trailer@, PdfKey::Root))
}

impl PdfDocument {
    /// Compiles the document into its object graph; `instance_id` identifies
    /// this revision. The page tree's number is reserved first, so that the
    /// pages can name it as their parent before the tree itself is stored.
    pub fn compile(self, instance_id: &str) -> (g: ObjectGraph)
        requires
            self.pages@.len() + self.contents@.len() + 6 < u32::MAX,
        ensures
            g.wf(),
            g.max_id < u32::MAX - 1,
            is_ref(dict_get(g.trailer@, PdfKey::Root)),
            is_ref(dict_get(g.trailer@, PdfKey::Info)),
            has_ids(g, self.document_id@, instance_id@),
            deref(g, dict_get(g.trailer@, PdfKey::Info)) matches Some(PdfObject::Dictionary(d)) && {
                &&& is_text(dict_get(d@, PdfKey::Title), self.metadata.document_title@)
                &&& is_text(dict_get(d@, PdfKey::Creator), self.metadata.creator@)
                &&& is_text(dict_get(d@, PdfKey::Producer), self.metadata.producer@)
                &&& is_name(dict_get(d@, PdfKey::Trapped), if self.metadata.trapping { "True"@ } else { "False"@ })
                &&& is_bytes(dict_get(d@, PdfKey::CreationDate), pdf_date(self.metadata.creation_date))
                &&& is_bytes(dict_get(d@, PdfKey::ModDate), pdf_date(self.metadata.modification_date))
                &&& is_text(dict_get(d@, PdfKey::GTS_PDFXVersion), self.metadata.conformance.spec_identifier()@)
            },
            catalog(g) matches Some(PdfObject::Dictionary(_)),
            is_name(dict_get(entries(catalog(g)), PdfKey::Type), "Catalog"@),
            is_name(dict_get(entries(catalog(g)), PdfKey::PageLayout), "OneColumn"@),
            is_name(dict_get(entries(catalog(g)), PdfKey::PageMode), "UseNone"@),
            deref(g, dict_get(entries(catalog(g)), PdfKey::Metadata)) matches Some(PdfObject::Stream(d, c)) && {
                &&& is_name(dict_get(d@, PdfKey::Type), "Metadata"@)
                &&& is_name(dict_get(d@, PdfKey::Subtype), "XML"@)
                &&& c@ == xmp_packet(self.metadata, self.document_id@, instance_id@)
            },
            self.metadata.icc_profile is None ==> dict_get(entries(catalog(g)), PdfKey::OutputIntents) is None,
            self.metadata.icc_profile is Some <==> is_array_of_len(
                dict_get(entries(catalog(g)), PdfKey::OutputIntents),
                1,
            ),
            self.metadata.icc_profile is Some ==> (dict_get(entries(catalog(g)), PdfKey::OutputIntents) matches Some(
                PdfObject::Array(a),
            ) && {
                let intent = entries(Some(a@[0]));
                &&& is_name(dict_get(intent, PdfKey::Type), "OutputIntent"@)
                &&& is_text(dict_get(intent, PdfKey::RegistryName), REGISTRY_NAME@)
                &&& is_text(dict_get(intent, PdfKey::OutputConditionIdentifier), OUTPUT_CONDITION_IDENTIFIER@)
                &&& deref(g, dict_get(intent, PdfKey::DestinationOutputProfile)) matches Some(PdfObject::Stream(_, c))
                    && c@ == self.metadata.icc_profile->0@
            }),
            page_tree(g) matches Some(PdfObject::Dictionary(_)),
            is_name(dict_get(entries(page_tree(g)), PdfKey::Type), "Pages"@),
            dict_get(entries(page_tree(g)), PdfKey::Count) == Some(PdfObject::Integer(self.pages@.len() as i64)),
            dict_get(entries(page_tree(g)), PdfKey::Kids) matches Some(PdfObject::Array(kids)) && {
                &&& lists_pages(g, kids@, self.pages@, ref_of(dict_get(entries(catalog(g)), PdfKey::Pages)))
                &&& forall|i: int|
                    0 <= i < kids@.len() ==> links_content(
                        g,
                        resources_of(graph_get(g.objects@, ref_of(Some(#[trigger] kids@[i])))),
                        self.pages@[i],
                        self.contents@,
                    )
            },
    {
        let PdfDocument { pages, contents, document_id, metadata } = self;
        let mut g = ObjectGraph::new();

        // Allocation: the page tree's number, then the metadata objects.
        let pages_id = g.new_object_id();
        let (xmp, info, icc) = metadata.into_obj(document_id.as_str(), instance_id);
        let ghost xmp_obj = xmp;
        let xmp_id = g.add_object(xmp);
        let ghost info_obj = info;
        let info_id = g.add_object(info);
        let ghost icc_obj = icc;
        let icc_id: Option<u32> = match icc {
            Some(o) => Some(g.add_object(o)),
            None => None,
        };

        // Registered content, in order of registration.
        let ghost orig = contents@;
        let mut contents = contents;
        let mut is_font: Vec<bool> = Vec::new();
        let mut content_ids: Vec<u32> = Vec::new();
        while contents.len() > 0
            invariant
                g.wf(),
                pages_id == 1,
                1 <= g.max_id,
                g.max_id + contents@.len() + pages@.len() + 2 < u32::MAX,
                1 < info_id <= g.max_id,
                graph_get(g.objects@, info_id) == Some(info_obj),
                1 < xmp_id <= g.max_id,
                graph_get(g.objects@, xmp_id) == Some(xmp_obj),
                icc_id is Some <==> icc_obj is Some,
                icc_id is Some ==> 1 < icc_id->0 <= g.max_id && graph_get(g.objects@, icc_id->0) == icc_obj,
                is_font@.len() == content_ids@.len(),
                content_ids@.len() + contents@.len() == orig.len(),
                contents@ == orig.subrange(content_ids@.len() as int, orig.len() as int),
                forall|c: int|
                    0 <= c < content_ids@.len() ==> {
                        &&& is_font@[c] == (orig[c] is Font)
                        &&& 1 < #[trigger] content_ids@[c] <= g.max_id
                        &&& graph_get(g.objects@, content_ids@[c]) matches Some(o) && content_object_ok(o, orig[c])
                    },
            decreases contents@.len(),
        {
            let ghost k = content_ids@.len() as int;
            let c = contents.remove(0);
            assert(c == orig[k]);
            let f = matches!(c, PdfContent::Font(_));
            let id = g.add_object(compile_content(c));
            is_font.push(f);
            content_ids.push(id);
            assert(contents@ =~= orig.subrange(k + 1, orig.len() as int));
        }

        // Construction: the pages in order, then the page tree.
        let mut kids: Vec<PdfObject> = Vec::new();
        let mut i: usize = 0;
        while i < pages.len()
            invariant
                g.wf(),
                pages_id == 1,
                1 <= g.max_id,
                i <= pages@.len(),
                g.max_id + (pages@.len() - i) + 2 < u32::MAX,
                is_font@.len() == content_ids@.len(),
                1 < info_id <= g.max_id,
                graph_get(g.objects@, info_id) == Some(info_obj),
                1 < xmp_id <= g.max_id,
                graph_get(g.objects@, xmp_id) == Some(xmp_obj),
                icc_id is Some <==> icc_obj is Some,
                icc_id is Some ==> 1 < icc_id->0 <= g.max_id && graph_get(g.objects@, icc_id->0) == icc_obj,
                kids@.len() == i,
                content_ids@.len() == orig.len(),
                forall|c: int|
                    0 <= c < content_ids@.len() ==> {
                        &&& is_font@[c] == (orig[c] is Font)
                        &&& 1 < #[trigger] content_ids@[c] <= g.max_id
                        &&& graph_get(g.objects@, content_ids@[c]) matches Some(o) && content_object_ok(o, orig[c])
                    },
                forall|j: int|
                    0 <= j < i ==> {
                        &&& (#[trigger] kids@[j]) matches PdfObject::Reference(_)
                        &&& 1 < ref_of(Some(kids@[j])) <= g.max_id
                        &&& is_page_object_with_resources(
                            graph_get(g.objects@, ref_of(Some(kids@[j]))),
                            pages@[j],
                            pages_id,
                            is_font@,
                            content_ids@,
                        )
                    },
            decreases pages@.len() - i,
        {
            let obj = page_object(&pages[i], pages_id, &is_font, &content_ids);
            let id = g.add_object(obj);
            kids.push(PdfObject::Reference(id));
            i = i + 1;
        }
        let ghost kids_view = kids@;
        let mut tree: Vec<(PdfKey, PdfObject)> = Vec::new();
        dict_set(&mut tree, PdfKey::Type, name("Pages"));
        dict_set(&mut tree, PdfKey::Count, PdfObject::Integer(pages.len() as i64));
        dict_set(&mut tree, PdfKey::Kids, PdfObject::Array(kids));
        let ghost tree_view = tree@;
        g.set_object(pages_id, PdfObject::Dictionary(tree));

        // Finalization: the catalog and the trailer.
        let mut cat: Vec<(PdfKey, PdfObject)> = Vec::new();
        dict_set(&mut cat, PdfKey::Type, name("Catalog"));
        dict_set(&mut cat, PdfKey::PageLayout, name("OneColumn"));
        dict_set(&mut cat, PdfKey::PageMode, name("UseNone"));
        dict_set(&mut cat, PdfKey::Pages, PdfObject::Reference(pages_id));
        dict_set(&mut cat, PdfKey::Metadata, PdfObject::Reference(xmp_id));
        match icc_id {
            Some(id) => {
                let mut intents: Vec<PdfObject> = Vec::new();
                intents.push(output_intent(id));
                dict_set(&mut cat, PdfKey::OutputIntents, PdfObject::Array(intents));
            },
            None => {},
        }
        let ghost cat_view = cat@;
        let catalog_id = g.add_object(PdfObject::Dictionary(cat));

        let mut ids: Vec<PdfObject> = Vec::new();
        ids.push(PdfObject::Text(document_id));
        ids.push(PdfObject::Text(String::from_str(instance_id)));
        let mut trailer: Vec<(PdfKey, PdfObject)> = Vec::new();
        dict_set(&mut trailer, PdfKey::Root, PdfObject::Reference(catalog_id));
        dict_set(&mut trailer, PdfKey::Info, PdfObject::Reference(info_id));
        dict_set(&mut trailer, PdfKey::ID, PdfObject::Array(ids));
        g.trailer = trailer;

        proof {
            assert(catalog(g) == Some(PdfObject::Dictionary(cat)));
            assert(page_tree(g) == Some(PdfObject::Dictionary(tree)));
            assert forall|j: int| 0 <= j < kids_view.len() implies {
                &&& (#[trigger] kids_view[j]) matches PdfObject::Reference(_)
                &&& is_page_object(graph_get(g.objects@, ref_of(Some(kids_view[j]))), self.pages@[j], 1)
            } by {
                assert(ref_of(Some(kids_view[j])) != catalog_id);
                assert(ref_of(Some(kids_view[j])) != pages_id);
            }
            assert(deref(g, dict_get(g.trailer@, PdfKey::Info)) == Some(info_obj));
            assert(deref(g, dict_get(entries(catalog(g)), PdfKey::Metadata)) == Some(xmp_obj));
            if icc_id is Some {
                assert(graph_get(g.objects@, icc_id->0) == icc_obj);
            }
            assert forall|j: int| 0 <= j < kids_view.len() implies links_content(
                g,
                resources_of(graph_get(g.objects@, ref_of(Some(#[trigger] kids_view[j])))),
                self.pages@[j],
                self.contents@,
            ) by {
                let kid = ref_of(Some(kids_view[j]));
                assert(kid != catalog_id && kid != pages_id);
                let page = self.pages@[j];
                let res = resources_of(graph_get(g.objects@, kid));
                assert(lists_resources(res, page, is_font@, content_ids@));
                assert forall|l: int, k: int|
                    0 <= l < page.layers@.len() && 0 <= k < page.layers@[l].resources@.len()
                        && (#[trigger] page.layers@[l].resources@[k]).0 < orig.len() implies {
                        let c = page.layers@[l].resources@[k].0;
                        let sub = entries(
                            dict_get(entries(Some(res)), if orig[c as int] is Font { PdfKey::Font } else { PdfKey::XObject }),
                        );
                        let e = dict_get(sub, PdfKey::ResourceName(c));
                        &&& e matches Some(PdfObject::Reference(_))
                        &&& graph_get(g.objects@, ref_of(e)) matches Some(o) && content_object_ok(o, orig[c as int])
                    } by {
                    let c = page.layers@[l].resources@[k].0;
                    assert(resource_entry_ok(
                        entries(dict_get(entries(Some(res)), PdfKey::Font)),
                        entries(dict_get(entries(Some(res)), PdfKey::XObject)),
                        is_font@,
                        content_ids@,
                        c,
                    ));
                    assert(content_ids@[c as int] != catalog_id && content_ids@[c as int] != pages_id);
                }
            }
        }
        g
    }

    /// Compiles the document under a fresh random 32-character instance
    /// identifier and encodes it as the bytes of a PDF file. The document is
    /// consumed: a save cannot be repeated.
    pub fn save(self) -> (r: Result<Vec<u8>, Error>)
        requires
            self.pages@.len() + self.contents@.len() + 6 < u32::MAX,
        ensures
            r is Ok,
    {
        let instance_id = random_alphanumeric(32);
        let g = self.compile(instance_id.as_str());
        write_graph(&g)
    }
}

} // verus!
