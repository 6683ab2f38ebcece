//! The document tree: a document owns its pages, a page its layers, a layer
//! its markers. Shared content lives in a registry addressed by handle.

use vstd::prelude::*;
use crate::errors::{Error, IndexError};
use crate::indices::{FontIndex, PdfContentIndex, PdfLayerIndex, PdfMarkerIndex, PdfPageIndex, SvgIndex};
use crate::metadata::{PdfConformance, PdfDateTime, PdfMetadata};
use crate::sources::{is_alphanumeric, local_now, random_alphanumeric};
use crate::object::PdfObject;
use crate::units::{mm_to_pt, um_to_mpt};

verus! {

/// A position on a layer, in millipoints.
#[derive(Debug, Clone, Copy, PartialEq, Eq, Structural)]
pub struct PdfMarker {
    pub x_pt: u64,
    pub y_pt: u64,
}

impl PdfMarker {
    /// A marker at (`x_um`, `y_um`) micrometres.
    pub fn new(x_um: u32, y_um: u32) -> (r: PdfMarker)
        ensures
            r.x_pt == um_to_mpt(x_um as int),
            r.y_pt == um_to_mpt(y_um as int),
    {
        PdfMarker { x_pt: mm_to_pt(x_um), y_pt: mm_to_pt(y_um) }
    }
}

/// A named layer of a page: its markers in order of creation and the content
/// handles used on it.
pub struct PdfLayer {
    pub name: String,
    pub markers: Vec<PdfMarker>,
    pub resources: Vec<PdfContentIndex>,
    pub lines: Vec<PdfLine>,
}

/// A path drawn on a layer: its points in order, each flagged when it is a
/// Bézier control point, and whether the path is stroked and filled.
pub struct PdfLine {
    pub points: Vec<(PdfMarker, bool)>,
    pub stroke: bool,
    pub fill: bool,
}

impl PdfLayer {
    pub fn new(name: String) -> (r: PdfLayer)
        ensures
            r.name@ == name@,
            r.markers@.len() == 0,
            r.resources@.len() == 0,
            r.lines@.len() == 0,
    {
        PdfLayer { name, markers: Vec::new(), resources: Vec::new(), lines: Vec::new() }
    }

    /// Appends a marker at (`x_um`, `y_um`) micrometres; returns its index.
    pub fn add_marker(&mut self, x_um: u32, y_um: u32) -> (r: PdfMarkerIndex)
        ensures
            r.0 == old(self).markers@.len(),
            final(self).markers@ == old(self).markers@.push(
                PdfMarker { x_pt: um_to_mpt(x_um as int) as u64, y_pt: um_to_mpt(y_um as int) as u64 },
            ),
            final(self).name == old(self).name,
            final(self).resources == old(self).resources,
            final(self).lines == old(self).lines,
    {
        self.markers.push(PdfMarker::new(x_um, y_um));
        PdfMarkerIndex(self.markers.len() - 1)
    }

    pub fn get_marker(&self, marker: &PdfMarkerIndex) -> (r: Result<&PdfMarker, Error>)
        ensures
            marker.0 < self.markers@.len() ==> r == Ok::<&PdfMarker, Error>(&self.markers@[marker.0 as int]),
            marker.0 >= self.markers@.len() ==> r == Err::<&PdfMarker, Error>(
                Error::IndexError(IndexError::PdfMarkerIndexError),
            ),
    {
        if marker.0 < self.markers.len() {
            Ok(&self.markers[marker.0])
        } else {
            Err(Error::IndexError(IndexError::PdfMarkerIndexError))
        }
    }

    pub fn get_mut_marker(&mut self, marker: &PdfMarkerIndex) -> (r: Result<&mut PdfMarker, Error>)
        ensures
            marker.0 < old(self).markers@.len() ==> {
                &&& r is Ok
                &&& *r->Ok_0 == old(self).markers@[marker.0 as int]
                &&& final(self).markers@ == old(self).markers@.update(marker.0 as int, *final(r->Ok_0))
                &&& final(self).name == old(self).name
                &&& final(self).resources == old(self).resources
                &&& final(self).lines == old(self).lines
            },
            marker.0 >= old(self).markers@.len() ==> {
                &&& r == Err::<&mut PdfMarker, Error>(Error::IndexError(IndexError::PdfMarkerIndexError))
                &&& *final(self) == *old(self)
            },
    {
        if marker.0 < self.markers.len() {
            Ok(&mut self.markers[marker.0])
        } else {
            Err(Error::IndexError(IndexError::PdfMarkerIndexError))
        }
    }
}

/// A page: its size in millipoints and its layers in order of creation.
pub struct PdfPage {
    pub width_pt: u64,
    pub height_pt: u64,
    pub layers: Vec<PdfLayer>,
}

impl PdfPage {
    /// A page of `width_um` × `height_um` micrometres holding one empty layer.
    pub fn new(width_um: u32, height_um: u32, layer_name: String) -> (r: (PdfPage, PdfLayerIndex))
        ensures
            r.0.width_pt == um_to_mpt(width_um as int),
            r.0.height_pt == um_to_mpt(height_um as int),
            r.0.layers@.len() == 1,
            r.0.layers@[0].name@ == layer_name@,
            r.0.layers@[0].markers@.len() == 0,
            r.0.layers@[0].resources@.len() == 0,
            r.0.layers@[0].lines@.len() == 0,
            r.1.0 == 0,
    {
        let mut layers: Vec<PdfLayer> = Vec::new();
        layers.push(PdfLayer::new(layer_name));
        (PdfPage { width_pt: mm_to_pt(width_um), height_pt: mm_to_pt(height_um), layers }, PdfLayerIndex(0))
    }

    /// Appends an empty layer named `name`; returns its index.
    pub fn add_layer(&mut self, name: String) -> (r: PdfLayerIndex)
        ensures
            r.0 == old(self).layers@.len(),
            final(self).layers@.len() == old(self).layers@.len() + 1,
            final(self).layers@.drop_last() == old(self).layers@,
            final(self).layers@.last().name@ == name@,
            final(self).layers@.last().markers@.len() == 0,
            final(self).layers@.last().resources@.len() == 0,
            final(self).layers@.last().lines@.len() == 0,
            final(self).width_pt == old(self).width_pt,
            final(self).height_pt == old(self).height_pt,
    {
        let ghost before = self.layers@;
        self.layers.push(PdfLayer::new(name));
        assert(self.layers@.drop_last() =~= before);
        PdfLayerIndex(self.layers.len() - 1)
    }

    pub fn get_mut_layer(&mut self, layer: &PdfLayerIndex) -> (r: Result<&mut PdfLayer, Error>)
        ensures
            layer.0 < old(self).layers@.len() ==> {
                &&& r is Ok
                &&& *r->Ok_0 == old(self).layers@[layer.0 as int]
                &&& final(self).layers@ == old(self).layers@.update(layer.0 as int, *final(r->Ok_0))
                &&& final(self).width_pt == old(self).width_pt
                &&& final(self).height_pt == old(self).height_pt
            },
            layer.0 >= old(self).layers@.len() ==> {
                &&& r == Err::<&mut PdfLayer, Error>(Error::IndexError(IndexError::PdfLayerIndexError))
                &&& *final(self) == *old(self)
            },
    {
        if layer.0 < self.layers.len() {
            Ok(&mut self.layers[layer.0])
        } else {
            Err(Error::IndexError(IndexError::PdfLayerIndexError))
        }
    }

    pub fn get_layer(&self, layer: &PdfLayerIndex) -> (r: Result<&PdfLayer, Error>)
        ensures
            layer.0 < self.layers@.len() ==> r == Ok::<&PdfLayer, Error>(&self.layers@[layer.0 as int]),
            layer.0 >= self.layers@.len() ==> r == Err::<&PdfLayer, Error>(
                Error::IndexError(IndexError::PdfLayerIndexError),
            ),
    {
        if layer.0 < self.layers.len() {
            Ok(&self.layers[layer.0])
        } else {
            Err(Error::IndexError(IndexError::PdfLayerIndexError))
        }
    }
}

/// Whether `b` starts with the signature of a TrueType (`00 01 00 00` or
/// `true`) or OpenType (`OTTO`) font program.
pub open spec fn is_font_program(b: Seq<u8>) -> bool {
    b.len() >= 4 && {
        ||| (b[0] == 0 && b[1] == 1 && b[2] == 0 && b[3] == 0)
        ||| (b[0] == 0x74 && b[1] == 0x72 && b[2] == 0x75 && b[3] == 0x65)
        ||| (b[0] == 0x4f && b[1] == 0x54 && b[2] == 0x54 && b[3] == 0x4f)
    }
}

/// Checks the signature of a font program.
pub fn is_font(b: &Vec<u8>) -> (r: bool)
    ensures
        r == is_font_program(b@),
{
    b.len() >= 4 && {
        (b[0] == 0 && b[1] == 1 && b[2] == 0 && b[3] == 0)
            || (b[0] == 0x74 && b[1] == 0x72 && b[2] == 0x75 && b[3] == 0x65)
            || (b[0] == 0x4f && b[1] == 0x54 && b[2] == 0x54 && b[3] == 0x4f)
    }
}

/// A content object held by the document's registry. Pages refer to content
/// by handle only, so one object can serve many pages.
pub enum PdfContent {
    /// A font program (TrueType or OpenType).
    Font(Vec<u8>),
    /// An embedded vector graphic, kept as its source bytes.
    Svg(Vec<u8>),
    /// Any object, embedded as given.
    Raw(PdfObject),
}

/// A whole document: its pages in order, the content registry, the
/// identifier that stays the same for every save, and the metadata.
pub struct PdfDocument {
    pub pages: Vec<PdfPage>,
    pub contents: Vec<PdfContent>,
    pub document_id: String,
    pub metadata: PdfMetadata,
}

impl PdfDocument {
    /// A document titled `title` whose first page measures `width_um` ×
    /// `height_um` micrometres and holds one layer named `layer_name`, with
    /// the given identifier and creation date. Conformance is PDF/X-3:2003,
    /// version 1, not trapped, without an ICC profile.
    pub fn new_with_id(
        document_id: String,
        title: String,
        width_um: u32,
        height_um: u32,
        layer_name: String,
        date: PdfDateTime,
    ) -> (r: (PdfDocument, PdfPageIndex, PdfLayerIndex))
        ensures
            r.0.pages@.len() == 1,
            r.0.pages@[0].width_pt == um_to_mpt(width_um as int),
            r.0.pages@[0].height_pt == um_to_mpt(height_um as int),
            r.0.pages@[0].layers@.len() == 1,
            r.0.pages@[0].layers@[0].name@ == layer_name@,
            r.0.pages@[0].layers@[0].markers@.len() == 0,
            r.0.pages@[0].layers@[0].resources@.len() == 0,
            r.0.pages@[0].layers@[0].lines@.len() == 0,
            r.0.contents@.len() == 0,
            r.0.document_id@ == document_id@,
            r.0.metadata.document_title@ == title@,
            r.0.metadata.creator@ == title@,
            r.0.metadata.producer@ == title@,
            r.0.metadata.document_version == 1,
            !r.0.metadata.trapping,
            r.0.metadata.conformance == PdfConformance::X3_2003_PDF_1_4,
            r.0.metadata.creation_date == date,
            r.0.metadata.modification_date == date,
            r.0.metadata.icc_profile is None,
            r.1.0 == 0,
            r.2.0 == 0,
    {
        let (page, layer) = PdfPage::new(width_um, height_um, layer_name);
        let mut pages: Vec<PdfPage> = Vec::new();
        pages.push(page);
        let creator = title.clone();
        let metadata = PdfMetadata::new(title, creator, 1, false, PdfConformance::X3_2003_PDF_1_4, date);
        (PdfDocument { pages, contents: Vec::new(), document_id, metadata }, PdfPageIndex(0), layer)
    }

    /// As `new_with_id`, with a fresh random 32-character identifier and the
    /// local time now as the creation date.
    pub fn new(title: String, width_um: u32, height_um: u32, layer_name: String) -> (r: (
        PdfDocument,
        PdfPageIndex,
        PdfLayerIndex,
    ))
        ensures
            r.0.pages@.len() == 1,
            r.0.pages@[0].width_pt == um_to_mpt(width_um as int),
            r.0.pages@[0].height_pt == um_to_mpt(height_um as int),
            r.0.pages@[0].layers@.len() == 1,
            r.0.pages@[0].layers@[0].name@ == layer_name@,
            r.0.pages@[0].layers@[0].markers@.len() == 0,
            r.0.contents@.len() == 0,
            r.0.pages@[0].layers@[0].resources@.len() == 0,
            r.0.pages@[0].layers@[0].lines@.len() == 0,
            r.0.document_id@.len() == 32,
            forall|i: int| 0 <= i < 32 ==> is_alphanumeric(#[trigger] r.0.document_id@[i]),
            r.0.metadata.document_title@ == title@,
            r.0.metadata.creator@ == title@,
            r.0.metadata.producer@ == title@,
            r.0.metadata.document_version == 1,
            !r.0.metadata.trapping,
            r.0.metadata.conformance == PdfConformance::X3_2003_PDF_1_4,
            r.0.metadata.creation_date.wf(),
            r.0.metadata.modification_date == r.0.metadata.creation_date,
            r.0.metadata.icc_profile is None,
            r.1.0 == 0,
            r.2.0 == 0,
    {
        let id = random_alphanumeric(32);
        let (y, mo, d, h, mi, s) = local_now();
        let date = PdfDateTime::from_parts(y, mo, d, h, mi, s);
        PdfDocument::new_with_id(id, title, width_um, height_um, layer_name, date)
    }

    /// Whether the document meets its declared conformance level: an
    /// ICC output profile is present wherever the level requires one.
    pub fn check_for_errors(&self) -> (r: Result<(), Error>)
        ensures
            r is Err <==> (!(self.metadata.conformance is A1B_2005_PDF_1_4) && self.metadata.icc_profile is None),
            r is Err ==> r == Err::<(), Error>(Error::ConformanceError),
    {
        if self.metadata.conformance.must_have_icc_profile() && self.metadata.icc_profile.is_none() {
            Err(Error::ConformanceError)
        } else {
            Ok(())
        }
    }

    /// Switches the document to `conformance`. Fails, leaving the level set,
    /// where the level requires an ICC profile that the document lacks: no
    /// profile can be made up.
    pub fn repair_errors(&mut self, conformance: PdfConformance) -> (r: Result<(), Error>)
        ensures
            final(self).pages@ == old(self).pages@,
            final(self).contents@ == old(self).contents@,
            final(self).metadata.conformance == conformance,
            final(self).metadata.icc_profile == old(self).metadata.icc_profile,
            r is Err <==> (!(conformance is A1B_2005_PDF_1_4) && old(self).metadata.icc_profile is None),
            r is Err ==> r == Err::<(), Error>(Error::ConformanceError),
    {
        self.metadata.conformance = conformance;
        self.check_for_errors()
    }

    pub fn with_trapping(self, trapping: bool) -> (r: PdfDocument)
        ensures
            r.pages@ == self.pages@,
            r.contents@ == self.contents@,
            r.document_id == self.document_id,
            r.metadata == (PdfMetadata { trapping, ..self.metadata }),
    {
        let mut d = self;
        d.metadata.trapping = trapping;
        d
    }

    /// Replaces the document identifier, for instance by that of a document
    /// loaded from a file.
    pub fn with_document_id(self, id: String) -> (r: PdfDocument)
        ensures
            r.pages@ == self.pages@,
            r.contents@ == self.contents@,
            r.document_id == id,
            r.metadata == self.metadata,
    {
        let mut d = self;
        d.document_id = id;
        d
    }

    pub fn with_document_version(self, version: u32) -> (r: PdfDocument)
        ensures
            r.pages@ == self.pages@,
            r.contents@ == self.contents@,
            r.document_id == self.document_id,
            r.metadata == (PdfMetadata { document_version: version, ..self.metadata }),
    {
        let mut d = self;
        d.metadata.document_version = version;
        d
    }

    pub fn with_conformance(self, conformance: PdfConformance) -> (r: PdfDocument)
        ensures
            r.pages@ == self.pages@,
            r.contents@ == self.contents@,
            r.document_id == self.document_id,
            r.metadata == (PdfMetadata { conformance, ..self.metadata }),
    {
        let mut d = self;
        d.metadata.conformance = conformance;
        d
    }

    pub fn with_mod_date(self, mod_date: PdfDateTime) -> (r: PdfDocument)
        ensures
            r.pages@ == self.pages@,
            r.contents@ == self.contents@,
            r.document_id == self.document_id,
            r.metadata == (PdfMetadata { modification_date: mod_date, ..self.metadata }),
    {
        let mut d = self;
        d.metadata.modification_date = mod_date;
        d
    }

    /// Sets the ICC output profile, given as the profile's bytes.
    pub fn with_icc_profile(self, profile: Vec<u8>) -> (r: PdfDocument)
        ensures
            r.pages@ == self.pages@,
            r.contents@ == self.contents@,
            r.document_id == self.document_id,
            r.metadata == (PdfMetadata { icc_profile: Some(profile), ..self.metadata }),
    {
        let mut d = self;
        d.metadata.icc_profile = Some(profile);
        d
    }

    /// Changes the title written to the metadata.
    pub fn set_title(&mut self, new_title: String)
        ensures
            final(self).pages@ == old(self).pages@,
            final(self).contents@ == old(self).contents@,
            final(self).document_id == old(self).document_id,
            final(self).metadata == (PdfMetadata { document_title: new_title, ..old(self).metadata }),
    {
        self.metadata.document_title = new_title;
    }

    /// Appends a page of `width_um` × `height_um` micrometres holding one
    /// empty layer named `layer_name`; returns both new indices.
    pub fn add_page(&mut self, width_um: u32, height_um: u32, layer_name: String) -> (r: (
        PdfPageIndex,
        PdfLayerIndex,
    ))
        ensures
            page_added(*old(self), *final(self), width_um, height_um, layer_name@, r),
    {
        let (page, layer) = PdfPage::new(width_um, height_um, layer_name);
        let ghost before = self.pages@;
        self.pages.push(page);
        assert(self.pages@.drop_last() =~= before);
        (PdfPageIndex(self.pages.len() - 1), layer)
    }

    /// Appends an empty layer named `name` to `page`; returns its index.
    pub fn add_layer(&mut self, name: String, page: &PdfPageIndex) -> (r: Result<PdfLayerIndex, Error>)
        ensures
            layer_added(*old(self), *final(self), *page, name@, r),
    {
        let p = self.get_mut_page(page)?;
        Ok(p.add_layer(name))
    }

    /// Appends a marker at (`x_um`, `y_um`) micrometres to a layer; returns
    /// its index.
    pub fn add_marker(&mut self, x_um: u32, y_um: u32, page: &PdfPageIndex, layer: &PdfLayerIndex) -> (r: Result<
        PdfMarkerIndex,
        Error,
    >)
        ensures
            marker_added(*old(self), *final(self), *page, *layer, x_um, y_um, r),
    {
        if page.0 >= self.pages.len() {
            return Err(Error::IndexError(IndexError::PdfPageIndexError));
        }
        if layer.0 >= self.pages[page.0].layers.len() {
            return Err(Error::IndexError(IndexError::PdfLayerIndexError));
        }
        let p = self.get_mut_page(page)?;
        let l = p.get_mut_layer(layer)?;
        Ok(l.add_marker(x_um, y_um))
    }

    /// Registers a content object; returns its handle.
    pub fn add_arbitrary_content(&mut self, content: PdfContent) -> (r: PdfContentIndex)
        ensures
            r.0 == old(self).contents@.len(),
            final(self).contents@ == old(self).contents@.push(content),
            final(self).pages@ == old(self).pages@,
            final(self).document_id == old(self).document_id,
            final(self).metadata == old(self).metadata,
    {
        self.contents.push(content);
        PdfContentIndex(self.contents.len() - 1)
    }

    /// Registers a font program; fails, registering nothing, where `font`
    /// does not carry a TrueType or OpenType signature.
    pub fn add_font(&mut self, font: Vec<u8>) -> (r: Result<FontIndex, Error>)
        ensures
            is_font_program(font@) ==> {
                &&& r == Ok::<FontIndex, Error>(FontIndex(PdfContentIndex(old(self).contents@.len() as usize)))
                &&& final(self).contents@ == old(self).contents@.push(PdfContent::Font(font))
            },
            !is_font_program(font@) ==> {
                &&& r == Err::<FontIndex, Error>(Error::FontParseError)
                &&& final(self).contents@ == old(self).contents@
            },
            final(self).pages@ == old(self).pages@,
            final(self).document_id == old(self).document_id,
            final(self).metadata == old(self).metadata,
    {
        if is_font(&font) {
            Ok(FontIndex(self.add_arbitrary_content(PdfContent::Font(font))))
        } else {
            Err(Error::FontParseError)
        }
    }

    /// Registers an embedded vector graphic; returns its handle.
    pub fn add_svg(&mut self, svg_data: Vec<u8>) -> (r: SvgIndex)
        ensures
            r.0.0 == old(self).contents@.len(),
            final(self).contents@ == old(self).contents@.push(PdfContent::Svg(svg_data)),
            final(self).pages@ == old(self).pages@,
            final(self).document_id == old(self).document_id,
            final(self).metadata == old(self).metadata,
    {
        SvgIndex(self.add_arbitrary_content(PdfContent::Svg(svg_data)))
    }

    /// Records that the layer at `page`/`layer` uses the content `content`:
    /// the page's resources will refer to it. Every level of the path and
    /// the content handle are checked, in that order.
    pub fn use_content(
        &mut self,
        content: PdfContentIndex,
        page: &PdfPageIndex,
        layer: &PdfLayerIndex,
        marker: &PdfMarkerIndex,
    ) -> (r: Result<(), Error>)
        ensures
            r == old(self).spec_use_error(content, *page, *layer, *marker),
            r is Err ==> final(self).pages@ == old(self).pages@,
            r is Ok ==> {
                let p = page.0 as int;
                let l = layer.0 as int;
                let before = old(self).spec_layer(*page, *layer);
                let after = final(self).spec_layer(*page, *layer);
                &&& final(self).pages@.len() == old(self).pages@.len()
                &&& forall|i: int| 0 <= i < old(self).pages@.len() && i != p
                        ==> #[trigger] final(self).pages@[i] == old(self).pages@[i]
                &&& final(self).pages@[p].width_pt == old(self).pages@[p].width_pt
                &&& final(self).pages@[p].height_pt == old(self).pages@[p].height_pt
                &&& final(self).pages@[p].layers@.len() == old(self).pages@[p].layers@.len()
                &&& forall|j: int| 0 <= j < old(self).pages@[p].layers@.len() && j != l
                        ==> #[trigger] final(self).pages@[p].layers@[j] == old(self).pages@[p].layers@[j]
                &&& after.name == before.name
                &&& after.markers == before.markers
                &&& after.lines == before.lines
                &&& after.resources@ == before.resources@.push(content)
            },
            final(self).contents@ == old(self).contents@,
            final(self).document_id == old(self).document_id,
            final(self).metadata == old(self).metadata,
    {
        if page.0 >= self.pages.len() {
            return Err(Error::IndexError(IndexError::PdfPageIndexError));
        }
        if layer.0 >= self.pages[page.0].layers.len() {
            return Err(Error::IndexError(IndexError::PdfLayerIndexError));
        }
        if marker.0 >= self.pages[page.0].layers[layer.0].markers.len() {
            return Err(Error::IndexError(IndexError::PdfMarkerIndexError));
        }
        if content.0 >= self.contents.len() {
            return Err(Error::IndexError(IndexError::PdfContentIndexError));
        }
        let p = self.get_mut_page(page)?;
        let l = p.get_mut_layer(layer)?;
        l.resources.push(content);
        Ok(())
    }

    /// The outcome of using `content` at a marker: the first level of the
    /// path, then the content handle, that does not resolve.
    pub open spec fn spec_use_error(
        &self,
        content: PdfContentIndex,
        page: PdfPageIndex,
        layer: PdfLayerIndex,
        marker: PdfMarkerIndex,
    ) -> Result<(), Error> {
        if page.0 >= self.pages@.len() {
            Err(Error::IndexError(IndexError::PdfPageIndexError))
        } else if layer.0 >= self.pages@[page.0 as int].layers@.len() {
            Err(Error::IndexError(IndexError::PdfLayerIndexError))
        } else if marker.0 >= self.spec_layer(page, layer).markers@.len() {
            Err(Error::IndexError(IndexError::PdfMarkerIndexError))
        } else if content.0 >= self.contents@.len() {
            Err(Error::IndexError(IndexError::PdfContentIndexError))
        } else {
            Ok(())
        }
    }

    /// Places `text` in `font` at a marker. Text layout is not modelled: the
    /// layer records that it uses the font, so that the page refers to it.
    pub fn add_text(
        &mut self,
        text: String,
        font: FontIndex,
        font_size: usize,
        page: &PdfPageIndex,
        layer: &PdfLayerIndex,
        marker: &PdfMarkerIndex,
    ) -> (r: Result<(), Error>)
        ensures
            r == old(self).spec_use_error(font.0, *page, *layer, *marker),
            r is Err ==> final(self).pages@ == old(self).pages@,
            r is Ok ==> final(self).spec_layer(*page, *layer).resources@
                == old(self).spec_layer(*page, *layer).resources@.push(font.0),
            r is Ok ==> final(self).pages@.len() == old(self).pages@.len(),
            final(self).contents@ == old(self).contents@,
            final(self).document_id == old(self).document_id,
            final(self).metadata == old(self).metadata,
    {
        self.use_content(font.0, page, layer, marker)
    }

    /// Places an embedded vector graphic at a marker, scaled to
    /// `width_um` × `height_um`. Placement geometry is not modelled: the
    /// layer records that it uses the graphic.
    pub fn add_svg_at(
        &mut self,
        svg_data_index: &SvgIndex,
        width_um: u32,
        height_um: u32,
        page: &PdfPageIndex,
        layer: &PdfLayerIndex,
        marker: &PdfMarkerIndex,
    ) -> (r: Result<(), Error>)
        ensures
            r == old(self).spec_use_error(svg_data_index.0, *page, *layer, *marker),
            r is Err ==> final(self).pages@ == old(self).pages@,
            r is Ok ==> final(self).spec_layer(*page, *layer).resources@
                == old(self).spec_layer(*page, *layer).resources@.push(svg_data_index.0),
            r is Ok ==> final(self).pages@.len() == old(self).pages@.len(),
            final(self).contents@ == old(self).contents@,
            final(self).document_id == old(self).document_id,
            final(self).metadata == old(self).metadata,
    {
        self.use_content(svg_data_index.0, page, layer, marker)
    }

    pub fn get_layer(&self, page: &PdfPageIndex, layer: &PdfLayerIndex) -> (r: Result<&PdfLayer, Error>)
        ensures
            page.0 >= self.pages@.len() ==> r == Err::<&PdfLayer, Error>(
                Error::IndexError(IndexError::PdfPageIndexError),
            ),
            page.0 < self.pages@.len() && layer.0 >= self.pages@[page.0 as int].layers@.len()
                ==> r == Err::<&PdfLayer, Error>(Error::IndexError(IndexError::PdfLayerIndexError)),
            self.spec_layer_exists(*page, *layer) ==> r == Ok::<&PdfLayer, Error>(
                &self.spec_layer(*page, *layer),
            ),
    {
        self.get_page(page)?.get_layer(layer)
    }

    pub fn get_mut_layer(&mut self, page: &PdfPageIndex, layer: &PdfLayerIndex) -> (r: Result<&mut PdfLayer, Error>)
        ensures
            page.0 >= old(self).pages@.len() ==> r == Err::<&mut PdfLayer, Error>(
                Error::IndexError(IndexError::PdfPageIndexError),
            ),
            page.0 < old(self).pages@.len() && layer.0 >= old(self).pages@[page.0 as int].layers@.len()
                ==> r == Err::<&mut PdfLayer, Error>(Error::IndexError(IndexError::PdfLayerIndexError)),
            !old(self).spec_layer_exists(*page, *layer) ==> final(self).pages@ == old(self).pages@,
            old(self).spec_layer_exists(*page, *layer) ==> {
                let p = page.0 as int;
                let l = layer.0 as int;
                &&& r is Ok
                &&& *r->Ok_0 == old(self).spec_layer(*page, *layer)
                &&& final(self).pages@.len() == old(self).pages@.len()
                &&& forall|i: int| 0 <= i < old(self).pages@.len() && i != p
                        ==> #[trigger] final(self).pages@[i] == old(self).pages@[i]
                &&& final(self).pages@[p].width_pt == old(self).pages@[p].width_pt
                &&& final(self).pages@[p].height_pt == old(self).pages@[p].height_pt
                &&& final(self).pages@[p].layers@ == old(self).pages@[p].layers@.update(l, *final(r->Ok_0))
            },
            final(self).contents@ == old(self).contents@,
            final(self).document_id == old(self).document_id,
            final(self).metadata == old(self).metadata,
    {
        let p = self.get_mut_page(page)?;
        p.get_mut_layer(layer)
    }

    pub fn get_marker(&self, page: &PdfPageIndex, layer: &PdfLayerIndex, marker: &PdfMarkerIndex) -> (r: Result<
        &PdfMarker,
        Error,
    >)
        ensures
            page.0 >= self.pages@.len() ==> r == Err::<&PdfMarker, Error>(
                Error::IndexError(IndexError::PdfPageIndexError),
            ),
            page.0 < self.pages@.len() && layer.0 >= self.pages@[page.0 as int].layers@.len()
                ==> r == Err::<&PdfMarker, Error>(Error::IndexError(IndexError::PdfLayerIndexError)),
            self.spec_layer_exists(*page, *layer) && marker.0 >= self.spec_layer(*page, *layer).markers@.len()
                ==> r == Err::<&PdfMarker, Error>(Error::IndexError(IndexError::PdfMarkerIndexError)),
            self.spec_layer_exists(*page, *layer) && marker.0 < self.spec_layer(*page, *layer).markers@.len()
                ==> r == Ok::<&PdfMarker, Error>(&self.spec_layer(*page, *layer).markers@[marker.0 as int]),
    {
        self.get_page(page)?.get_layer(layer)?.get_marker(marker)
    }

    /// The page at `page`, for inserting content.
    pub fn get_page_mut(&mut self, page: PdfPageIndex) -> (r: Result<&mut PdfPage, Error>)
        ensures
            page.0 < old(self).pages@.len() ==> {
                &&& r is Ok
                &&& *r->Ok_0 == old(self).pages@[page.0 as int]
                &&& final(self).pages@ == old(self).pages@.update(page.0 as int, *final(r->Ok_0))
            },
            page.0 >= old(self).pages@.len() ==> {
                &&& r == Err::<&mut PdfPage, Error>(Error::IndexError(IndexError::PdfPageIndexError))
                &&& final(self).pages@ == old(self).pages@
            },
            final(self).contents@ == old(self).contents@,
            final(self).document_id == old(self).document_id,
            final(self).metadata == old(self).metadata,
    {
        self.get_mut_page(&page)
    }

    /// Draws a path of `points` on the layer at `page`/`layer`. The path is
    /// recorded on the layer; drawing geometry is not modelled.
    pub fn add_line(
        &mut self,
        points: Vec<(PdfMarker, bool)>,
        stroke: bool,
        fill: bool,
        page: &PdfPageIndex,
        layer: &PdfLayerIndex,
    ) -> (r: Result<(), Error>)
        ensures
            page.0 >= old(self).pages@.len() ==> r == Err::<(), Error>(
                Error::IndexError(IndexError::PdfPageIndexError),
            ),
            page.0 < old(self).pages@.len() && layer.0 >= old(self).pages@[page.0 as int].layers@.len()
                ==> r == Err::<(), Error>(Error::IndexError(IndexError::PdfLayerIndexError)),
            old(self).spec_layer_exists(*page, *layer) ==> r is Ok,
            r is Err ==> final(self).pages@ == old(self).pages@,
            r is Ok ==> {
                let p = page.0 as int;
                let l = layer.0 as int;
                let before = old(self).spec_layer(*page, *layer);
                let after = final(self).spec_layer(*page, *layer);
                &&& final(self).pages@.len() == old(self).pages@.len()
                &&& forall|i: int| 0 <= i < old(self).pages@.len() && i != p
                        ==> #[trigger] final(self).pages@[i] == old(self).pages@[i]
                &&& final(self).pages@[p].width_pt == old(self).pages@[p].width_pt
                &&& final(self).pages@[p].height_pt == old(self).pages@[p].height_pt
                &&& final(self).pages@[p].layers@.len() == old(self).pages@[p].layers@.len()
                &&& forall|j: int| 0 <= j < old(self).pages@[p].layers@.len() && j != l
                        ==> #[trigger] final(self).pages@[p].layers@[j] == old(self).pages@[p].layers@[j]
                &&& after.name == before.name
                &&& after.markers == before.markers
                &&& after.resources == before.resources
                &&& after.lines@ == before.lines@.push(PdfLine { points, stroke, fill })
            },
            final(self).contents@ == old(self).contents@,
            final(self).document_id == old(self).document_id,
            final(self).metadata == old(self).metadata,
    {
        if page.0 >= self.pages.len() {
            return Err(Error::IndexError(IndexError::PdfPageIndexError));
        }
        if layer.0 >= self.pages[page.0].layers.len() {
            return Err(Error::IndexError(IndexError::PdfLayerIndexError));
        }
        let p = self.get_mut_page(page)?;
        let l = p.get_mut_layer(layer)?;
        l.lines.push(PdfLine { points, stroke, fill });
        Ok(())
    }

    pub fn get_mut_marker(&mut self, page: &PdfPageIndex, layer: &PdfLayerIndex, marker: &PdfMarkerIndex) -> (r: Result<
        &mut PdfMarker,
        Error,
    >)
        ensures
            page.0 >= old(self).pages@.len() ==> r == Err::<&mut PdfMarker, Error>(
                Error::IndexError(IndexError::PdfPageIndexError),
            ),
            page.0 < old(self).pages@.len() && layer.0 >= old(self).pages@[page.0 as int].layers@.len()
                ==> r == Err::<&mut PdfMarker, Error>(Error::IndexError(IndexError::PdfLayerIndexError)),
            old(self).spec_layer_exists(*page, *layer) && marker.0 >= old(self).spec_layer(*page, *layer).markers@.len()
                ==> r == Err::<&mut PdfMarker, Error>(Error::IndexError(IndexError::PdfMarkerIndexError)),
            old(self).spec_layer_exists(*page, *layer) && marker.0 < old(self).spec_layer(*page, *layer).markers@.len()
                ==> r is Ok,
            r is Err ==> final(self).pages@ == old(self).pages@,
            r is Ok ==> {
                let p = page.0 as int;
                let l = layer.0 as int;
                let old_layer = old(self).spec_layer(*page, *layer);
                let new_layer = final(self).spec_layer(*page, *layer);
                &&& old(self).spec_layer_exists(*page, *layer)
                &&& marker.0 < old_layer.markers@.len()
                &&& *r->Ok_0 == old_layer.markers@[marker.0 as int]
                &&& final(self).pages@.len() == old(self).pages@.len()
                &&& forall|i: int| 0 <= i < old(self).pages@.len() && i != p
                        ==> #[trigger] final(self).pages@[i] == old(self).pages@[i]
                &&& final(self).pages@[p].width_pt == old(self).pages@[p].width_pt
                &&& final(self).pages@[p].height_pt == old(self).pages@[p].height_pt
                &&& final(self).pages@[p].layers@.len() == old(self).pages@[p].layers@.len()
                &&& forall|j: int| 0 <= j < old(self).pages@[p].layers@.len() && j != l
                        ==> #[trigger] final(self).pages@[p].layers@[j] == old(self).pages@[p].layers@[j]
                &&& new_layer.name == old_layer.name
                &&& new_layer.resources == old_layer.resources
                &&& new_layer.lines == old_layer.lines
                &&& new_layer.markers@ == old_layer.markers@.update(marker.0 as int, *final(r->Ok_0))
            },
            final(self).contents@ == old(self).contents@,
            final(self).document_id == old(self).document_id,
            final(self).metadata == old(self).metadata,
    {
        if page.0 >= self.pages.len() {
            return Err(Error::IndexError(IndexError::PdfPageIndexError));
        }
        if layer.0 >= self.pages[page.0].layers.len() {
            return Err(Error::IndexError(IndexError::PdfLayerIndexError));
        }
        if marker.0 >= self.pages[page.0].layers[layer.0].markers.len() {
            return Err(Error::IndexError(IndexError::PdfMarkerIndexError));
        }
        let p = self.get_mut_page(page)?;
        let l = p.get_mut_layer(layer)?;
        l.get_mut_marker(marker)
    }

    /// Whether `page` and `layer` address a layer of this document.
    pub open spec fn spec_layer_exists(&self, page: PdfPageIndex, layer: PdfLayerIndex) -> bool {
        page.0 < self.pages@.len() && layer.0 < self.pages@[page.0 as int].layers@.len()
    }

    /// The layer that `page` and `layer` address.
    pub open spec fn spec_layer(&self, page: PdfPageIndex, layer: PdfLayerIndex) -> PdfLayer {
        self.pages@[page.0 as int].layers@[layer.0 as int]
    }

    pub fn get_page(&self, page: &PdfPageIndex) -> (r: Result<&PdfPage, Error>)
        ensures
            page.0 < self.pages@.len() ==> r == Ok::<&PdfPage, Error>(&self.pages@[page.0 as int]),
            page.0 >= self.pages@.len() ==> r == Err::<&PdfPage, Error>(
                Error::IndexError(IndexError::PdfPageIndexError),
            ),
    {
        if page.0 < self.pages.len() {
            Ok(&self.pages[page.0])
        } else {
            Err(Error::IndexError(IndexError::PdfPageIndexError))
        }
    }

    pub fn get_mut_page(&mut self, page: &PdfPageIndex) -> (r: Result<&mut PdfPage, Error>)
        ensures
            page.0 < old(self).pages@.len() ==> {
                &&& r is Ok
                &&& *r->Ok_0 == old(self).pages@[page.0 as int]
                &&& final(self).pages@ == old(self).pages@.update(page.0 as int, *final(r->Ok_0))
            },
            page.0 >= old(self).pages@.len() ==> {
                &&& r == Err::<&mut PdfPage, Error>(Error::IndexError(IndexError::PdfPageIndexError))
                &&& final(self).pages@ == old(self).pages@
            },
            final(self).contents@ == old(self).contents@,
            final(self).document_id == old(self).document_id,
            final(self).metadata == old(self).metadata,
    {
        if page.0 < self.pages.len() {
            Ok(&mut self.pages[page.0])
        } else {
            Err(Error::IndexError(IndexError::PdfPageIndexError))
        }
    }
}


/// `after` is `before` with a page of `width_um` × `height_um` micrometres
/// appended, holding one empty layer named `layer_name`; `r` indexes both.
pub open spec fn page_added(
    before: PdfDocument,
    after: PdfDocument,
    width_um: u32,
    height_um: u32,
    layer_name: Seq<char>,
    r: (PdfPageIndex, PdfLayerIndex),
) -> bool {
    &&& r.0.0 == before.pages@.len()
    &&& r.1.0 == 0
    &&& after.pages@.len() == before.pages@.len() + 1
    &&& after.pages@.drop_last() == before.pages@
    &&& after.pages@.last().width_pt == um_to_mpt(width_um as int)
    &&& after.pages@.last().height_pt == um_to_mpt(height_um as int)
    &&& after.pages@.last().layers@.len() == 1
    &&& after.pages@.last().layers@[0].name@ == layer_name
    &&& after.pages@.last().layers@[0].markers@.len() == 0
    &&& after.pages@.last().layers@[0].resources@.len() == 0
    &&& after.pages@.last().layers@[0].lines@.len() == 0
    &&& after.contents@ == before.contents@
    &&& after.document_id == before.document_id
    &&& after.metadata == before.metadata
}

/// `after` is `before` with an empty layer named `name` appended to `page`,
/// indexed by `r`; or, where `page` does not exist, `before` unchanged and a
/// page index error.
pub open spec fn layer_added(
    before: PdfDocument,
    after: PdfDocument,
    page: PdfPageIndex,
    name: Seq<char>,
    r: Result<PdfLayerIndex, Error>,
) -> bool {
    &&& page.0 >= before.pages@.len() ==> {
        &&& r == Err::<PdfLayerIndex, Error>(Error::IndexError(IndexError::PdfPageIndexError))
        &&& after.pages@ == before.pages@
    }
    &&& page.0 < before.pages@.len() ==> {
        let p = page.0 as int;
        let old_page = before.pages@[p];
        let new_page = after.pages@[p];
        &&& r == Ok::<PdfLayerIndex, Error>(PdfLayerIndex(old_page.layers@.len() as usize))
        &&& after.pages@.len() == before.pages@.len()
        &&& forall|i: int| 0 <= i < before.pages@.len() && i != p
                ==> #[trigger] after.pages@[i] == before.pages@[i]
        &&& new_page.width_pt == old_page.width_pt
        &&& new_page.height_pt == old_page.height_pt
        &&& new_page.layers@.drop_last() == old_page.layers@
        &&& new_page.layers@.len() == old_page.layers@.len() + 1
        &&& new_page.layers@.last().name@ == name
        &&& new_page.layers@.last().markers@.len() == 0
        &&& new_page.layers@.last().resources@.len() == 0
        &&& new_page.layers@.last().lines@.len() == 0
    }
    &&& after.contents@ == before.contents@
    &&& after.document_id == before.document_id
    &&& after.metadata == before.metadata
}

/// `after` is `before` with a marker at (`x_um`, `y_um`) micrometres
/// appended to the layer at `page`/`layer`, indexed by `r`; or, where that
/// path does not resolve, `before` unchanged and the error of the first
/// level that fails.
pub open spec fn marker_added(
    before: PdfDocument,
    after: PdfDocument,
    page: PdfPageIndex,
    layer: PdfLayerIndex,
    x_um: u32,
    y_um: u32,
    r: Result<PdfMarkerIndex, Error>,
) -> bool {
    &&& !before.spec_layer_exists(page, layer) ==> after.pages@ == before.pages@
    &&& page.0 >= before.pages@.len() ==> r == Err::<PdfMarkerIndex, Error>(
        Error::IndexError(IndexError::PdfPageIndexError),
    )
    &&& page.0 < before.pages@.len() && layer.0 >= before.pages@[page.0 as int].layers@.len()
        ==> r == Err::<PdfMarkerIndex, Error>(Error::IndexError(IndexError::PdfLayerIndexError))
    &&& before.spec_layer_exists(page, layer) ==> {
        let p = page.0 as int;
        let l = layer.0 as int;
        let old_layer = before.spec_layer(page, layer);
        let new_layer = after.spec_layer(page, layer);
        &&& r == Ok::<PdfMarkerIndex, Error>(PdfMarkerIndex(old_layer.markers@.len() as usize))
        &&& after.pages@.len() == before.pages@.len()
        &&& forall|i: int| 0 <= i < before.pages@.len() && i != p
                ==> #[trigger] after.pages@[i] == before.pages@[i]
        &&& after.pages@[p].width_pt == before.pages@[p].width_pt
        &&& after.pages@[p].height_pt == before.pages@[p].height_pt
        &&& after.pages@[p].layers@.len() == before.pages@[p].layers@.len()
        &&& forall|j: int| 0 <= j < before.pages@[p].layers@.len() && j != l
                ==> #[trigger] after.pages@[p].layers@[j] == before.pages@[p].layers@[j]
        &&& new_layer.name == old_layer.name
        &&& new_layer.resources == old_layer.resources
        &&& new_layer.lines == old_layer.lines
        &&& new_layer.markers@ == old_layer.markers@.push(
            PdfMarker { x_pt: um_to_mpt(x_um as int) as u64, y_pt: um_to_mpt(y_um as int) as u64 },
        )
    }
    &&& after.contents@ == before.contents@
    &&& after.document_id == before.document_id
    &&& after.metadata == before.metadata
}

/// A layer added to a freshly added page is found under the returned
/// indices, with the given name and no markers.
pub proof fn lemma_added_layer_is_found(
    d0: PdfDocument,
    d1: PdfDocument,
    d2: PdfDocument,
    width_um: u32,
    height_um: u32,
    page_layer_name: Seq<char>,
    name: Seq<char>,
    added: (PdfPageIndex, PdfLayerIndex),
    r: Result<PdfLayerIndex, Error>,
)
    requires
        page_added(d0, d1, width_um, height_um, page_layer_name, added),
        layer_added(d1, d2, added.0, name, r),
    ensures
        r is Ok,
        d2.spec_layer_exists(added.0, r->Ok_0),
        d2.spec_layer(added.0, r->Ok_0).name@ == name,
        d2.spec_layer(added.0, r->Ok_0).markers@.len() == 0,
{
}

/// After `xs.len()` markers are added to one layer, the layer holds that
/// many more markers, the new ones in order and converted to millipoints.
pub proof fn lemma_markers_accumulate(
    docs: Seq<PdfDocument>,
    page: PdfPageIndex,
    layer: PdfLayerIndex,
    xs: Seq<u32>,
    ys: Seq<u32>,
    rs: Seq<Result<PdfMarkerIndex, Error>>,
)
    requires
        docs.len() == xs.len() + 1,
        ys.len() == xs.len(),
        rs.len() == xs.len(),
        docs[0].spec_layer_exists(page, layer),
        forall|i: int|
            0 <= i < xs.len() ==> marker_added(#[trigger] docs[i], docs[i + 1], page, layer, xs[i], ys[i], rs[i]),
    ensures
        ({
            let first = docs[0].spec_layer(page, layer).markers@;
            let last = docs.last().spec_layer(page, layer).markers@;
            &&& docs.last().spec_layer_exists(page, layer)
            &&& last.len() == first.len() + xs.len()
            &&& last.subrange(0, first.len() as int) == first
            &&& forall|i: int|
                0 <= i < xs.len() ==> #[trigger] last[first.len() + i] == (PdfMarker {
                    x_pt: um_to_mpt(xs[i] as int) as u64,
                    y_pt: um_to_mpt(ys[i] as int) as u64,
                })
        }),
    decreases xs.len(),
{
    if xs.len() > 0 {
        let n = (xs.len() - 1) as int;
        let prefix = docs.drop_last();
        assert forall|i: int| 0 <= i < n implies marker_added(
            #[trigger] prefix[i],
            prefix[i + 1],
            page,
            layer,
            xs.drop_last()[i],
            ys.drop_last()[i],
            rs.drop_last()[i],
        ) by {
            assert(marker_added(docs[i], docs[i + 1], page, layer, xs[i], ys[i], rs[i]));
        }
        lemma_markers_accumulate(prefix, page, layer, xs.drop_last(), ys.drop_last(), rs.drop_last());
        assert(marker_added(docs[n], docs[n + 1], page, layer, xs[n], ys[n], rs[n]));
        let first = docs[0].spec_layer(page, layer).markers@;
        let mid = docs[n].spec_layer(page, layer).markers@;
        let last = docs.last().spec_layer(page, layer).markers@;
        assert(docs[n] == prefix.last());
        assert(last == mid.push(PdfMarker { x_pt: um_to_mpt(xs[n] as int) as u64, y_pt: um_to_mpt(ys[n] as int) as u64 }));
        assert(last.subrange(0, first.len() as int) =~= first) by {
            assert(mid.subrange(0, first.len() as int) == first);
        }
        assert forall|i: int| 0 <= i < xs.len() implies #[trigger] last[first.len() + i] == (PdfMarker {
            x_pt: um_to_mpt(xs[i] as int) as u64,
            y_pt: um_to_mpt(ys[i] as int) as u64,
        }) by {
            if i < n {
                assert(xs.drop_last()[i] == xs[i]);
                assert(ys.drop_last()[i] == ys[i]);
                assert(last[first.len() + i] == mid[first.len() + i]);
            }
        }
    }
}

/// The marker at `page`/`layer`/`marker` of `d`, where it exists.
pub open spec fn marker_at(d: PdfDocument, page: PdfPageIndex, layer: PdfLayerIndex, marker: PdfMarkerIndex) -> Option<
    PdfMarker,
> {
    if d.spec_layer_exists(page, layer) && marker.0 < d.spec_layer(page, layer).markers@.len() {
        Some(d.spec_layer(page, layer).markers@[marker.0 as int])
    } else {
        None
    }
}

/// Adding a page leaves every existing marker where it was, unchanged.
pub proof fn lemma_marker_kept_by_add_page(
    d1: PdfDocument,
    d2: PdfDocument,
    width_um: u32,
    height_um: u32,
    layer_name: Seq<char>,
    r: (PdfPageIndex, PdfLayerIndex),
    page: PdfPageIndex,
    layer: PdfLayerIndex,
    marker: PdfMarkerIndex,
)
    requires
        page_added(d1, d2, width_um, height_um, layer_name, r),
        marker_at(d1, page, layer, marker) is Some,
    ensures
        marker_at(d2, page, layer, marker) == marker_at(d1, page, layer, marker),
{
    assert(d2.pages@[page.0 as int] == d2.pages@.drop_last()[page.0 as int]);
}

/// Adding a layer leaves every existing marker where it was, unchanged.
pub proof fn lemma_marker_kept_by_add_layer(
    d1: PdfDocument,
    d2: PdfDocument,
    to_page: PdfPageIndex,
    name: Seq<char>,
    r: Result<PdfLayerIndex, Error>,
    page: PdfPageIndex,
    layer: PdfLayerIndex,
    marker: PdfMarkerIndex,
)
    requires
        layer_added(d1, d2, to_page, name, r),
        marker_at(d1, page, layer, marker) is Some,
    ensures
        marker_at(d2, page, layer, marker) == marker_at(d1, page, layer, marker),
{
    if to_page.0 < d1.pages@.len() && page == to_page {
        let p = page.0 as int;
        assert(d2.pages@[p].layers@[layer.0 as int] == d2.pages@[p].layers@.drop_last()[layer.0 as int]);
    }
}

/// Adding a marker leaves every existing marker where it was, unchanged.
pub proof fn lemma_marker_kept_by_add_marker(
    d1: PdfDocument,
    d2: PdfDocument,
    to_page: PdfPageIndex,
    to_layer: PdfLayerIndex,
    x_um: u32,
    y_um: u32,
    r: Result<PdfMarkerIndex, Error>,
    page: PdfPageIndex,
    layer: PdfLayerIndex,
    marker: PdfMarkerIndex,
)
    requires
        marker_added(d1, d2, to_page, to_layer, x_um, y_um, r),
        marker_at(d1, page, layer, marker) is Some,
    ensures
        marker_at(d2, page, layer, marker) == marker_at(d1, page, layer, marker),
{
    if d1.spec_layer_exists(to_page, to_layer) && page == to_page && layer != to_layer {
        assert(d2.pages@[page.0 as int].layers@[layer.0 as int] == d1.pages@[page.0 as int].layers@[layer.0 as int]);
    }
}

} // verus!
