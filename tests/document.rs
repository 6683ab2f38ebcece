use printpdf::compile::OUTPUT_CONDITION_IDENTIFIER;
use printpdf::document::{PdfContent, PdfDocument};
use printpdf::errors::{Error, IndexError};
use printpdf::indices::{PdfContentIndex, PdfLayerIndex, PdfMarkerIndex, PdfPageIndex};
use printpdf::metadata::{PdfConformance, PdfDateTime};
use printpdf::object::PdfObject;
use printpdf::units::{mm_to_pt, to_whole_points};

fn date() -> PdfDateTime {
    PdfDateTime::from_parts(2017, 6, 4, 13, 5, 9)
}

fn doc(title: &str) -> (PdfDocument, PdfPageIndex, PdfLayerIndex) {
    PdfDocument::new_with_id(
        "0123456789abcdefghijABCDEFGHIJ01".to_string(),
        title.to_string(),
        210000,
        297000,
        "Layer 1".to_string(),
        date(),
    )
}

fn load(bytes: &[u8]) -> lopdf::Document {
    lopdf::Document::load_mem(bytes).expect("output parses as PDF")
}

#[test]
fn unit_conversion_exact_values() {
    assert_eq!(mm_to_pt(25400), 72000);
    assert_eq!(mm_to_pt(210000), 595276);
    assert_eq!(mm_to_pt(297000), 841890);
    assert_eq!(mm_to_pt(0), 0);
    assert_eq!(to_whole_points(595276), 595);
    assert_eq!(to_whole_points(841890), 842);
    assert_eq!(to_whole_points(72000), 72);
}

#[test]
fn new_document_has_one_page_and_layer() {
    let (d, p, l) = doc("Test");
    assert_eq!(p, PdfPageIndex(0));
    assert_eq!(l, PdfLayerIndex(0));
    assert_eq!(d.pages.len(), 1);
    assert_eq!(d.pages[0].width_pt, 595276);
    assert_eq!(d.pages[0].height_pt, 841890);
    let layer = d.get_layer(&p, &l).unwrap();
    assert_eq!(layer.name, "Layer 1");
    assert!(layer.markers.is_empty());
}

#[test]
fn add_page_then_layer_then_get_layer() {
    let (mut d, _, _) = doc("Test");
    let (p, l0) = d.add_page(100000, 50000, "First".to_string());
    assert_eq!(p, PdfPageIndex(1));
    assert_eq!(l0, PdfLayerIndex(0));
    let l = d.add_layer("Second".to_string(), &p).unwrap();
    assert_eq!(l, PdfLayerIndex(1));
    let layer = d.get_layer(&p, &l).unwrap();
    assert_eq!(layer.name, "Second");
    assert_eq!(layer.markers.len(), 0);
}

#[test]
fn duplicate_layer_names_are_kept_apart() {
    let (mut d, p, _) = doc("Test");
    let a = d.add_layer("Same".to_string(), &p).unwrap();
    let b = d.add_layer("Same".to_string(), &p).unwrap();
    assert_ne!(a, b);
    d.add_marker(1000, 1000, &p, &a).unwrap();
    assert_eq!(d.get_layer(&p, &a).unwrap().markers.len(), 1);
    assert_eq!(d.get_layer(&p, &b).unwrap().markers.len(), 0);
}

#[test]
fn markers_are_counted_and_converted() {
    let (mut d, p, l) = doc("Test");
    for n in 0..5u32 {
        let m = d.add_marker(25400 * n, 1000, &p, &l).unwrap();
        assert_eq!(m, PdfMarkerIndex(n as usize));
    }
    let layer = d.get_layer(&p, &l).unwrap();
    assert_eq!(layer.markers.len(), 5);
    for n in 0..5usize {
        assert_eq!(layer.markers[n].x_pt, 72000 * n as u64);
        assert_eq!(layer.markers[n].y_pt, 2835);
    }
    let m = d.get_marker(&p, &l, &PdfMarkerIndex(1)).unwrap();
    assert_eq!(m.x_pt, 72000);
}

#[test]
fn missing_page_gives_page_index_error() {
    let (mut d, p, l) = doc("Test");
    let past = PdfPageIndex(1);
    assert_eq!(d.get_page(&past).err(), Some(Error::IndexError(IndexError::PdfPageIndexError)));
    assert_eq!(d.get_layer(&past, &l).err(), Some(Error::IndexError(IndexError::PdfPageIndexError)));
    assert_eq!(
        d.get_marker(&past, &l, &PdfMarkerIndex(0)).err(),
        Some(Error::IndexError(IndexError::PdfPageIndexError))
    );
    assert_eq!(d.add_layer("x".to_string(), &past), Err(Error::IndexError(IndexError::PdfPageIndexError)));
    assert_eq!(d.add_marker(0, 0, &past, &l), Err(Error::IndexError(IndexError::PdfPageIndexError)));
    assert_eq!(d.pages.len(), 1);
    assert_eq!(d.pages[0].layers.len(), 1);
    assert!(d.get_page(&p).is_ok());
}

#[test]
fn missing_layer_and_marker_give_their_own_errors() {
    let (mut d, p, l) = doc("Test");
    let bad_layer = PdfLayerIndex(7);
    assert_eq!(d.get_layer(&p, &bad_layer).err(), Some(Error::IndexError(IndexError::PdfLayerIndexError)));
    assert_eq!(d.add_marker(0, 0, &p, &bad_layer), Err(Error::IndexError(IndexError::PdfLayerIndexError)));
    assert_eq!(
        d.get_marker(&p, &l, &PdfMarkerIndex(0)).err(),
        Some(Error::IndexError(IndexError::PdfMarkerIndexError))
    );
}

#[test]
fn get_layer_one_past_last_page_changes_nothing() {
    let (mut d, _, l) = doc("Test");
    d.add_page(100000, 100000, "Two".to_string());
    let past = PdfPageIndex(d.pages.len());
    assert_eq!(d.get_layer(&past, &l).err(), Some(Error::IndexError(IndexError::PdfPageIndexError)));
    assert_eq!(d.pages.len(), 2);
    assert_eq!(d.pages[1].layers[0].name, "Two");
}

#[test]
fn font_signatures() {
    let (mut d, p, l) = doc("Test");
    assert_eq!(d.add_font(vec![1, 2, 3, 4, 5]), Err(Error::FontParseError));
    assert_eq!(d.add_font(vec![0, 1]), Err(Error::FontParseError));
    assert_eq!(d.contents.len(), 0);
    let f = d.add_font(vec![0, 1, 0, 0, 9, 9]).unwrap();
    assert_eq!(f.0, PdfContentIndex(0));
    let g = d.add_font(b"OTTO....".to_vec()).unwrap();
    assert_eq!(g.0, PdfContentIndex(1));
    let m = d.add_marker(0, 0, &p, &l).unwrap();
    assert_eq!(d.add_text("hi".to_string(), f, 12, &p, &l, &m), Ok(()));
    assert_eq!(d.pages[0].layers[0].resources, vec![PdfContentIndex(0)]);
}

#[test]
fn unknown_content_gives_content_index_error() {
    let (mut d, p, l) = doc("Test");
    let m = d.add_marker(0, 0, &p, &l).unwrap();
    let svg = d.add_svg(b"<svg/>".to_vec());
    let bogus = printpdf::indices::SvgIndex(PdfContentIndex(5));
    assert_eq!(
        d.add_svg_at(&bogus, 1000, 1000, &p, &l, &m),
        Err(Error::IndexError(IndexError::PdfContentIndexError))
    );
    assert_eq!(
        d.add_svg_at(&svg, 1000, 1000, &p, &l, &PdfMarkerIndex(3)),
        Err(Error::IndexError(IndexError::PdfMarkerIndexError))
    );
    assert_eq!(d.add_svg_at(&svg, 1000, 1000, &p, &l, &m), Ok(()));
    let raw = d.add_arbitrary_content(PdfContent::Raw(PdfObject::Integer(3)));
    assert_eq!(raw, PdfContentIndex(1));
}

#[test]
fn conformance_check_wants_a_profile() {
    let (d, _, _) = doc("Test");
    assert_eq!(d.check_for_errors(), Err(Error::ConformanceError));
    let mut d = d.with_icc_profile(vec![1, 2, 3]);
    assert_eq!(d.check_for_errors(), Ok(()));
    let (mut e, _, _) = doc("Test");
    assert_eq!(e.repair_errors(PdfConformance::A1B_2005_PDF_1_4), Ok(()));
    assert_eq!(e.repair_errors(PdfConformance::X4_2010_PDF_1_6), Err(Error::ConformanceError));
    assert_eq!(d.repair_errors(PdfConformance::X4_2010_PDF_1_6), Ok(()));
}

#[test]
fn builders_set_metadata() {
    let (d, _, _) = doc("Test");
    let later = PdfDateTime::from_parts(2020, 1, 2, 3, 4, 5);
    let mut d = d
        .with_trapping(true)
        .with_document_version(7)
        .with_conformance(PdfConformance::X4_2010_PDF_1_6)
        .with_mod_date(later)
        .with_document_id("other".to_string());
    d.set_title("Renamed".to_string());
    assert!(d.metadata.trapping);
    assert_eq!(d.metadata.document_version, 7);
    assert_eq!(d.metadata.conformance, PdfConformance::X4_2010_PDF_1_6);
    assert_eq!(d.metadata.modification_date, later);
    assert_eq!(d.metadata.creation_date, date());
    assert_eq!(d.document_id, "other");
    assert_eq!(d.metadata.document_title, "Renamed");
}

#[test]
fn random_document_ids() {
    let (a, _, _) = PdfDocument::new("A".to_string(), 210000, 297000, "L".to_string());
    let (b, _, _) = PdfDocument::new("A".to_string(), 210000, 297000, "L".to_string());
    assert_eq!(a.document_id.len(), 32);
    assert!(a.document_id.chars().all(|c| c.is_ascii_alphanumeric()));
    assert_ne!(a.document_id, b.document_id);
    let da = load(&a.save().unwrap());
    let db = load(&b.save().unwrap());
    let ida = da.trailer.get(b"ID").unwrap().as_array().unwrap();
    let idb = db.trailer.get(b"ID").unwrap().as_array().unwrap();
    assert_ne!(ida[0], idb[0]);
    assert_ne!(ida[1], idb[1]);
}

#[test]
fn document_id_is_kept_in_the_trailer() {
    let (d, _, _) = doc("Test");
    let out = load(&d.save().unwrap());
    let id = out.trailer.get(b"ID").unwrap().as_array().unwrap();
    assert_eq!(id.len(), 2);
    assert_eq!(id[0].as_str().unwrap(), b"0123456789abcdefghijABCDEFGHIJ01");
    assert_eq!(id[1].as_str().unwrap().len(), 32);
    let (e, _, _) = doc("Test");
    let out2 = load(&e.save().unwrap());
    let id2 = out2.trailer.get(b"ID").unwrap().as_array().unwrap();
    assert_eq!(id2[0], id[0]);
    assert_ne!(id2[1], id[1]);
}

#[test]
fn page_tree_lists_pages_in_order() {
    let (mut d, _, _) = doc("Test");
    d.add_page(100000, 200000, "b".to_string());
    d.add_page(25400, 25400, "c".to_string());
    let out = load(&d.save().unwrap());
    let catalog = out.catalog().unwrap();
    let tree_id = catalog.get(b"Pages").unwrap().as_reference().unwrap();
    let tree = out.get_object(tree_id).unwrap().as_dict().unwrap();
    assert_eq!(tree.get(b"Count").unwrap().as_i64().unwrap(), 3);
    let kids = tree.get(b"Kids").unwrap().as_array().unwrap();
    assert_eq!(kids.len(), 3);
    let widths: Vec<i64> = kids
        .iter()
        .map(|k| {
            let page = out.get_object(k.as_reference().unwrap()).unwrap().as_dict().unwrap();
            assert_eq!(page.get(b"Parent").unwrap().as_reference().unwrap(), tree_id);
            page.get(b"MediaBox").unwrap().as_array().unwrap()[2].as_i64().unwrap()
        })
        .collect();
    assert_eq!(widths, vec![595, 283, 72]);
}

#[test]
fn invoice_end_to_end() {
    let (d, p, l) = PdfDocument::new_with_id(
        "0123456789abcdefghijABCDEFGHIJ01".to_string(),
        "Invoice".to_string(),
        210000,
        297000,
        "Body".to_string(),
        date(),
    );
    let mut d = d;
    for i in 0..3u32 {
        d.add_marker(10000 * i, 20000, &p, &l).unwrap();
    }
    let d = d.with_icc_profile(vec![7u8; 64]);
    let bytes = d.save().unwrap();
    assert!(bytes.starts_with(b"%PDF-"));
    let out = load(&bytes);
    assert!(out.trailer.get(b"Root").unwrap().as_reference().is_ok());
    let info_id = out.trailer.get(b"Info").unwrap().as_reference().unwrap();
    assert_eq!(out.trailer.get(b"ID").unwrap().as_array().unwrap().len(), 2);
    let info = out.get_object(info_id).unwrap().as_dict().unwrap();
    assert_eq!(info.get(b"Title").unwrap().as_str().unwrap(), b"Invoice");
    assert_eq!(info.get(b"CreationDate").unwrap().as_str().unwrap(), b"D:20170604130509");
    let catalog = out.catalog().unwrap();
    let intents = catalog.get(b"OutputIntents").unwrap().as_array().unwrap();
    assert_eq!(intents.len(), 1);
    let intent = intents[0].as_dict().unwrap();
    assert_eq!(
        intent.get(b"OutputConditionIdentifier").unwrap().as_str().unwrap(),
        OUTPUT_CONDITION_IDENTIFIER.as_bytes()
    );
    assert_eq!(intent.get(b"RegistryName").unwrap().as_str().unwrap(), b"http://www.color.org");
    assert!(intent.get(b"DestinationOutputProfile").unwrap().as_reference().is_ok());
}

#[test]
fn no_profile_no_output_intents() {
    let (d, _, _) = doc("Plain");
    let out = load(&d.save().unwrap());
    assert!(out.catalog().unwrap().get(b"OutputIntents").is_err());
}

#[test]
fn used_font_is_a_page_resource() {
    let (mut d, p, l) = doc("Fonts");
    let f = d.add_font(vec![0, 1, 0, 0, 1, 2, 3]).unwrap();
    let m = d.add_marker(0, 0, &p, &l).unwrap();
    d.add_text("x".to_string(), f, 10, &p, &l, &m).unwrap();
    let out = load(&d.save().unwrap());
    let pages = out.get_pages();
    let page = out.get_object(pages[&1]).unwrap().as_dict().unwrap();
    let res = page.get(b"Resources").unwrap().as_dict().unwrap();
    let fonts = res.get(b"Font").unwrap().as_dict().unwrap();
    let font_id = fonts.get(b"R0").unwrap().as_reference().unwrap();
    let font = out.get_object(font_id).unwrap().as_stream().unwrap();
    assert_eq!(font.content, vec![0, 1, 0, 0, 1, 2, 3]);
}

#[test]
fn pdf_date_encoding() {
    let d = PdfDateTime::from_parts(987, 12, 31, 23, 59, 58);
    assert_eq!(printpdf::metadata::format_pdf_date(&d), b"D:09871231235958".to_vec());
    let clamped = PdfDateTime::from_parts(12345, 1, 1, 0, 0, 0);
    assert_eq!(clamped.year, 9999);
}

#[test]
fn mutable_access_reaches_the_tree() {
    let (mut d, p, l) = doc("Test");
    let m = d.add_marker(1000, 2000, &p, &l).unwrap();
    {
        let marker = d.get_mut_marker(&p, &l, &m).unwrap();
        marker.x_pt = 5;
    }
    assert_eq!(d.get_marker(&p, &l, &m).unwrap().x_pt, 5);
    assert_eq!(
        d.get_mut_marker(&p, &l, &PdfMarkerIndex(9)).err(),
        Some(Error::IndexError(IndexError::PdfMarkerIndexError))
    );
    d.get_mut_layer(&p, &l).unwrap().name = "Renamed".to_string();
    assert_eq!(d.get_layer(&p, &l).unwrap().name, "Renamed");
    d.get_page_mut(p).unwrap().width_pt = 1000;
    assert_eq!(d.get_page_mut(PdfPageIndex(3)).err(), Some(Error::IndexError(IndexError::PdfPageIndexError)));
    assert_eq!(d.get_page(&p).unwrap().width_pt, 1000);
    assert_eq!(
        d.get_mut_page(&PdfPageIndex(4)).err(),
        Some(Error::IndexError(IndexError::PdfPageIndexError))
    );
}

#[test]
fn marker_new_converts_micrometres() {
    let m = printpdf::document::PdfMarker::new(25400, 50800);
    assert_eq!(m.x_pt, 72000);
    assert_eq!(m.y_pt, 144000);
}

#[test]
fn overridden_document_id_is_saved() {
    let (d, _, _) = doc("Test");
    let d = d.with_document_id("fixed-id".to_string());
    let out = load(&d.save().unwrap());
    let id = out.trailer.get(b"ID").unwrap().as_array().unwrap();
    assert_eq!(id[0].as_str().unwrap(), b"fixed-id");
}

#[test]
fn info_dictionary_holds_metadata() {
    let (d, _, _) = doc("Report");
    let d = d.with_trapping(true).with_conformance(PdfConformance::X4_2010_PDF_1_6);
    let out = load(&d.save().unwrap());
    let info_id = out.trailer.get(b"Info").unwrap().as_reference().unwrap();
    let info = out.get_object(info_id).unwrap().as_dict().unwrap();
    assert_eq!(info.get(b"Trapped").unwrap().as_name().unwrap(), b"True");
    assert_eq!(info.get(b"GTS_PDFXVersion").unwrap().as_str().unwrap(), b"PDF/X-4");
    assert_eq!(info.get(b"Creator").unwrap().as_str().unwrap(), b"Report");
    assert_eq!(info.get(b"ModDate").unwrap().as_str().unwrap(), b"D:20170604130509");
}

#[test]
fn xmp_packet_carries_ids_and_dates() {
    let (d, _, _) = doc("Test");
    let xmp = d.metadata.xmp_content("DOC", "INST");
    let text = String::from_utf8(xmp).unwrap();
    assert!(text.contains("<xmp:CreateDate>2017-06-04T13:05:09</xmp:CreateDate>"));
    assert!(text.contains("<xmpMM:DocumentID>uuid:DOC</xmpMM:DocumentID>"));
    assert!(text.contains("<xmpMM:InstanceID>uuid:INST</xmpMM:InstanceID>"));
    assert!(text.contains("<xmpMM:VersionID>1</xmpMM:VersionID>"));
    assert!(text.contains("PDF/X-3:2003"));
    assert!(text.contains("<dc:title>Test</dc:title>"));
}

#[test]
fn lines_are_recorded_on_their_layer() {
    let (mut d, p, l) = doc("Lines");
    let a = printpdf::document::PdfMarker::new(0, 0);
    let b = printpdf::document::PdfMarker::new(25400, 25400);
    assert_eq!(d.add_line(vec![(a, false), (b, false)], true, false, &p, &l), Ok(()));
    assert_eq!(
        d.add_line(vec![(a, false)], true, false, &p, &PdfLayerIndex(2)),
        Err(Error::IndexError(IndexError::PdfLayerIndexError))
    );
    assert_eq!(
        d.add_line(vec![(a, false)], true, false, &PdfPageIndex(2), &l),
        Err(Error::IndexError(IndexError::PdfPageIndexError))
    );
    let layer = d.get_layer(&p, &l).unwrap();
    assert_eq!(layer.lines.len(), 1);
    assert_eq!(layer.lines[0].points.len(), 2);
    assert_eq!(layer.lines[0].points[1].0.x_pt, 72000);
    assert!(layer.lines[0].stroke && !layer.lines[0].fill);
}

#[test]
fn new_title_reaches_the_saved_metadata() {
    let (mut d, _, _) = doc("Old");
    d.set_title("New title".to_string());
    let out = load(&d.save().unwrap());
    let info_id = out.trailer.get(b"Info").unwrap().as_reference().unwrap();
    let info = out.get_object(info_id).unwrap().as_dict().unwrap();
    assert_eq!(info.get(b"Title").unwrap().as_str().unwrap(), b"New title");
    let meta_id = out.catalog().unwrap().get(b"Metadata").unwrap().as_reference().unwrap();
    let meta = out.get_object(meta_id).unwrap().as_stream().unwrap();
    let text = String::from_utf8(meta.content.clone()).unwrap();
    assert!(text.contains("<dc:title>New title</dc:title>"));
}

#[test]
fn marker_survives_later_additions() {
    let (mut d, p, l) = doc("Keep");
    let m = d.add_marker(25400, 50800, &p, &l).unwrap();
    let (p2, _) = d.add_page(100000, 100000, "Other".to_string());
    let l2 = d.add_layer("More".to_string(), &p).unwrap();
    d.add_marker(1000, 1000, &p, &l).unwrap();
    d.add_marker(1000, 1000, &p2, &PdfLayerIndex(0)).unwrap();
    d.add_marker(1000, 1000, &p, &l2).unwrap();
    let kept = d.get_marker(&p, &l, &m).unwrap();
    assert_eq!(kept.x_pt, 72000);
    assert_eq!(kept.y_pt, 144000);
}

#[test]
fn declared_version_allows_a_cross_reference_stream() {
    let (d, _, _) = doc("Version");
    let bytes = d.save().unwrap();
    assert!(bytes.starts_with(b"%PDF-1.5"));
}
