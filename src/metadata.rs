//! Document metadata and its compilation into the XMP stream, the document
//! information dictionary and the optional ICC profile stream.

use vstd::prelude::*;
use vstd::string::StringSliceAdditionalSpecFns;
use vstd::utf8::encode_utf8;
use crate::object::{
    dict_get, dict_set, is_bytes, is_name, is_text, name, PdfKey, push_bytes, push_str, PdfObject,
};

verus! {

/// The conformance level a document declares.
#[derive(Debug, Clone, Copy, PartialEq, Eq, Structural)]
#[allow(non_camel_case_types)]
pub enum PdfConformance {
    /// PDF/A-1b (ISO 19005-1:2005) on PDF 1.4.
    A1B_2005_PDF_1_4,
    /// PDF/X-3:2002 on PDF 1.3.
    X3_2002_PDF_1_3,
    /// PDF/X-3:2003 on PDF 1.4.
    X3_2003_PDF_1_4,
    /// PDF/X-4 (ISO 15930-7:2010) on PDF 1.6.
    X4_2010_PDF_1_6,
}

impl PdfConformance {
    pub open spec fn spec_identifier(&self) -> &'static str {
        match self {
            PdfConformance::A1B_2005_PDF_1_4 => "PDF/A-1b:2005",
            PdfConformance::X3_2002_PDF_1_3 => "PDF/X-3:2002",
            PdfConformance::X3_2003_PDF_1_4 => "PDF/X-3:2003",
            PdfConformance::X4_2010_PDF_1_6 => "PDF/X-4",
        }
    }

    /// The identifier written into the metadata for this level.
    #[verifier::when_used_as_spec(spec_identifier)]
    pub fn get_identifier_string(&self) -> (r: &'static str)
        ensures
            r == self.spec_identifier(),
    {
        match self {
            PdfConformance::A1B_2005_PDF_1_4 => "PDF/A-1b:2005",
            PdfConformance::X3_2002_PDF_1_3 => "PDF/X-3:2002",
            PdfConformance::X3_2003_PDF_1_4 => "PDF/X-3:2003",
            PdfConformance::X4_2010_PDF_1_6 => "PDF/X-4",
        }
    }

    /// Whether this level requires an embedded output profile.
    pub fn must_have_icc_profile(&self) -> (r: bool)
        ensures
            r == !(*self is A1B_2005_PDF_1_4),
    {
        match self {
            PdfConformance::A1B_2005_PDF_1_4 => false,
            _ => true,
        }
    }
}

/// A calendar date and time of day.
#[derive(Debug, Clone, Copy, PartialEq, Eq, Structural)]
pub struct PdfDateTime {
    pub year: u16,
    pub month: u8,
    pub day: u8,
    pub hour: u8,
    pub minute: u8,
    pub second: u8,
}

impl PdfDateTime {
    pub open spec fn wf(&self) -> bool {
        &&& self.year <= 9999
        &&& 1 <= self.month <= 12
        &&& 1 <= self.day <= 31
        &&& self.hour < 24
        &&& self.minute < 60
        &&& self.second < 60
    }
}

impl PdfDateTime {
    /// A date from calendar parts; a year outside 0..=9999, which the PDF
    /// date encoding cannot hold, is clamped to that range.
    pub fn from_parts(year: i32, month: u32, day: u32, hour: u32, minute: u32, second: u32) -> (r: PdfDateTime)
        requires
            1 <= month <= 12,
            1 <= day <= 31,
            hour < 24,
            minute < 60,
            second < 60,
        ensures
            r.wf(),
            r.year == if year < 0 { 0 } else if year > 9999 { 9999 } else { year },
            r.month == month,
            r.day == day,
            r.hour == hour,
            r.minute == minute,
            r.second == second,
    {
        let y: u16 = if year < 0 { 0 } else if year > 9999 { 9999 } else { year as u16 };
        PdfDateTime {
            year: y,
            month: month as u8,
            day: day as u8,
            hour: hour as u8,
            minute: minute as u8,
            second: second as u8,
        }
    }
}

/// The last `w` decimal digits of `n`, as ASCII bytes, most significant first.
pub open spec fn digits(n: nat, w: nat) -> Seq<u8>
    decreases w,
{
    if w == 0 {
        Seq::empty()
    } else {
        digits(n / 10, (w - 1) as nat).push((48 + n % 10) as u8)
    }
}

/// The decimal notation of `n`, without leading zeros.
pub open spec fn decimal(n: nat) -> Seq<u8>
    decreases n,
{
    if n < 10 {
        seq![(48 + n) as u8]
    } else {
        decimal(n / 10).push((48 + n % 10) as u8)
    }
}

/// A date in the PDF date encoding: `D:YYYYMMDDHHmmSS`.
pub open spec fn pdf_date(d: PdfDateTime) -> Seq<u8> {
    "D:".spec_bytes() + digits(d.year as nat, 4) + digits(d.month as nat, 2) + digits(d.day as nat, 2)
        + digits(d.hour as nat, 2) + digits(d.minute as nat, 2) + digits(d.second as nat, 2)
}

/// A date in the XMP encoding: `YYYY-MM-DDTHH:mm:SS`.
pub open spec fn xmp_date(d: PdfDateTime) -> Seq<u8> {
    digits(d.year as nat, 4) + "-".spec_bytes() + digits(d.month as nat, 2) + "-".spec_bytes()
        + digits(d.day as nat, 2) + "T".spec_bytes() + digits(d.hour as nat, 2) + ":".spec_bytes()
        + digits(d.minute as nat, 2) + ":".spec_bytes() + digits(d.second as nat, 2)
}

/// Appends the last `w` decimal digits of `n`.
pub fn push_digits(v: &mut Vec<u8>, n: u32, w: u32)
    ensures
        final(v)@ == old(v)@ + digits(n as nat, w as nat),
    decreases w,
{
    if w > 0 {
        push_digits(v, n / 10, w - 1);
        v.push((48 + n % 10) as u8);
    }
}

/// Appends the decimal notation of `n`.
pub fn push_decimal(v: &mut Vec<u8>, n: u64)
    ensures
        final(v)@ == old(v)@ + decimal(n as nat),
    decreases n,
{
    if n >= 10 {
        push_decimal(v, n / 10);
    }
    v.push((48 + n % 10) as u8);
}

/// Encodes `d` as a PDF date.
pub fn format_pdf_date(d: &PdfDateTime) -> (r: Vec<u8>)
    ensures
        r@ == pdf_date(*d),
{
    let mut v: Vec<u8> = Vec::new();
    push_str(&mut v, "D:");
    push_digits(&mut v, d.year as u32, 4);
    push_digits(&mut v, d.month as u32, 2);
    push_digits(&mut v, d.day as u32, 2);
    push_digits(&mut v, d.hour as u32, 2);
    push_digits(&mut v, d.minute as u32, 2);
    push_digits(&mut v, d.second as u32, 2);
    assert(v@ =~= pdf_date(*d));
    v
}

/// Appends `d` in the XMP date encoding.
pub fn push_xmp_date(v: &mut Vec<u8>, d: &PdfDateTime)
    ensures
        final(v)@ == old(v)@ + xmp_date(*d),
{
    let ghost start = v@;
    push_digits(v, d.year as u32, 4);
    push_str(v, "-");
    push_digits(v, d.month as u32, 2);
    push_str(v, "-");
    push_digits(v, d.day as u32, 2);
    push_str(v, "T");
    push_digits(v, d.hour as u32, 2);
    push_str(v, ":");
    push_digits(v, d.minute as u32, 2);
    push_str(v, ":");
    push_digits(v, d.second as u32, 2);
    assert(v@ =~= start + xmp_date(*d));
}


pub const XMP_1: &'static str = "<?xpacket begin=\"\" id=\"W5M0MpCehiHzreSzNTczkc9d\"?><x:xmpmeta xmlns:x=\"adobe:ns:meta/\"><rdf:RDF xmlns:rdf=\"http://www.w3.org/1999/02/22-rdf-syntax-ns#\"><rdf:Description rdf:about=\"\" xmlns:xmp=\"http://ns.adobe.com/xap/1.0/\" xmlns:xmpMM=\"http://ns.adobe.com/xap/1.0/mm/\" xmlns:pdfxid=\"http://www.npes.org/pdfx/ns/id/\" xmlns:dc=\"http://purl.org/dc/elements/1.1/\"><xmp:CreateDate>";
pub const XMP_2: &'static str = "</xmp:CreateDate><xmp:ModifyDate>";
pub const XMP_3: &'static str = "</xmp:ModifyDate><xmpMM:DocumentID>uuid:";
pub const XMP_4: &'static str = "</xmpMM:DocumentID><xmpMM:InstanceID>uuid:";
pub const XMP_5: &'static str = "</xmpMM:InstanceID><xmpMM:VersionID>";
pub const XMP_6: &'static str = "</xmpMM:VersionID><pdfxid:GTS_PDFXVersion>";
pub const XMP_7: &'static str = "</pdfxid:GTS_PDFXVersion><dc:title>";
pub const XMP_8: &'static str = "</dc:title></rdf:Description></rdf:RDF></x:xmpmeta><?xpacket end=\"w\"?>";

/// The XMP packet (UTF-8) of a document with identifiers `doc_id` and
/// `instance_id`.
pub open spec fn xmp_packet(m: PdfMetadata, doc_id: Seq<char>, instance_id: Seq<char>) -> Seq<u8> {
    XMP_1.spec_bytes() + xmp_date(m.creation_date) + XMP_2.spec_bytes() + xmp_date(m.modification_date)
        + XMP_3.spec_bytes() + encode_utf8(doc_id) + XMP_4.spec_bytes() + encode_utf8(instance_id)
        + XMP_5.spec_bytes() + decimal(m.document_version as nat) + XMP_6.spec_bytes()
        + m.conformance.spec_identifier().spec_bytes() + XMP_7.spec_bytes() + encode_utf8(m.document_title@)
        + XMP_8.spec_bytes()
}

/// The metadata of a document.
pub struct PdfMetadata {
    pub document_title: String,
    pub creator: String,
    pub producer: String,
    /// Revision number of the document, written to the XMP packet.
    pub document_version: u32,
    /// Whether the document has been trapped for print.
    pub trapping: bool,
    pub conformance: PdfConformance,
    pub creation_date: PdfDateTime,
    pub modification_date: PdfDateTime,
    /// An ICC output profile to embed, as raw bytes.
    pub icc_profile: Option<Vec<u8>>,
}

impl PdfMetadata {
    pub open spec fn wf(&self) -> bool {
        self.creation_date.wf() && self.modification_date.wf()
    }

    /// Metadata created and last modified at `date`, without an ICC profile.
    pub fn new(
        title: String,
        creator: String,
        document_version: u32,
        trapping: bool,
        conformance: PdfConformance,
        date: PdfDateTime,
    ) -> (r: PdfMetadata)
        ensures
            r.document_title@ == title@,
            r.creator@ == creator@,
            r.producer@ == creator@,
            r.document_version == document_version,
            r.trapping == trapping,
            r.conformance == conformance,
            r.creation_date == date,
            r.modification_date == date,
            r.icc_profile is None,
    {
        let producer = creator.clone();
        PdfMetadata {
            document_title: title,
            creator,
            producer,
            document_version,
            trapping,
            conformance,
            creation_date: date,
            modification_date: date,
            icc_profile: None,
        }
    }

    /// The XMP packet of this metadata.
    pub fn xmp_content(&self, document_id: &str, instance_id: &str) -> (r: Vec<u8>)
        ensures
            r@ == xmp_packet(*self, document_id@, instance_id@),
    {
        let mut v: Vec<u8> = Vec::new();
        push_str(&mut v, XMP_1);
        push_xmp_date(&mut v, &self.creation_date);
        push_str(&mut v, XMP_2);
        push_xmp_date(&mut v, &self.modification_date);
        push_str(&mut v, XMP_3);
        push_str(&mut v, document_id);
        push_str(&mut v, XMP_4);
        push_str(&mut v, instance_id);
        push_str(&mut v, XMP_5);
        push_decimal(&mut v, self.document_version as u64);
        push_str(&mut v, XMP_6);
        push_str(&mut v, self.conformance.get_identifier_string());
        push_str(&mut v, XMP_7);
        push_str(&mut v, self.document_title.as_str());
        push_str(&mut v, XMP_8);
        assert(v@ =~= xmp_packet(*self, document_id@, instance_id@));
        v
    }

    /// The document information dictionary.
    pub fn info_dictionary(&self) -> (r: Vec<(PdfKey, PdfObject)>)
        ensures
            is_name(dict_get(r@, PdfKey::Trapped), if self.trapping { "True"@ } else { "False"@ }),
            is_bytes(dict_get(r@, PdfKey::CreationDate), pdf_date(self.creation_date)),
            is_bytes(dict_get(r@, PdfKey::ModDate), pdf_date(self.modification_date)),
            is_text(dict_get(r@, PdfKey::GTS_PDFXVersion), self.conformance.spec_identifier()@),
            is_text(dict_get(r@, PdfKey::Title), self.document_title@),
            is_text(dict_get(r@, PdfKey::Creator), self.creator@),
            is_text(dict_get(r@, PdfKey::Producer), self.producer@),
    {
        let mut info: Vec<(PdfKey, PdfObject)> = Vec::new();
        dict_set(&mut info, PdfKey::Trapped, name(if self.trapping { "True" } else { "False" }));
        dict_set(&mut info, PdfKey::CreationDate, PdfObject::Bytes(format_pdf_date(&self.creation_date)));
        dict_set(&mut info, PdfKey::ModDate, PdfObject::Bytes(format_pdf_date(&self.modification_date)));
        dict_set(
            &mut info,
            PdfKey::GTS_PDFXVersion,
            PdfObject::Text(String::from_str(self.conformance.get_identifier_string())),
        );
        dict_set(&mut info, PdfKey::Title, PdfObject::Text(self.document_title.clone()));
        dict_set(&mut info, PdfKey::Creator, PdfObject::Text(self.creator.clone()));
        dict_set(&mut info, PdfKey::Producer, PdfObject::Text(self.producer.clone()));
        info
    }

    /// Compiles the metadata into the XMP stream, the information dictionary
    /// and, when a profile is set, the ICC profile stream.
    pub fn into_obj(&self, document_id: &str, instance_id: &str) -> (r: (PdfObject, PdfObject, Option<PdfObject>))
        ensures
            match r.0 {
                PdfObject::Stream(d, c) => {
                    &&& is_name(dict_get(d@, PdfKey::Type), "Metadata"@)
                    &&& is_name(dict_get(d@, PdfKey::Subtype), "XML"@)
                    &&& c@ == xmp_packet(*self, document_id@, instance_id@)
                },
                _ => false,
            },
            match r.1 {
                PdfObject::Dictionary(d) => {
                    &&& is_name(dict_get(d@, PdfKey::Trapped), if self.trapping { "True"@ } else { "False"@ })
                    &&& is_bytes(dict_get(d@, PdfKey::CreationDate), pdf_date(self.creation_date))
                    &&& is_bytes(dict_get(d@, PdfKey::ModDate), pdf_date(self.modification_date))
                    &&& is_text(dict_get(d@, PdfKey::GTS_PDFXVersion), self.conformance.spec_identifier()@)
                    &&& is_text(dict_get(d@, PdfKey::Title), self.document_title@)
                    &&& is_text(dict_get(d@, PdfKey::Creator), self.creator@)
                    &&& is_text(dict_get(d@, PdfKey::Producer), self.producer@)
                },
                _ => false,
            },
            r.2 is Some <==> self.icc_profile is Some,
            self.icc_profile is Some ==> match r.2 {
                Some(PdfObject::Stream(d, c)) => {
                    &&& dict_get(d@, PdfKey::N) == Some(PdfObject::Integer(4))
                    &&& c@ == self.icc_profile->0@
                },
                _ => false,
            },
    {
        let mut xd: Vec<(PdfKey, PdfObject)> = Vec::new();
        dict_set(&mut xd, PdfKey::Type, name("Metadata"));
        dict_set(&mut xd, PdfKey::Subtype, name("XML"));
        let xmp = PdfObject::Stream(xd, self.xmp_content(document_id, instance_id));

        let info = self.info_dictionary();

        let icc = match &self.icc_profile {
            Some(profile) => {
                let mut id: Vec<(PdfKey, PdfObject)> = Vec::new();
                dict_set(&mut id, PdfKey::N, PdfObject::Integer(4));
                let mut content: Vec<u8> = Vec::new();
                push_bytes(&mut content, profile);
                assert(content@ =~= profile@);
                Some(PdfObject::Stream(id, content))
            },
            None => None,
        };
        (xmp, PdfObject::Dictionary(info), icc)
    }
}

} // verus!
