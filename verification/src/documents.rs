use vstd::prelude::*;
use vstd::utf8::{encode_utf8, valid_utf8};

verus! {

/// What `lopdf::Document::load_mem` makes of the bytes of a PDF file,
/// told by what can be read from the document: for each page in order its
/// text, or nothing where the page's text cannot be extracted; or the words
/// of the failure where the bytes are no PDF document.
pub uninterp spec fn pdf_pages_of(data: Seq<u8>) -> Result<Seq<Option<Seq<char>>>, Seq<char>>;

/// The numbers under which `get_pages` lists the pages of a document, in
/// order.
pub uninterp spec fn pdf_page_numbers_of(doc: lopdf::Document) -> Seq<u32>;

/// What a loaded document holds: for each of its pages in order the text
/// that `extract_text` gives for it, or nothing where it gives none.
pub uninterp spec fn pdf_page_texts(doc: lopdf::Document) -> Seq<Option<Seq<char>>>;

/// What the `zip` crate reads from the bytes of an archive for the entry of
/// the given name, as text.
pub uninterp spec fn zip_entry_of(data: Seq<u8>, name: Seq<char>) -> Result<Seq<char>, ZipFault>;

/// What the `xml` crate reads from an XML text: for each event in order
/// the characters it carries if it is a run of characters, and nothing for
/// any other event or an error.
pub uninterp spec fn xml_runs_of(xml: Seq<char>) -> Seq<Option<Seq<char>>>;

/// What `calamine` reads from the bytes of a workbook: for each sheet in
/// order its rows of cells as texts, or nothing where the sheet cannot be
/// read; or the words of the failure where the bytes are no workbook.
pub uninterp spec fn workbook_of(data: Seq<u8>) -> Result<
    Seq<Option<Seq<Seq<Seq<char>>>>>,
    Seq<char>,
>;

/// What the `csv` crate reads from the bytes of a CSV file after its header
/// row: for each record in order its fields, or nothing where the record is
/// malformed.
pub uninterp spec fn csv_records_of(data: Seq<u8>) -> Seq<Option<Seq<Seq<char>>>>;

/// What `html2text` renders from the bytes of an HTML page at the given
/// width, or nothing where it cannot render them.
pub uninterp spec fn html_text_of(html: Seq<u8>, width: nat) -> Option<Seq<char>>;

/// Why an entry could not be read from an archive.
#[derive(Clone, Copy, Debug, PartialEq, Eq, Structural)]
pub enum ZipFault {
    /// The bytes are no zip archive.
    NotAnArchive,
    /// The archive has no entry of that name, or the entry cannot be opened.
    NoSuchEntry,
    /// The entry cannot be read as UTF-8 text.
    NotText,
}

/// Calls `String::from_utf8` on a copy of the bytes. The contract claims
/// that the call succeeds exactly on valid UTF-8, and that the text it
/// returns is the one of which the bytes are the UTF-8 form.
#[verifier::external_body]
pub(crate) fn utf8_text(data: &[u8]) -> (r: Option<String>)
    ensures
        r is Some <==> valid_utf8(data@),
        r matches Some(text) ==> encode_utf8(text@) == data@,
{
    String::from_utf8(data.to_vec()).ok()
}

/// A PDF document as `lopdf` holds it once loaded.
#[verifier::external_type_specification]
#[verifier::external_body]
pub struct ExPdfDocument(lopdf::Document);

/// Calls `lopdf::Document::load_mem`. The contract claims no more than that
/// the outcome depends on the bytes alone: the same bytes fail with the
/// same words or give a document from which the same is read. That holds
/// of `lopdf` built without its `rayon` feature, as it is here: the objects
/// of a document are then read one after the other, in the order of their
/// numbers. That the parser returns on every input is not claimed: a panic
/// inside it is not excluded.
#[verifier::external_body]
pub(crate) fn pdf_load(data: &[u8]) -> (r: Result<lopdf::Document, String>)
    ensures
        match r {
            Ok(doc) => pdf_pages_of(data@) == Ok::<Seq<Option<Seq<char>>>, Seq<char>>(
                pdf_page_texts(doc),
            ),
            Err(why) => pdf_pages_of(data@) == Err::<Seq<Option<Seq<char>>>, Seq<char>>(why@),
        },
{
    lopdf::Document::load_mem(data).map_err(|e| e.to_string())
}

/// Calls `get_pages` and hands out the page numbers, which are the keys of
/// the map it returns, in their order. The contract claims that there is
/// one number for each page that the document holds.
#[verifier::external_body]
pub(crate) fn pdf_page_numbers(doc: &lopdf::Document) -> (r: Vec<u32>)
    ensures
        r@ == pdf_page_numbers_of(*doc),
        r@.len() == pdf_page_texts(*doc).len(),
{
    doc.get_pages().keys().copied().collect()
}

/// Calls `extract_text` for the page of the given number. The contract
/// claims that the outcome is what the document holds for the page that
/// `get_pages` lists under that number.
#[verifier::external_body]
pub(crate) fn pdf_page_text(doc: &lopdf::Document, number: u32) -> (r: Option<String>)
    ensures
        forall|i: int|
            0 <= i < pdf_page_numbers_of(*doc).len() && #[trigger] pdf_page_numbers_of(*doc)[i]
                == number ==> r.deep_view() == pdf_page_texts(*doc)[i],
{
    doc.extract_text(&[number]).ok()
}

/// Opens the bytes with `zip::ZipArchive::new`, takes the entry with
/// `by_name` and reads it with `read_to_string`. The contract claims no
/// more than that the outcome depends on the bytes and the name alone. That
/// the reader returns on every input is not claimed: a panic inside it is
/// not excluded.
#[verifier::external_body]
pub(crate) fn zip_entry(data: &[u8], name: &str) -> (r: Result<String, ZipFault>)
    ensures
        match r {
            Ok(text) => zip_entry_of(data@, name@) == Ok::<Seq<char>, ZipFault>(text@),
            Err(fault) => zip_entry_of(data@, name@) == Err::<Seq<char>, ZipFault>(fault),
        },
{
    let mut archive = zip::ZipArchive::new(std::io::Cursor::new(data)).map_err(
        |_| ZipFault::NotAnArchive,
    )?;
    let mut entry = archive.by_name(name).map_err(|_| ZipFault::NoSuchEntry)?;
    let mut text = String::new();
    std::io::Read::read_to_string(&mut entry, &mut text).map_err(|_| ZipFault::NotText)?;
    Ok(text)
}

/// Walks the events of `xml::EventReader::from_str` over the text. The
/// contract claims no more than that the outcome depends on the text alone.
/// The walk ends: after an error or the end of the document the reader
/// gives no further event.
#[verifier::external_body]
pub(crate) fn xml_runs(xml: &str) -> (r: Vec<Option<String>>)
    ensures
        r.deep_view() == xml_runs_of(xml@),
{
    xml::reader::EventReader::from_str(xml).into_iter().map(
        |event| match event {
            Ok(xml::reader::XmlEvent::Characters(run)) => Some(run),
            _ => None,
        },
    ).collect()
}

/// Opens the bytes with `calamine::open_workbook_from_rs` as an `Xlsx`
/// workbook, takes its `sheet_names`, and for each the rows of its
/// `worksheet_range`, each cell written with its `Display`. The contract
/// claims no more than that the outcome depends on the bytes alone. That
/// the reader returns on every input is not claimed: a panic inside it is
/// not excluded.
#[verifier::external_body]
pub(crate) fn workbook_sheets(data: &[u8]) -> (r: Result<
    Vec<Option<Vec<Vec<String>>>>,
    String,
>)
    ensures
        match r {
            Ok(sheets) => workbook_of(data@) == Ok::<
                Seq<Option<Seq<Seq<Seq<char>>>>>,
                Seq<char>,
            >(sheets.deep_view()),
            Err(why) => workbook_of(data@) == Err::<
                Seq<Option<Seq<Seq<Seq<char>>>>>,
                Seq<char>,
            >(why@),
        },
{
    let mut book: calamine::Xlsx<std::io::Cursor<&[u8]>> = calamine::open_workbook_from_rs(
        std::io::Cursor::new(data),
    ).map_err(|e: calamine::XlsxError| e.to_string())?;
    let names = calamine::Reader::sheet_names(&book);
    Ok(names.iter().map(|name| calamine::Reader::worksheet_range(&mut book, name).ok().map(
        |range| range.rows().map(|row| row.iter().map(|cell| cell.to_string()).collect()).collect(),
    )).collect())
}

/// Walks the `records` of `csv::Reader::from_reader` over the bytes. The
/// contract claims no more than that the outcome depends on the bytes alone.
#[verifier::external_body]
pub(crate) fn csv_records(data: &[u8]) -> (r: Vec<Option<Vec<String>>>)
    ensures
        r.deep_view() == csv_records_of(data@),
{
    csv::Reader::from_reader(std::io::Cursor::new(data)).records().map(
        |record| record.ok().map(|fields| fields.iter().map(|field| field.to_string()).collect()),
    ).collect()
}

/// Calls `html2text::from_read` on the bytes with the given width. The
/// contract claims no more than that the outcome depends on the bytes and
/// the width alone. That the renderer returns on every input is not
/// claimed: a panic inside it is not excluded.
#[verifier::external_body]
pub(crate) fn html_text(html: &[u8], width: usize) -> (r: Option<String>)
    ensures
        r.deep_view() == html_text_of(html@, width as nat),
{
    html2text::from_read(html, width).ok()
}

} // verus!
