use crate::casing::lowercase_of;
use crate::documents::{
    csv_records, csv_records_of, html_text, html_text_of, pdf_load, pdf_page_numbers,
    pdf_page_text, pdf_page_texts, pdf_pages_of, utf8_text, workbook_of, workbook_sheets,
    xml_runs, xml_runs_of, zip_entry, zip_entry_of, ZipFault,
};
use crate::search::{find_last, last_index, lemma_last_index, occurs_at};
use crate::text::{chars_of, copy_range, is_text, join2, push_text, same_chars, string_of};
use vstd::prelude::*;
use vstd::string::StringExecFns;
use vstd::utf8::{decode_utf8, encode_utf8_decode_utf8, valid_utf8};

verus! {

/// The kinds of document whose text can be extracted.
#[derive(Clone, Copy, Debug, PartialEq, Eq, Structural)]
pub enum SupportedFormat {
    PDF,
    DOCX,
    XLSX,
    CSV,
    HTML,
    PlainText,
}

/// A path without what does not count at its end: the slashes that close
/// it, and the components `.` that stand for the directory itself.
pub open spec fn without_tail(path: Seq<char>) -> Seq<char>
    decreases path.len(),
{
    if path.len() > 0 && path.last() == '/' {
        without_tail(path.drop_last())
    } else if path.len() >= 2 && path.last() == '.' && path[path.len() - 2] == '/' {
        without_tail(path.take(path.len() - 2))
    } else {
        path
    }
}

/// The last component of a path, `/` being the separator: what follows the
/// last slash of the path without its tail, or all of it where it has no
/// slash.
pub open spec fn last_component(path: Seq<char>) -> Seq<char> {
    let kept = without_tail(path);
    let slash = last_index(kept, seq!['/']);
    if slash < 0 {
        kept
    } else {
        kept.skip(slash + 1)
    }
}

/// The file name of a path: its last component, unless that is empty or
/// one of `.` and `..`, which name no file.
pub open spec fn file_name_of(path: Seq<char>) -> Option<Seq<char>> {
    let name = last_component(path);
    if name.len() == 0 || name == seq!['.'] || name == seq!['.', '.'] {
        None
    } else {
        Some(name)
    }
}

/// The extension of a path: what follows the last dot of its file name. A
/// path without a file name has none, and neither has a file name without
/// a dot or with its only dot in front. This is how `Path::extension` reads
/// a path where `/` is the only separator.
pub open spec fn extension_of(path: Seq<char>) -> Option<Seq<char>> {
    match file_name_of(path) {
        None => None,
        Some(name) => {
            let dot = last_index(name, seq!['.']);
            if dot <= 0 {
                None
            } else {
                Some(name.skip(dot + 1))
            }
        },
    }
}

/// The format that an extension in small letters stands for.
pub open spec fn format_named(ext: Seq<char>) -> Option<SupportedFormat> {
    if ext == "pdf"@ {
        Some(SupportedFormat::PDF)
    } else if ext == "docx"@ {
        Some(SupportedFormat::DOCX)
    } else if ext == "xlsx"@ || ext == "xls"@ {
        Some(SupportedFormat::XLSX)
    } else if ext == "csv"@ {
        Some(SupportedFormat::CSV)
    } else if ext == "html"@ || ext == "htm"@ {
        Some(SupportedFormat::HTML)
    } else if ext == "txt"@ || ext == "md"@ || ext == "json"@ || ext == "xml"@ {
        Some(SupportedFormat::PlainText)
    } else {
        None
    }
}

/// The format of a file of the given name: that of the extension of its
/// last component, taken in small letters; none where it has no extension
/// or an unknown one.
pub open spec fn format_of(filename: Seq<char>) -> Option<SupportedFormat> {
    match extension_of(filename) {
        Some(ext) => format_named(lowercase_of(ext)),
        None => None,
    }
}

/// The length of a path without its tail.
pub fn tail_start(v: &Vec<char>) -> (end: usize)
    ensures
        end <= v.len(),
        v@.take(end as int) == without_tail(v@),
{
    let mut end: usize = v.len();
    assert(v@.take(end as int) =~= v@);
    loop
        invariant
            end <= v.len(),
            without_tail(v@.take(end as int)) == without_tail(v@),
        ensures
            end <= v.len(),
            v@.take(end as int) == without_tail(v@),
        decreases end,
    {
        let ghost kept = v@.take(end as int);
        if end > 0 && v[end - 1] == '/' {
            assert(kept.drop_last() =~= v@.take(end - 1));
            end = end - 1;
        } else if end >= 2 && v[end - 1] == '.' && v[end - 2] == '/' {
            assert(kept.take(kept.len() - 2) =~= v@.take(end - 2));
            end = end - 2;
        } else {
            assert(without_tail(kept) == kept);
            break ;
        }
    }
    end
}

/// The file name of a path, if it has one.
pub fn file_name(path: &str) -> (r: Option<Vec<char>>)
    ensures
        match r {
            Some(name) => file_name_of(path@) == Some(name@),
            None => file_name_of(path@) is None,
        },
{
    let whole: Vec<char> = chars_of(path);
    let end: usize = tail_start(&whole);
    let kept: Vec<char> = copy_range(&whole, 0, end);
    assert(kept@ =~= without_tail(path@));
    let mut slash: Vec<char> = Vec::new();
    slash.push('/');
    assert(slash@ =~= seq!['/']);
    let name: Vec<char> = match find_last(&kept, &slash) {
        Some(i) => {
            proof {
                lemma_last_index(kept@, slash@);
                assert(occurs_at(kept@, slash@, i as int));
            }
            let n: usize = kept.len();
            let tail: Vec<char> = copy_range(&kept, i + 1, n);
            assert(tail@ =~= kept@.skip(i + 1));
            tail
        },
        None => kept,
    };
    assert(name@ == last_component(path@));
    let mut one: Vec<char> = Vec::new();
    one.push('.');
    let mut two: Vec<char> = Vec::new();
    two.push('.');
    two.push('.');
    assert(one@ =~= seq!['.']);
    assert(two@ =~= seq!['.', '.']);
    if name.len() == 0 || same_chars(&name, &one) || same_chars(&name, &two) {
        None
    } else {
        Some(name)
    }
}

/// The extension of a path, if it has one.
pub fn extension(path: &str) -> (r: Option<String>)
    ensures
        match r {
            Some(ext) => extension_of(path@) == Some(ext@),
            None => extension_of(path@) is None,
        },
{
    let name: Vec<char> = match file_name(path) {
        Some(name) => name,
        None => {
            return None;
        },
    };
    let mut dot: Vec<char> = Vec::new();
    dot.push('.');
    assert(dot@ =~= seq!['.']);
    match find_last(&name, &dot) {
        Some(i) => {
            if i == 0 {
                return None;
            }
            proof {
                lemma_last_index(name@, dot@);
                assert(occurs_at(name@, dot@, i as int));
            }
            let n: usize = name.len();
            let ext: Vec<char> = copy_range(&name, i + 1, n);
            assert(ext@ =~= name@.skip(i + 1));
            Some(string_of(&ext))
        },
        None => None,
    }
}

impl SupportedFormat {
    /// The format that an extension in small letters stands for.
    pub fn from_extension(ext: &str) -> (r: Option<Self>)
        ensures
            r == format_named(ext@),
    {
        let e: Vec<char> = chars_of(ext);
        if is_text(&e, "pdf") {
            Some(SupportedFormat::PDF)
        } else if is_text(&e, "docx") {
            Some(SupportedFormat::DOCX)
        } else if is_text(&e, "xlsx") || is_text(&e, "xls") {
            Some(SupportedFormat::XLSX)
        } else if is_text(&e, "csv") {
            Some(SupportedFormat::CSV)
        } else if is_text(&e, "html") || is_text(&e, "htm") {
            Some(SupportedFormat::HTML)
        } else if is_text(&e, "txt") || is_text(&e, "md") || is_text(&e, "json") || is_text(
            &e,
            "xml",
        ) {
            Some(SupportedFormat::PlainText)
        } else {
            None
        }
    }

    /// The format of a file of the given name, read from its extension
    /// whatever the case of its letters.
    pub fn from_filename(filename: &str) -> (r: Option<Self>)
        ensures
            r == format_of(filename@),
    {
        match extension(filename) {
            Some(ext) => {
                let lower: String = ext.as_str().to_lowercase();
                SupportedFormat::from_extension(lower.as_str())
            },
            None => None,
        }
    }
}

/// The texts that are present, each followed by `end`, one after the other.
pub open spec fn chained(parts: Seq<Option<Seq<char>>>, end: Seq<char>) -> Seq<char>
    decreases parts.len(),
{
    if parts.len() == 0 {
        Seq::empty()
    } else {
        let before = chained(parts.drop_last(), end);
        match parts.last() {
            Some(text) => before + text + end,
            None => before,
        }
    }
}

/// The texts with `sep` between each two.
pub open spec fn joined(cells: Seq<Seq<char>>, sep: Seq<char>) -> Seq<char>
    decreases cells.len(),
{
    if cells.len() == 0 {
        Seq::empty()
    } else if cells.len() == 1 {
        cells[0]
    } else {
        joined(cells.drop_last(), sep) + sep + cells.last()
    }
}

/// The mark between the cells of a row.
pub open spec fn cell_mark() -> Seq<char> {
    " | "@
}

/// One row as a line: its cells with the mark between them.
pub open spec fn row_line(row: Seq<Seq<char>>) -> Seq<char> {
    joined(row, cell_mark()) + "\n"@
}

/// The rows as lines, one after the other.
pub open spec fn rows_text(rows: Seq<Seq<Seq<char>>>) -> Seq<char>
    decreases rows.len(),
{
    if rows.len() == 0 {
        Seq::empty()
    } else {
        rows_text(rows.drop_last()) + row_line(rows.last())
    }
}

/// The rows of the tables that are present, as lines, one table after the
/// other. A record that is present counts as a table of one row.
pub open spec fn tables_text(tables: Seq<Option<Seq<Seq<Seq<char>>>>>) -> Seq<char>
    decreases tables.len(),
{
    if tables.len() == 0 {
        Seq::empty()
    } else {
        let before = tables_text(tables.drop_last());
        match tables.last() {
            Some(rows) => before + rows_text(rows),
            None => before,
        }
    }
}

/// The records that are present as lines, one after the other.
pub open spec fn records_text(records: Seq<Option<Seq<Seq<char>>>>) -> Seq<char>
    decreases records.len(),
{
    if records.len() == 0 {
        Seq::empty()
    } else {
        let before = records_text(records.drop_last());
        match records.last() {
            Some(row) => before + row_line(row),
            None => before,
        }
    }
}

/// Chains the texts that are present, each followed by `end`.
pub fn chain_texts(parts: &Vec<Option<String>>, end: &str) -> (r: String)
    ensures
        r@ == chained(parts.deep_view(), end@),
{
    let ghost all = parts.deep_view();
    let mut out: Vec<char> = Vec::new();
    let mut i: usize = 0;
    assert(all.take(0) =~= Seq::<Option<Seq<char>>>::empty());
    while i < parts.len()
        invariant
            i <= parts.len(),
            all == parts.deep_view(),
            all.len() == parts.len(),
            out@ == chained(all.take(i as int), end@),
        decreases parts.len() - i,
    {
        let ghost before = out@;
        match &parts[i] {
            Some(text) => {
                push_text(&mut out, text.as_str());
                push_text(&mut out, end);
            },
            None => {},
        }
        i = i + 1;
        proof {
            let upto = all.take(i as int);
            assert(upto.drop_last() =~= all.take(i - 1));
            assert(upto.last() == parts@[i - 1].deep_view());
        }
    }
    assert(all.take(parts.len() as int) =~= all);
    string_of(&out)
}

/// Appends one row as a line to `out`.
pub fn push_row(out: &mut Vec<char>, row: &Vec<String>)
    ensures
        final(out)@ == old(out)@ + row_line(row.deep_view()),
{
    let ghost cells = row.deep_view();
    let ghost head = out@;
    let mut i: usize = 0;
    assert(cells.take(0) =~= Seq::<Seq<char>>::empty());
    assert(head + Seq::<char>::empty() =~= head);
    while i < row.len()
        invariant
            i <= row.len(),
            cells == row.deep_view(),
            cells.len() == row.len(),
            out@ == head + joined(cells.take(i as int), cell_mark()),
        decreases row.len() - i,
    {
        if i > 0 {
            push_text(out, " | ");
        }
        push_text(out, row[i].as_str());
        i = i + 1;
        proof {
            let upto = cells.take(i as int);
            assert(upto.drop_last() =~= cells.take(i - 1));
            assert(upto.last() == row@[i - 1]@);
            if i == 1 {
                assert(upto[0] == row@[0]@);
                assert(out@ =~= head + upto[0]);
            } else {
                assert(out@ =~= head + (joined(cells.take(i - 1), cell_mark()) + cell_mark()
                    + upto.last()));
            }
        }
    }
    assert(cells.take(row.len() as int) =~= cells);
    push_text(out, "\n");
    assert(out@ =~= head + row_line(cells));
}

/// Appends the rows as lines to `out`.
pub fn push_rows(out: &mut Vec<char>, rows: &Vec<Vec<String>>)
    ensures
        final(out)@ == old(out)@ + rows_text(rows.deep_view()),
{
    let ghost all = rows.deep_view();
    let ghost head = out@;
    let mut i: usize = 0;
    assert(all.take(0) =~= Seq::<Seq<Seq<char>>>::empty());
    assert(head + Seq::<char>::empty() =~= head);
    while i < rows.len()
        invariant
            i <= rows.len(),
            all == rows.deep_view(),
            all.len() == rows.len(),
            out@ == head + rows_text(all.take(i as int)),
        decreases rows.len() - i,
    {
        push_row(out, &rows[i]);
        i = i + 1;
        proof {
            let upto = all.take(i as int);
            assert(upto.drop_last() =~= all.take(i - 1));
            assert(upto.last() == rows@[i - 1].deep_view());
            assert(out@ =~= head + (rows_text(all.take(i - 1)) + row_line(upto.last())));
        }
    }
    assert(all.take(rows.len() as int) =~= all);
}

/// The text of the sheets of a workbook that could be read.
pub fn sheets_text(sheets: &Vec<Option<Vec<Vec<String>>>>) -> (r: String)
    ensures
        r@ == tables_text(sheets.deep_view()),
{
    let ghost all = sheets.deep_view();
    let mut out: Vec<char> = Vec::new();
    let mut i: usize = 0;
    assert(all.take(0) =~= Seq::<Option<Seq<Seq<Seq<char>>>>>::empty());
    while i < sheets.len()
        invariant
            i <= sheets.len(),
            all == sheets.deep_view(),
            all.len() == sheets.len(),
            out@ == tables_text(all.take(i as int)),
        decreases sheets.len() - i,
    {
        match &sheets[i] {
            Some(rows) => {
                push_rows(&mut out, rows);
            },
            None => {},
        }
        i = i + 1;
        proof {
            let upto = all.take(i as int);
            assert(upto.drop_last() =~= all.take(i - 1));
            assert(upto.last() == sheets@[i - 1].deep_view());
        }
    }
    assert(all.take(sheets.len() as int) =~= all);
    string_of(&out)
}

/// The text of the records of a CSV file that could be read.
pub fn records_to_text(records: &Vec<Option<Vec<String>>>) -> (r: String)
    ensures
        r@ == records_text(records.deep_view()),
{
    let ghost all = records.deep_view();
    let mut out: Vec<char> = Vec::new();
    let mut i: usize = 0;
    assert(all.take(0) =~= Seq::<Option<Seq<Seq<char>>>>::empty());
    while i < records.len()
        invariant
            i <= records.len(),
            all == records.deep_view(),
            all.len() == records.len(),
            out@ == records_text(all.take(i as int)),
        decreases records.len() - i,
    {
        match &records[i] {
            Some(row) => {
                push_row(&mut out, row);
            },
            None => {},
        }
        i = i + 1;
        proof {
            let upto = all.take(i as int);
            assert(upto.drop_last() =~= all.take(i - 1));
            assert(upto.last() == records@[i - 1].deep_view());
        }
    }
    assert(all.take(records.len() as int) =~= all);
    string_of(&out)
}

/// The width at which HTML pages are rendered.
pub const HTML_WIDTH: usize = 80;

/// Why the text of a document could not be extracted.
#[derive(Clone, Debug)]
pub enum TransmuteError {
    /// The file's name has no extension of a known format.
    Unsupported(String),
    /// The bytes are no PDF document; with the reader's words.
    Pdf(String),
    /// The bytes are no DOCX document.
    Docx(ZipFault),
    /// The bytes are no workbook; with the reader's words.
    Excel(String),
    /// The bytes of a plain text are no UTF-8.
    NotUtf8,
    /// The bytes of an HTML page are no UTF-8.
    HtmlNotUtf8,
    /// The HTML page could not be rendered.
    HtmlFailed,
}

/// Why the text of a document could not be extracted, with the words as
/// plain texts.
pub enum Fault {
    Unsupported(Seq<char>),
    Pdf(Seq<char>),
    Docx(ZipFault),
    Excel(Seq<char>),
    NotUtf8,
    HtmlNotUtf8,
    HtmlFailed,
}

impl View for TransmuteError {
    type V = Fault;

    open spec fn view(&self) -> Fault {
        match self {
            TransmuteError::Unsupported(name) => Fault::Unsupported(name@),
            TransmuteError::Pdf(why) => Fault::Pdf(why@),
            TransmuteError::Docx(fault) => Fault::Docx(*fault),
            TransmuteError::Excel(why) => Fault::Excel(why@),
            TransmuteError::NotUtf8 => Fault::NotUtf8,
            TransmuteError::HtmlNotUtf8 => Fault::HtmlNotUtf8,
            TransmuteError::HtmlFailed => Fault::HtmlFailed,
        }
    }
}

impl TransmuteError {
    /// The error in words.
    pub open spec fn text(self) -> Seq<char> {
        match self {
            TransmuteError::Unsupported(name) => "Formato no soportado: "@ + name@,
            TransmuteError::Pdf(why) => "Fallo PDF: "@ + why@,
            TransmuteError::Docx(ZipFault::NotAnArchive) => "ZIP inválido"@,
            TransmuteError::Docx(ZipFault::NoSuchEntry) => "DOCX sin document.xml"@,
            TransmuteError::Docx(ZipFault::NotText) => "DOCX ilegible"@,
            TransmuteError::Excel(why) => "Error Excel: "@ + why@,
            TransmuteError::NotUtf8 => "Error UTF-8"@,
            TransmuteError::HtmlNotUtf8 => "HTML no UTF-8"@,
            TransmuteError::HtmlFailed => "HTML ilegible"@,
        }
    }

    /// The error in words.
    pub fn message(&self) -> (r: String)
        ensures
            r@ == self.text(),
    {
        match self {
            TransmuteError::Unsupported(name) => join2("Formato no soportado: ", name.as_str()),
            TransmuteError::Pdf(why) => join2("Fallo PDF: ", why.as_str()),
            TransmuteError::Docx(ZipFault::NotAnArchive) => String::from_str("ZIP inválido"),
            TransmuteError::Docx(ZipFault::NoSuchEntry) => String::from_str(
                "DOCX sin document.xml",
            ),
            TransmuteError::Docx(ZipFault::NotText) => String::from_str("DOCX ilegible"),
            TransmuteError::Excel(why) => join2("Error Excel: ", why.as_str()),
            TransmuteError::NotUtf8 => String::from_str("Error UTF-8"),
            TransmuteError::HtmlNotUtf8 => String::from_str("HTML no UTF-8"),
            TransmuteError::HtmlFailed => String::from_str("HTML ilegible"),
        }
    }
}

/// The entry of a DOCX archive that holds the document's text.
pub open spec fn docx_entry() -> Seq<char> {
    "word/document.xml"@
}

/// The text of a PDF document: the texts of its pages, a line end after
/// each.
pub open spec fn pdf_text(data: Seq<u8>) -> Result<Seq<char>, Fault> {
    match pdf_pages_of(data) {
        Ok(pages) => Ok(chained(pages, "\n"@)),
        Err(why) => Err(Fault::Pdf(why)),
    }
}

/// The text of a DOCX document: the runs of characters of its document
/// entry, a space after each.
pub open spec fn docx_text(data: Seq<u8>) -> Result<Seq<char>, Fault> {
    match zip_entry_of(data, docx_entry()) {
        Ok(xml) => Ok(chained(xml_runs_of(xml), " "@)),
        Err(fault) => Err(Fault::Docx(fault)),
    }
}

/// The text of a workbook: the rows of its sheets as lines.
pub open spec fn xlsx_text(data: Seq<u8>) -> Result<Seq<char>, Fault> {
    match workbook_of(data) {
        Ok(sheets) => Ok(tables_text(sheets)),
        Err(why) => Err(Fault::Excel(why)),
    }
}

/// The text of a CSV file: its records as lines.
pub open spec fn csv_text(data: Seq<u8>) -> Result<Seq<char>, Fault> {
    Ok(records_text(csv_records_of(data)))
}

/// The text of an HTML page: its rendering, if its bytes are UTF-8.
pub open spec fn html_page_text(data: Seq<u8>) -> Result<Seq<char>, Fault> {
    if !valid_utf8(data) {
        Err(Fault::HtmlNotUtf8)
    } else {
        match html_text_of(data, HTML_WIDTH as nat) {
            Some(text) => Ok(text),
            None => Err(Fault::HtmlFailed),
        }
    }
}

/// The text of a plain file: its bytes read as UTF-8.
pub open spec fn plain_text(data: Seq<u8>) -> Result<Seq<char>, Fault> {
    if valid_utf8(data) {
        Ok(decode_utf8(data))
    } else {
        Err(Fault::NotUtf8)
    }
}

/// The text of a document of the given format.
pub open spec fn text_in_format(format: SupportedFormat, data: Seq<u8>) -> Result<
    Seq<char>,
    Fault,
> {
    match format {
        SupportedFormat::PDF => pdf_text(data),
        SupportedFormat::DOCX => docx_text(data),
        SupportedFormat::XLSX => xlsx_text(data),
        SupportedFormat::CSV => csv_text(data),
        SupportedFormat::HTML => html_page_text(data),
        SupportedFormat::PlainText => plain_text(data),
    }
}

/// The text of the document in the file of the given name: that of its
/// format, or a fault where the name tells no known format.
pub open spec fn transmuted(filename: Seq<char>, data: Seq<u8>) -> Result<Seq<char>, Fault> {
    match format_of(filename) {
        Some(format) => text_in_format(format, data),
        None => Err(Fault::Unsupported(filename)),
    }
}

/// Whether `r` is the outcome `expected`, the texts taken as plain texts.
pub open spec fn is_outcome(r: Result<String, TransmuteError>, expected: Result<Seq<char>, Fault>) -> bool {
    match r {
        Ok(text) => expected == Ok::<Seq<char>, Fault>(text@),
        Err(e) => expected == Err::<Seq<char>, Fault>(e@),
    }
}

/// Extracts the text of documents.
pub struct DocumentTransmuter;

impl DocumentTransmuter {
    /// Extracts the text of the document `data`, whose format is told by
    /// the extension of `filename`. The documents are read by the parsers
    /// of other crates, of which it is not known that they return on every
    /// malformed input: what is stated holds of every call that returns,
    /// and a panic inside a parser is not excluded.
    pub fn transmute(filename: &str, data: &[u8]) -> (r: Result<String, TransmuteError>)
        ensures
            is_outcome(r, transmuted(filename@, data@)),
    {
        match SupportedFormat::from_filename(filename) {
            None => Err(TransmuteError::Unsupported(String::from_str(filename))),
            Some(SupportedFormat::PDF) => Self::parse_pdf(data),
            Some(SupportedFormat::DOCX) => Self::parse_docx(data),
            Some(SupportedFormat::XLSX) => Self::parse_xlsx(data),
            Some(SupportedFormat::CSV) => Self::parse_csv(data),
            Some(SupportedFormat::HTML) => Self::parse_html(data),
            Some(SupportedFormat::PlainText) => Self::parse_plain(data),
        }
    }

    /// Extracts the text of a PDF document.
    pub fn parse_pdf(data: &[u8]) -> (r: Result<String, TransmuteError>)
        ensures
            is_outcome(r, pdf_text(data@)),
    {
        match pdf_load(data) {
            Ok(doc) => {
                let ghost held = pdf_page_texts(doc);
                let numbers: Vec<u32> = pdf_page_numbers(&doc);
                let mut pages: Vec<Option<String>> = Vec::new();
                let mut i: usize = 0;
                while i < numbers.len()
                    invariant
                        i <= numbers.len(),
                        held == pdf_page_texts(doc),
                        numbers@ == crate::documents::pdf_page_numbers_of(doc),
                        numbers@.len() == held.len(),
                        pages.deep_view() == held.take(i as int),
                    decreases numbers.len() - i,
                {
                    let ghost before = pages.deep_view();
                    let page: Option<String> = pdf_page_text(&doc, numbers[i]);
                    assert(crate::documents::pdf_page_numbers_of(doc)[i as int] == numbers@[i as int]);
                    pages.push(page);
                    i = i + 1;
                    assert(pages.deep_view() =~= before.push(held[i - 1]));
                    assert(pages.deep_view() =~= held.take(i as int));
                }
                assert(held.take(numbers.len() as int) =~= held);
                Ok(chain_texts(&pages, "\n"))
            },
            Err(why) => Err(TransmuteError::Pdf(why)),
        }
    }

    /// Extracts the text of a DOCX document.
    pub fn parse_docx(data: &[u8]) -> (r: Result<String, TransmuteError>)
        ensures
            is_outcome(r, docx_text(data@)),
    {
        match zip_entry(data, "word/document.xml") {
            Ok(xml) => {
                let runs: Vec<Option<String>> = xml_runs(xml.as_str());
                Ok(chain_texts(&runs, " "))
            },
            Err(fault) => Err(TransmuteError::Docx(fault)),
        }
    }

    /// Extracts the text of a workbook.
    pub fn parse_xlsx(data: &[u8]) -> (r: Result<String, TransmuteError>)
        ensures
            is_outcome(r, xlsx_text(data@)),
    {
        match workbook_sheets(data) {
            Ok(sheets) => Ok(sheets_text(&sheets)),
            Err(why) => Err(TransmuteError::Excel(why)),
        }
    }

    /// Extracts the text of a CSV file.
    pub fn parse_csv(data: &[u8]) -> (r: Result<String, TransmuteError>)
        ensures
            is_outcome(r, csv_text(data@)),
    {
        let records: Vec<Option<Vec<String>>> = csv_records(data);
        Ok(records_to_text(&records))
    }

    /// Extracts the text of an HTML page.
    pub fn parse_html(data: &[u8]) -> (r: Result<String, TransmuteError>)
        ensures
            is_outcome(r, html_page_text(data@)),
    {
        match utf8_text(data) {
            None => Err(TransmuteError::HtmlNotUtf8),
            Some(_) => match html_text(data, HTML_WIDTH) {
                Some(text) => Ok(text),
                None => Err(TransmuteError::HtmlFailed),
            },
        }
    }

    /// Reads a plain text.
    pub fn parse_plain(data: &[u8]) -> (r: Result<String, TransmuteError>)
        ensures
            is_outcome(r, plain_text(data@)),
    {
        match utf8_text(data) {
            Some(text) => {
                proof {
                    encode_utf8_decode_utf8(text@);
                }
                Ok(text)
            },
            None => Err(TransmuteError::NotUtf8),
        }
    }
}

} // verus!
