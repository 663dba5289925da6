//! Decisions and text of the print operations: the uniform response, which
//! printers are virtual PDF printers, the raw-socket target a generated
//! queue name stands for, and the test page's language and layout.

use vstd::prelude::*;
use vstd::utf8::encode_utf8;
use crate::text::{
    contains_seq, has_prefix, lower_of, lowercase, parse_u16, parse_u16_spec,
    split_of, split_on, str_contains, str_starts_with, trim, trimmed, views_of, words, words_of,
};

verus! {

/// Uniform answer of an operation: data on success, a message on failure.
pub struct CommandResponse<T> {
    pub success: bool,
    pub data: Option<T>,
    pub error: Option<String>,
}

impl<T> CommandResponse<T> {
    /// A successful answer carrying `data`.
    pub fn success(data: T) -> (r: Self)
        ensures
            r.success,
            r.data == Some(data),
            r.error is None,
    {
        CommandResponse { success: true, data: Some(data), error: None }
    }

    /// A failed answer carrying `message`.
    pub fn error(message: &str) -> (r: Self)
        ensures
            !r.success,
            r.data is None,
            r.error is Some && r.error.unwrap()@ == message@,
    {
        CommandResponse { success: false, data: None, error: Some(String::from_str(message)) }
    }
}

/// A virtual PDF printer: its lower-case name holds `pdf`.
pub open spec fn pdf_printer_spec(name: Seq<char>) -> bool {
    contains_seq(lower_of(name), "pdf"@)
}

/// A spool-directory PDF writer: its lower-case name holds `pdfwriter`.
pub open spec fn pdfwriter_spec(name: Seq<char>) -> bool {
    contains_seq(lower_of(name), "pdfwriter"@)
}

/// Whether the printer is a virtual PDF printer.
pub fn is_pdf_printer(printer_name: &str) -> (r: bool)
    ensures
        r == pdf_printer_spec(printer_name@),
{
    let n = lowercase(printer_name);
    str_contains(n.as_str(), "pdf")
}

/// Whether the printer writes its output into a spool directory.
pub fn is_pdfwriter(printer_name: &str) -> (r: bool)
    ensures
        r == pdfwriter_spec(printer_name@),
{
    let n = lowercase(printer_name);
    str_contains(n.as_str(), "pdfwriter")
}

/// Language code for a trimmed, lower-case language tag: `en` and `fr` by
/// prefix, `es` otherwise.
pub open spec fn language_code_spec(lowered: Seq<char>) -> Seq<char> {
    if has_prefix(lowered, "en"@) {
        "en"@
    } else if has_prefix(lowered, "fr"@) {
        "fr"@
    } else {
        "es"@
    }
}

/// Language code for a trimmed, lower-case language tag.
pub fn language_code(lowered: &str) -> (r: String)
    ensures
        r@ == language_code_spec(lowered@),
{
    if str_starts_with(lowered, "en") {
        String::from_str("en")
    } else if str_starts_with(lowered, "fr") {
        String::from_str("fr")
    } else {
        String::from_str("es")
    }
}

/// The test page's language: the requested tag (Spanish when absent),
/// trimmed and lower-cased, reduced to `en`, `fr` or `es`.
pub fn normalize_language(language: Option<String>) -> (r: String)
    ensures
        r@ == language_code_spec(
            lower_of(
                trim(
                    match language {
                        Some(l) => l@,
                        None => "es"@,
                    },
                ),
            ),
        ),
{
    let raw = match language {
        Some(l) => l,
        None => String::from_str("es"),
    };
    let t = trimmed(raw.as_str());
    let lower = lowercase(t.as_str());
    language_code(lower.as_str())
}

/// The raw-socket target a generated queue name stands for:
/// `Network_Printer_<ip parts>_<port>` gives the parts joined with dots and
/// the port.
pub open spec fn join_dots(ps: Seq<Seq<char>>) -> Seq<char>
    decreases ps.len(),
{
    if ps.len() == 0 {
        seq![]
    } else if ps.len() == 1 {
        ps[0]
    } else {
        join_dots(ps.drop_last()) + "."@ + ps.last()
    }
}

pub open spec fn raw_target_spec(name: Seq<char>) -> Option<(Seq<char>, u16)> {
    let parts = split_on(name, '_');
    if has_prefix(name, "Network_Printer_"@) && parts.len() >= 4 {
        match parse_u16_spec(parts.last()) {
            Some(p) => Some((join_dots(parts.subrange(2, parts.len() - 1)), p)),
            None => None,
        }
    } else {
        None
    }
}

/// Joins `ps[from..to]` with dots.
fn join_range(ps: &Vec<String>, from: usize, to: usize) -> (r: String)
    requires
        from <= to <= ps@.len(),
    ensures
        r@ == join_dots(views_of(ps@).subrange(from as int, to as int)),
{
    let mut r = String::new();
    let mut i: usize = from;
    while i < to
        invariant
            from <= i <= to <= ps@.len(),
            r@ == join_dots(views_of(ps@).subrange(from as int, i as int)),
        decreases to - i,
    {
        let ghost prev = views_of(ps@).subrange(from as int, i as int);
        if i > from {
            r.append(".");
        }
        r.append(ps[i].as_str());
        i = i + 1;
        proof {
            let cur = views_of(ps@).subrange(from as int, i as int);
            assert(cur.drop_last() =~= prev);
            assert(cur.last() == ps@[i - 1]@);
            if prev.len() == 0 {
                assert(r@ =~= join_dots(cur));
            }
        }
    }
    r
}

/// The IP address and port a generated network queue name stands for.
pub fn raw_target_of(printer_name: &str) -> (r: Option<(String, u16)>)
    ensures
        match raw_target_spec(printer_name@) {
            Some((ip, p)) => r matches Some(t) && t.0@ == ip && t.1 == p,
            None => r is None,
        },
{
    if !str_starts_with(printer_name, "Network_Printer_") {
        return None;
    }
    let parts = split_of(printer_name, '_');
    if parts.len() < 4 {
        return None;
    }
    let n = parts.len();
    assert(views_of(parts@).last() == parts@[n - 1]@);
    match parse_u16(parts[n - 1].as_str()) {
        Some(p) => {
            let ip = join_range(&parts, 2, n - 1);
            Some((ip, p))
        },
        None => None,
    }
}

/// Text of the test page for one language.
pub struct TestPageText {
    pub header_title: String,
    pub header_status: String,
    pub label_app: String,
    pub label_install_status: String,
    pub install_ok: String,
    pub label_verification: String,
    pub verification_ok: String,
    pub paragraph: String,
    pub section_details: String,
    pub label_print_type: String,
    pub label_printer: String,
    pub label_profile: String,
    pub label_paper: String,
    pub label_size: String,
    pub label_date: String,
    pub label_time: String,
    pub label_os: String,
    pub print_type_roll: String,
    pub print_type_sheet: String,
}

} // verus!

verus! {
/// Test page text in English, field by field.
pub open spec fn page_text_en() -> Seq<Seq<char>> {
    seq![
        "Print Test - ISIPRINT"@,
        "INSTALLATION OK"@,
        "Application"@,
        "Installation Status"@,
        "Completed successfully"@,
        "System Verification"@,
        "Successful"@,
        "An automatic test print will now be performed to confirm that the system works correctly according to the selected configuration."@,
        "Test Details"@,
        "Print Type"@,
        "Printer"@,
        "Profile"@,
        "Paper"@,
        "Size"@,
        "Date"@,
        "Time"@,
        "OS"@,
        "Roll format"@,
        "Sheet format"@,
    ]
}

/// Test page text in French, field by field.
pub open spec fn page_text_fr() -> Seq<Seq<char>> {
    seq![
        "Test d'impression - ISIPRINT"@,
        "INSTALLATION OK"@,
        "Application"@,
        "\u{00C9}tat de l'installation"@,
        "Termin\u{00E9}e avec succ\u{00E8}s"@,
        "V\u{00E9}rification du syst\u{00E8}me"@,
        "R\u{00E9}ussie"@,
        "Une impression de test automatique va \u{00EA}tre effectu\u{00E9}e afin de confirmer que le syst\u{00E8}me fonctionne correctement selon la configuration s\u{00E9}lectionn\u{00E9}e."@,
        "D\u{00E9}tails du test"@,
        "Type d'impression"@,
        "Imprimante"@,
        "Profil"@,
        "Papier"@,
        "Taille"@,
        "Date"@,
        "Heure"@,
        "OS"@,
        "Format rouleau"@,
        "Format feuille"@,
    ]
}

/// Test page text in Spanish, field by field.
pub open spec fn page_text_es() -> Seq<Seq<char>> {
    seq![
        "Prueba de Impresi\u{00F3}n - ISIPRINT"@,
        "INSTALACION CORRECTA"@,
        "Aplicaci\u{00F3}n"@,
        "Estado de Instalaci\u{00F3}n"@,
        "Completada con \u{00E9}xito"@,
        "Verificaci\u{00F3}n de Funcionamiento"@,
        "Exitosa"@,
        "A continuaci\u{00F3}n se realizar\u{00E1} una prueba de impresi\u{00F3}n autom\u{00E1}tica para confirmar que el sistema funciona correctamente seg\u{00FA}n la configuraci\u{00F3}n seleccionada."@,
        "Detalles de la Prueba"@,
        "Tipo de Impresi\u{00F3}n"@,
        "Impresora"@,
        "Perfil"@,
        "Papel"@,
        "Tama\u{00F1}o"@,
        "Fecha"@,
        "Hora"@,
        "SO"@,
        "Formato Rollo"@,
        "Formato Hoja"@,
    ]
}

/// The test page text for a language code: English, French, or Spanish
/// for any other code.
pub open spec fn page_text_table(lang: Seq<char>) -> Seq<Seq<char>> {
    if lang == "en"@ {
        page_text_en()
    } else if lang == "fr"@ {
        page_text_fr()
    } else {
        page_text_es()
    }
}

impl TestPageText {
    /// The fields in declaration order.
    pub open spec fn fields(&self) -> Seq<Seq<char>> {
        seq![
            self.header_title@,
            self.header_status@,
            self.label_app@,
            self.label_install_status@,
            self.install_ok@,
            self.label_verification@,
            self.verification_ok@,
            self.paragraph@,
            self.section_details@,
            self.label_print_type@,
            self.label_printer@,
            self.label_profile@,
            self.label_paper@,
            self.label_size@,
            self.label_date@,
            self.label_time@,
            self.label_os@,
            self.print_type_roll@,
            self.print_type_sheet@,
        ]
    }
}

fn text_en() -> (r: TestPageText)
    ensures
        r.fields() == page_text_en(),
{
    let r = TestPageText {
        header_title: String::from_str("Print Test - ISIPRINT"),
        header_status: String::from_str("INSTALLATION OK"),
        label_app: String::from_str("Application"),
        label_install_status: String::from_str("Installation Status"),
        install_ok: String::from_str("Completed successfully"),
        label_verification: String::from_str("System Verification"),
        verification_ok: String::from_str("Successful"),
        paragraph: String::from_str("An automatic test print will now be performed to confirm that the system works correctly according to the selected configuration."),
        section_details: String::from_str("Test Details"),
        label_print_type: String::from_str("Print Type"),
        label_printer: String::from_str("Printer"),
        label_profile: String::from_str("Profile"),
        label_paper: String::from_str("Paper"),
        label_size: String::from_str("Size"),
        label_date: String::from_str("Date"),
        label_time: String::from_str("Time"),
        label_os: String::from_str("OS"),
        print_type_roll: String::from_str("Roll format"),
        print_type_sheet: String::from_str("Sheet format"),
    };
    assert(r.fields() =~= page_text_en());
    r
}

fn text_fr() -> (r: TestPageText)
    ensures
        r.fields() == page_text_fr(),
{
    let r = TestPageText {
        header_title: String::from_str("Test d'impression - ISIPRINT"),
        header_status: String::from_str("INSTALLATION OK"),
        label_app: String::from_str("Application"),
        label_install_status: String::from_str("\u{00C9}tat de l'installation"),
        install_ok: String::from_str("Termin\u{00E9}e avec succ\u{00E8}s"),
        label_verification: String::from_str("V\u{00E9}rification du syst\u{00E8}me"),
        verification_ok: String::from_str("R\u{00E9}ussie"),
        paragraph: String::from_str("Une impression de test automatique va \u{00EA}tre effectu\u{00E9}e afin de confirmer que le syst\u{00E8}me fonctionne correctement selon la configuration s\u{00E9}lectionn\u{00E9}e."),
        section_details: String::from_str("D\u{00E9}tails du test"),
        label_print_type: String::from_str("Type d'impression"),
        label_printer: String::from_str("Imprimante"),
        label_profile: String::from_str("Profil"),
        label_paper: String::from_str("Papier"),
        label_size: String::from_str("Taille"),
        label_date: String::from_str("Date"),
        label_time: String::from_str("Heure"),
        label_os: String::from_str("OS"),
        print_type_roll: String::from_str("Format rouleau"),
        print_type_sheet: String::from_str("Format feuille"),
    };
    assert(r.fields() =~= page_text_fr());
    r
}

fn text_es() -> (r: TestPageText)
    ensures
        r.fields() == page_text_es(),
{
    let r = TestPageText {
        header_title: String::from_str("Prueba de Impresi\u{00F3}n - ISIPRINT"),
        header_status: String::from_str("INSTALACION CORRECTA"),
        label_app: String::from_str("Aplicaci\u{00F3}n"),
        label_install_status: String::from_str("Estado de Instalaci\u{00F3}n"),
        install_ok: String::from_str("Completada con \u{00E9}xito"),
        label_verification: String::from_str("Verificaci\u{00F3}n de Funcionamiento"),
        verification_ok: String::from_str("Exitosa"),
        paragraph: String::from_str("A continuaci\u{00F3}n se realizar\u{00E1} una prueba de impresi\u{00F3}n autom\u{00E1}tica para confirmar que el sistema funciona correctamente seg\u{00FA}n la configuraci\u{00F3}n seleccionada."),
        section_details: String::from_str("Detalles de la Prueba"),
        label_print_type: String::from_str("Tipo de Impresi\u{00F3}n"),
        label_printer: String::from_str("Impresora"),
        label_profile: String::from_str("Perfil"),
        label_paper: String::from_str("Papel"),
        label_size: String::from_str("Tama\u{00F1}o"),
        label_date: String::from_str("Fecha"),
        label_time: String::from_str("Hora"),
        label_os: String::from_str("SO"),
        print_type_roll: String::from_str("Formato Rollo"),
        print_type_sheet: String::from_str("Formato Hoja"),
    };
    assert(r.fields() =~= page_text_es());
    r
}

/// The test page text for a language code.
pub fn test_page_text(lang: &str) -> (r: TestPageText)
    ensures
        r.fields() == page_text_table(lang@),
{
    if crate::text::str_equals(lang, "en") {
        text_en()
    } else if crate::text::str_equals(lang, "fr") {
        text_fr()
    } else {
        text_es()
    }
}

} // verus!

verus! {

/// Length of a string in UTF-8 bytes, as `str::len` counts it.
pub open spec fn byte_len(s: Seq<char>) -> int {
    (encode_utf8(s).len() as usize) as int
}

/// `text` preceded by half the room left in `width` bytes, as spaces.
pub open spec fn center_spec(text: Seq<char>, width: int) -> Seq<char> {
    if byte_len(text) >= width {
        text
    } else {
        Seq::new(((width - byte_len(text)) / 2) as nat, |i: int| ' ') + text
    }
}

/// Centers `text` in a line of `width` bytes.
pub fn center_line(text: &str, width: usize) -> (r: String)
    ensures
        r@ == center_spec(text@, width as int),
{
    let n = text.len();
    if n >= width {
        return String::from_str(text);
    }
    let pad = (width - n) / 2;
    let mut r = String::new();
    let mut i: usize = 0;
    while i < pad
        invariant
            i <= pad,
            r@ == Seq::new(i as nat, |k: int| ' '),
        decreases pad - i,
    {
        proof {
            reveal_strlit(" ");
        }
        r.append(" ");
        i = i + 1;
        assert(r@ =~= Seq::new(i as nat, |k: int| ' '));
    }
    r.append(text);
    r
}

/// Greedy filling of lines with the words `ws[..k]`: the lines completed
/// and the line being filled. A word starts a new line when adding it (and a
/// separating space) would pass `width` bytes.
pub open spec fn wrap_acc(ws: Seq<Seq<char>>, k: nat, width: int) -> (Seq<Seq<char>>, Seq<char>)
    decreases k,
{
    if k == 0 || k > ws.len() {
        (seq![], seq![])
    } else {
        let (out, line) = wrap_acc(ws, (k - 1) as nat, width);
        let w = ws[k - 1];
        let sep: int = if line.len() == 0 {
            0
        } else {
            1
        };
        let (out2, line2) = if byte_len(line) + sep + byte_len(w) > width && line.len() > 0 {
            (out.push(line), seq![])
        } else {
            (out, line)
        };
        (
            out2,
            if line2.len() == 0 {
                w
            } else {
                line2 + seq![' '] + w
            },
        )
    }
}

/// The lines of `text` wrapped at `width` bytes.
pub open spec fn wrap_spec(text: Seq<char>, width: int) -> Seq<Seq<char>> {
    let ws = words(text);
    let (out, line) = wrap_acc(ws, ws.len(), width);
    if line.len() > 0 {
        out.push(line)
    } else {
        out
    }
}

/// Wraps the words of `text` into lines of at most `width` bytes (a longer
/// word stands alone on its line).
pub fn wrap_text_to_width(text: &str, width: usize) -> (r: Vec<String>)
    ensures
        views_of(r@) == wrap_spec(text@, width as int),
{
    let ws = words_of(text);
    let mut out: Vec<String> = Vec::new();
    let mut line = String::new();
    let mut i: usize = 0;
    while i < ws.len()
        invariant
            views_of(ws@) == words(text@),
            i <= ws@.len(),
            wrap_acc(words(text@), i as nat, width as int) == (views_of(out@), line@),
        decreases ws@.len() - i,
    {
        proof {
            reveal_strlit(" ");
        }
        let w = ws[i].as_str();
        assert(views_of(ws@)[i as int] == w@);
        let lb = line.as_str().len();
        let wb = w.len();
        let empty = line.as_str().is_empty();
        let sep: u128 = if empty {
            0
        } else {
            1
        };
        let ghost out0 = views_of(out@);
        let ghost line0 = line@;
        if (lb as u128) + sep + (wb as u128) > (width as u128) && !empty {
            out.push(line);
            assert(views_of(out@) =~= out0.push(line0));
            line = String::new();
        }
        if !line.as_str().is_empty() {
            line.append(" ");
        }
        line.append(w);
        proof {
            let sep_i: int = if line0.len() == 0 {
                0
            } else {
                1
            };
            let (o2, l2) = if byte_len(line0) + sep_i + byte_len(w@) > width as int && line0.len() > 0 {
                (out0.push(line0), Seq::<char>::empty())
            } else {
                (out0, line0)
            };
            assert(l2.len() == 0 ==> line@ =~= w@);
            assert(l2.len() != 0 ==> line@ =~= l2 + seq![' '] + w@);
            assert(wrap_acc(words(text@), (i + 1) as nat, width as int) == (
                o2,
                if l2.len() == 0 {
                    w@
                } else {
                    l2 + seq![' '] + w@
                },
            ));
        }
        i = i + 1;
    }
    if !line.as_str().is_empty() {
        let ghost out0 = views_of(out@);
        let ghost line0 = line@;
        out.push(line);
        assert(views_of(out@) =~= out0.push(line0));
    }
    out
}

} // verus!

verus! {

/// `n` copies of `c`.
pub open spec fn repeat_char(c: char, n: nat) -> Seq<char> {
    Seq::new(n, |i: int| c)
}

/// `-<label>: <value>`.
pub open spec fn detail_text(label: Seq<char>, value: Seq<char>) -> Seq<char> {
    "-"@ + label + ": "@ + value
}

/// `<label>: <value>`.
pub open spec fn field_text(label: Seq<char>, value: Seq<char>) -> Seq<char> {
    label + ": "@ + value
}

/// Values shown in the test page's details.
pub struct PageDetails {
    pub printer_name: String,
    pub preset: String,
    pub media: String,
    pub size: String,
    pub date: String,
    pub time: String,
    pub os: String,
}

/// The lines of the test page, `cols` bytes wide: a centered header between
/// dividers, the installation summary, the wrapped paragraph, and the
/// wrapped details between dividers.
pub open spec fn page_lines_spec(t: TestPageText, cols: int, d: PageDetails) -> Seq<Seq<char>> {
    let div = repeat_char('=', cols as nat);
    let print_type = if lower_of(d.preset@) == "thermal"@ {
        t.print_type_roll@
    } else {
        t.print_type_sheet@
    };
    seq![
        div,
        center_spec(t.header_title@, cols),
        center_spec(t.header_status@, cols),
        div,
        seq![],
        field_text(t.label_app@, "ISIPRINT"@),
        field_text(t.label_install_status@, t.install_ok@),
        field_text(t.label_verification@, t.verification_ok@),
        seq![],
    ] + wrap_spec(t.paragraph@, cols) + seq![
        seq![],
        div,
        center_spec(t.section_details@, cols),
        div,
        seq![],
    ] + wrap_spec(detail_text(t.label_print_type@, print_type), cols) + wrap_spec(
        detail_text(t.label_printer@, d.printer_name@),
        cols,
    ) + wrap_spec(detail_text(t.label_profile@, d.preset@), cols) + wrap_spec(
        detail_text(t.label_paper@, d.media@),
        cols,
    ) + wrap_spec(detail_text(t.label_size@, d.size@), cols) + wrap_spec(
        detail_text(t.label_date@, d.date@),
        cols,
    ) + wrap_spec(detail_text(t.label_time@, d.time@), cols) + wrap_spec(
        detail_text(t.label_os@, d.os@),
        cols,
    ) + seq![seq![], div]
}

fn push_all(out: &mut Vec<String>, more: Vec<String>)
    ensures
        views_of(final(out)@) == views_of(old(out)@) + views_of(more@),
{
    let mut i: usize = 0;
    while i < more.len()
        invariant
            i <= more@.len(),
            views_of(out@) == views_of(old(out)@) + views_of(more@.subrange(0, i as int)),
        decreases more@.len() - i,
    {
        let ghost before = views_of(out@);
        out.push(more[i].clone());
        i = i + 1;
        assert(views_of(out@) =~= before.push(more@[i - 1]@));
        assert(views_of(more@.subrange(0, i as int)) =~= views_of(more@.subrange(0, i - 1)).push(
            more@[i - 1]@,
        ));
    }
    assert(more@.subrange(0, more@.len() as int) =~= more@);
}

fn push_one(out: &mut Vec<String>, s: String)
    ensures
        views_of(final(out)@) == views_of(old(out)@).push(s@),
{
    let ghost before = views_of(out@);
    out.push(s);
    assert(views_of(out@) =~= before.push(s@));
}

fn divider(cols: usize) -> (r: String)
    ensures
        r@ == repeat_char('=', cols as nat),
{
    let mut r = String::new();
    let mut i: usize = 0;
    while i < cols
        invariant
            i <= cols,
            r@ == repeat_char('=', i as nat),
        decreases cols - i,
    {
        proof {
            reveal_strlit("=");
        }
        r.append("=");
        i = i + 1;
        assert(r@ =~= repeat_char('=', i as nat));
    }
    r
}

fn detail(label: &str, value: &str) -> (r: String)
    ensures
        r@ == detail_text(label@, value@),
{
    let mut s = String::from_str("-");
    s.append(label);
    s.append(": ");
    s.append(value);
    s
}

fn field(label: &str, value: &str) -> (r: String)
    ensures
        r@ == field_text(label@, value@),
{
    let mut s = String::from_str(label);
    s.append(": ");
    s.append(value);
    s
}

/// Lays out the test page's lines for a page `cols` bytes wide.
#[verifier::rlimit(80)]
pub fn test_page_lines(t: &TestPageText, cols: usize, d: &PageDetails) -> (r: Vec<String>)
    ensures
        views_of(r@) == page_lines_spec(*t, cols as int, *d),
{
    let div = divider(cols);
    let thermal = {
        let l = lowercase(d.preset.as_str());
        crate::text::str_equals(l.as_str(), "thermal")
    };
    let print_type = if thermal {
        t.print_type_roll.as_str()
    } else {
        t.print_type_sheet.as_str()
    };
    let mut out: Vec<String> = Vec::new();
    push_one(&mut out, div.clone());
    push_one(&mut out, center_line(t.header_title.as_str(), cols));
    push_one(&mut out, center_line(t.header_status.as_str(), cols));
    push_one(&mut out, div.clone());
    push_one(&mut out, String::new());
    push_one(&mut out, field(t.label_app.as_str(), "ISIPRINT"));
    push_one(&mut out, field(t.label_install_status.as_str(), t.install_ok.as_str()));
    push_one(&mut out, field(t.label_verification.as_str(), t.verification_ok.as_str()));
    push_one(&mut out, String::new());
    push_all(&mut out, wrap_text_to_width(t.paragraph.as_str(), cols));
    push_one(&mut out, String::new());
    push_one(&mut out, div.clone());
    push_one(&mut out, center_line(t.section_details.as_str(), cols));
    push_one(&mut out, div.clone());
    push_one(&mut out, String::new());
    push_all(&mut out, wrap_text_to_width(detail(t.label_print_type.as_str(), print_type).as_str(), cols));
    push_all(&mut out, wrap_text_to_width(detail(t.label_printer.as_str(), d.printer_name.as_str()).as_str(), cols));
    push_all(&mut out, wrap_text_to_width(detail(t.label_profile.as_str(), d.preset.as_str()).as_str(), cols));
    push_all(&mut out, wrap_text_to_width(detail(t.label_paper.as_str(), d.media.as_str()).as_str(), cols));
    push_all(&mut out, wrap_text_to_width(detail(t.label_size.as_str(), d.size.as_str()).as_str(), cols));
    push_all(&mut out, wrap_text_to_width(detail(t.label_date.as_str(), d.date.as_str()).as_str(), cols));
    push_all(&mut out, wrap_text_to_width(detail(t.label_time.as_str(), d.time.as_str()).as_str(), cols));
    push_all(&mut out, wrap_text_to_width(detail(t.label_os.as_str(), d.os.as_str()).as_str(), cols));
    push_one(&mut out, String::new());
    push_one(&mut out, div);
    proof {
        reveal_strlit("");
    }
    assert(views_of(out@) =~= page_lines_spec(*t, cols as int, *d));
    out
}

} // verus!
