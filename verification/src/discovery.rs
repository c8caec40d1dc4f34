//! Parsing of printer discovery responses.
//!
//! Printers answer a UDP probe with free-form text: either JSON-like
//! key/value pairs or SSDP-style header lines. Parsing is an ordered chain of
//! extraction strategies, each applied only while a field is still unset:
//! a key scan, a header-line scan, name synthesis, and model-code
//! translation. The socket work lives in the embedding application; this
//! module turns one received datagram into one printer record.

use vstd::prelude::*;
use vstd::string::StrSliceExecFns;
use vstd::utf8::{decode_utf8, valid_utf8};
use crate::wifi::WifiState;
use crate::text::{
    append_str, append_vec, chars_of, eq_str, find_char, find_sub, lemma_find_char_range,
    prefix_ci, slice_range, spec_find_char, spec_find_sub, spec_trim, starts_with,
    starts_with_ci, starts_with_exact, string_of, string_of_range, trim,
};

verus! {

/// One discovered printer, with every field present (synthesized when the
/// response itself did not carry it).
pub struct PrinterRecord {
    /// Human-readable printer name.
    pub name: String,
    /// Serial number.
    pub serial: String,
    /// Source address of the response, port stripped.
    pub ip: String,
    /// Model name after code translation.
    pub model: String,
}

/// The mathematical shadow of a `PrinterRecord`.
#[verifier::ext_equal]
pub ghost struct PrinterRecordModel {
    pub name: Seq<char>,
    pub serial: Seq<char>,
    pub ip: Seq<char>,
    pub model: Seq<char>,
}

impl View for PrinterRecord {
    type V = PrinterRecordModel;

    open spec fn view(&self) -> PrinterRecordModel {
        PrinterRecordModel {
            name: self.name@,
            serial: self.serial@,
            ip: self.ip@,
            model: self.model@,
        }
    }
}

/// The number of characters a quoted value occupies starting at `i`: scanning
/// stops before an unescaped quote; a backslash skips the following
/// character; an unterminated value runs to the end of the text.
pub open spec fn spec_value_len_at(s: Seq<char>, i: int) -> int
    decreases s.len() - i,
{
    if i < 0 || i >= s.len() {
        0
    } else if s[i] == '"' {
        0
    } else if s[i] == '\\' {
        if i + 2 <= s.len() {
            2 + spec_value_len_at(s, i + 2)
        } else {
            1
        }
    } else {
        1 + spec_value_len_at(s, i + 1)
    }
}

proof fn lemma_value_len_bound(s: Seq<char>, i: int)
    requires
        0 <= i <= s.len(),
    ensures
        i + spec_value_len_at(s, i) <= s.len(),
        spec_value_len_at(s, i) >= 0,
    decreases s.len() - i,
{
    if i < s.len() && s[i] == '\\' && i + 2 <= s.len() {
        lemma_value_len_bound(s, i + 2);
    } else if i < s.len() && s[i] != '"' && s[i] != '\\' {
        lemma_value_len_bound(s, i + 1);
    }
}

/// Measures a quoted value beginning at `start`.
fn value_len_at(v: &Vec<char>, start: usize) -> (n: usize)
    requires
        start <= v@.len(),
    ensures
        n == spec_value_len_at(v@, start as int),
        start + n <= v@.len(),
    decreases v@.len() - start,
{
    proof {
        lemma_value_len_bound(v@, start as int);
    }
    if start >= v.len() {
        0
    } else if v[start] == '"' {
        0
    } else if v[start] == '\\' {
        if v.len() - start >= 2 {
            let m = value_len_at(v, start + 2);
            2 + m
        } else {
            1
        }
    } else {
        1 + value_len_at(v, start + 1)
    }
}

/// The quoted string value of a JSON-like `"key": "value"` fragment whose key
/// occurs at `from`: the text after the first colon and its first following
/// quote, up to the closing quote. `None` when no colon or no opening quote
/// follows, or when the value is empty without a closing quote right there.
pub open spec fn spec_extract_value_at(s: Seq<char>, from: int) -> Option<Seq<char>> {
    match spec_find_char(s, ':', from) {
        None => None,
        Some(cp) => match spec_find_char(s, '"', cp + 1) {
            None => None,
            Some(qp) => {
                let n = spec_value_len_at(s, qp + 1);
                if n > 0 || (qp + 1 < s.len() && s[qp + 1] == '"') {
                    Some(s.subrange(qp + 1, qp + 1 + n))
                } else {
                    None
                }
            },
        },
    }
}

/// Extracts a quoted value, returned as its range `[lo, hi)` within `v`.
fn extract_value_range(v: &Vec<char>, from: usize) -> (r: Option<(usize, usize)>)
    requires
        from <= v@.len(),
    ensures
        r matches Some(p) ==> p.0 <= p.1 <= v@.len() && spec_extract_value_at(v@, from as int)
            == Some(v@.subrange(p.0 as int, p.1 as int)),
        r is None ==> spec_extract_value_at(v@, from as int) is None,
{
    let vlen = v.len();
    match find_char(v, ':', from) {
        None => None,
        Some(cp) => {
            assert(cp < vlen);
            match find_char(v, '"', cp + 1) {
                None => None,
                Some(qp) => {
                    assert(qp < vlen);
                    let n = value_len_at(v, qp + 1);
                    if n > 0 || (qp + 1 < v.len() && v[qp + 1] == '"') {
                        Some((qp + 1, qp + 1 + n))
                    } else {
                        None
                    }
                },
            }
        },
    }
}

/// The value of the first occurrence of `key`, when that value is non-empty:
/// the key-scan layer tries one key and keeps only non-empty values.
pub open spec fn spec_json_field(s: Seq<char>, key: Seq<char>) -> Option<Seq<char>> {
    match spec_find_sub(s, key, 0) {
        None => None,
        Some(pos) => match spec_extract_value_at(s, pos) {
            None => None,
            Some(val) => if val.len() > 0 {
                Some(val)
            } else {
                None
            },
        },
    }
}

/// Looks one key up, yielding its non-empty quoted value if present.
fn json_field(v: &Vec<char>, key: &str) -> (r: Option<(usize, usize)>)
    ensures
        r matches Some(p) ==> p.0 <= p.1 <= v@.len() && spec_json_field(v@, key@)
            == Some(v@.subrange(p.0 as int, p.1 as int)) && p.0 < p.1,
        r is None ==> spec_json_field(v@, key@) is None,
{
    match find_sub(v, key, 0) {
        None => None,
        Some(pos) => {
            match extract_value_range(v, pos) {
                None => None,
                Some((lo, hi)) => {
                    if lo < hi {
                        Some((lo, hi))
                    } else {
                        proof {
                            assert(v@.subrange(lo as int, hi as int).len() == 0);
                        }
                        None
                    }
                },
            }
        },
    }
}

/// The serial, model and name fields while a response is being parsed; an
/// empty sequence means the field is still unset.
#[verifier::ext_equal]
pub ghost struct Fields {
    pub serial: Seq<char>,
    pub model: Seq<char>,
    pub name: Seq<char>,
}

/// The executable carrier of the three fields during parsing.
struct FieldVecs {
    serial: Vec<char>,
    model: Vec<char>,
    name: Vec<char>,
}

impl View for FieldVecs {
    type V = Fields;

    closed spec fn view(&self) -> Fields {
        Fields { serial: self.serial@, model: self.model@, name: self.name@ }
    }
}

/// The serial carried by a `USN:` header value: an optional `uuid:` prefix is
/// stripped and the rest truncated at the first `::`; otherwise the value is
/// taken as the raw serial.
pub open spec fn spec_usn_serial(usn: Seq<char>) -> Seq<char> {
    if starts_with(usn, "uuid:"@) {
        let rest = usn.subrange(5, usn.len() as int);
        match spec_find_sub(rest, "::"@, 0) {
            Some(e) => rest.subrange(0, e),
            None => rest,
        }
    } else {
        usn
    }
}

/// The position just past the first colon of a line, or 1 when the line has
/// no colon (the fallback headers always carry one).
pub open spec fn spec_after_colon(line: Seq<char>) -> int {
    match spec_find_char(line, ':', 0) {
        Some(p) => p + 1,
        None => 1,
    }
}

/// One trimmed header line applied to the fields, each rule firing only while
/// its field is still unset: `USN:` (any letter case) gives the serial;
/// `DevModel.bambu.com:` and `DevName.bambu.com:` (exact case) give model and
/// name; `MODEL:`/`X-MODEL:` and `FRIENDLY-NAME:`/`X-FRIENDLY-NAME:` (any
/// letter case) are fallbacks for model and name.
pub open spec fn spec_header_line(line: Seq<char>, f: Fields) -> Fields {
    let f1 = if prefix_ci(line, "USN:"@) && f.serial.len() == 0 {
        Fields {
            serial: spec_usn_serial(spec_trim(line.subrange(4, line.len() as int))),
            model: f.model,
            name: f.name,
        }
    } else {
        f
    };
    let f2 = if starts_with(line, "DevModel.bambu.com:"@) && f1.model.len() == 0 {
        Fields {
            serial: f1.serial,
            model: spec_trim(line.subrange(19, line.len() as int)),
            name: f1.name,
        }
    } else {
        f1
    };
    let f3 = if starts_with(line, "DevName.bambu.com:"@) && f2.name.len() == 0 {
        Fields {
            serial: f2.serial,
            model: f2.model,
            name: spec_trim(line.subrange(18, line.len() as int)),
        }
    } else {
        f2
    };
    let f4 = if (prefix_ci(line, "MODEL:"@) || prefix_ci(line, "X-MODEL:"@)) && f3.model.len()
        == 0 {
        Fields {
            serial: f3.serial,
            model: spec_trim(line.subrange(spec_after_colon(line), line.len() as int)),
            name: f3.name,
        }
    } else {
        f3
    };
    if (prefix_ci(line, "FRIENDLY-NAME:"@) || prefix_ci(line, "X-FRIENDLY-NAME:"@))
        && f4.name.len() == 0 {
        Fields {
            serial: f4.serial,
            model: f4.model,
            name: spec_trim(line.subrange(spec_after_colon(line), line.len() as int)),
        }
    } else {
        f4
    }
}

/// The rest of a line from just past its first colon, trimmed.
fn after_colon_trimmed(line: &Vec<char>) -> (r: Vec<char>)
    requires
        line@.len() >= 1,
    ensures
        r@ == spec_trim(line@.subrange(spec_after_colon(line@), line@.len() as int)),
{
    let n = line.len();
    let cp: usize = match find_char(line, ':', 0) {
        Some(p) => {
            proof {
                lemma_find_char_range(line@, ':', 0);
            }
            assert(p < n);
            p
        },
        None => 0,
    };
    let rest = slice_range(line, cp + 1, n);
    trim(&rest)
}

/// Applies one trimmed header line to the fields.
fn apply_header_line(line: &Vec<char>, f: FieldVecs) -> (r: FieldVecs)
    ensures
        r@ == spec_header_line(line@, f@),
{
    proof {
        reveal_strlit("USN:");
        reveal_strlit("uuid:");
        reveal_strlit("DevModel.bambu.com:");
        reveal_strlit("DevName.bambu.com:");
        reveal_strlit("MODEL:");
        reveal_strlit("X-MODEL:");
        reveal_strlit("FRIENDLY-NAME:");
        reveal_strlit("X-FRIENDLY-NAME:");
    }
    let mut f = f;
    if starts_with_ci(line, "USN:") && f.serial.len() == 0 {
        let rest = slice_range(line, 4, line.len());
        let usn = trim(&rest);
        if starts_with_exact(&usn, "uuid:") {
            let tail = slice_range(&usn, 5, usn.len());
            match find_sub(&tail, "::", 0) {
                Some(e) => {
                    f.serial = slice_range(&tail, 0, e);
                },
                None => {
                    f.serial = tail;
                },
            }
        } else {
            f.serial = usn;
        }
    }
    if starts_with_exact(line, "DevModel.bambu.com:") && f.model.len() == 0 {
        let rest = slice_range(line, 19, line.len());
        f.model = trim(&rest);
    }
    if starts_with_exact(line, "DevName.bambu.com:") && f.name.len() == 0 {
        let rest = slice_range(line, 18, line.len());
        f.name = trim(&rest);
    }
    if (starts_with_ci(line, "MODEL:") || starts_with_ci(line, "X-MODEL:")) && f.model.len()
        == 0 {
        f.model = after_colon_trimmed(line);
    }
    if (starts_with_ci(line, "FRIENDLY-NAME:") || starts_with_ci(line, "X-FRIENDLY-NAME:"))
        && f.name.len() == 0 {
        f.name = after_colon_trimmed(line);
    }
    f
}

/// The header-line scan: the text is split on line feeds, each line trimmed
/// and applied to the fields in order.
pub open spec fn spec_scan_headers(s: Seq<char>, i: int, f: Fields) -> Fields
    decreases s.len() - i,
    via spec_scan_headers_decreases
{
    if i < 0 || i > s.len() {
        f
    } else {
        match spec_find_char(s, '\n', i) {
            Some(p) => spec_scan_headers(s, p + 1, spec_header_line(spec_trim(s.subrange(i, p)), f)),
            None => spec_header_line(spec_trim(s.subrange(i, s.len() as int)), f),
        }
    }
}

#[via_fn]
proof fn spec_scan_headers_decreases(s: Seq<char>, i: int, f: Fields) {
    if 0 <= i <= s.len() && spec_find_char(s, '\n', i) is Some {
        lemma_find_char_range(s, '\n', i);
    }
}

/// Runs the header-line scan over the whole text.
fn scan_headers(v: &Vec<char>, f0: FieldVecs) -> (r: FieldVecs)
    ensures
        r@ == spec_scan_headers(v@, 0, f0@),
{
    let ghost forig = f0@;
    let n = v.len();
    let mut f = f0;
    let mut i: usize = 0;
    loop
        invariant
            i <= n,
            n == v@.len(),
            forig == f0@,
            spec_scan_headers(v@, 0, forig) == spec_scan_headers(v@, i as int, f@),
        decreases v@.len() - i,
    {
        match find_char(v, '\n', i) {
            Some(p) => {
                proof {
                    lemma_find_char_range(v@, '\n', i as int);
                }
                assert(i <= p < n);
                let raw = slice_range(v, i, p);
                let line = trim(&raw);
                f = apply_header_line(&line, f);
                i = p + 1;
            },
            None => {
                let raw = slice_range(v, i, n);
                let line = trim(&raw);
                proof {
                    assert(spec_scan_headers(v@, i as int, f@) == spec_header_line(
                        spec_trim(v@.subrange(i as int, v@.len() as int)),
                        f@,
                    ));
                }
                f = apply_header_line(&line, f);
                return f;
            },
        }
    }
}

/// The last six characters of a serial number, or all of it when shorter.
pub open spec fn spec_last6(s: Seq<char>) -> Seq<char> {
    s.subrange(if s.len() > 6 { s.len() - 6 } else { 0 }, s.len() as int)
}

/// Extracts the short form of a serial.
fn last6(s: &Vec<char>) -> (r: Vec<char>)
    ensures
        r@ == spec_last6(s@),
{
    let n = s.len();
    let lo: usize = if n > 6 {
        n - 6
    } else {
        0
    };
    slice_range(s, lo, n)
}

/// A name for a printer whose response carried none: built from the
/// translated model and the short serial, from the translated model and the
/// address, from the short serial alone, or as a generic placeholder naming
/// only the address. The branching follows which fields the response itself
/// carried (`serial`, and `model` as the untranslated code), while the name
/// displays the translated model text.
pub open spec fn spec_synth_name(
    name: Seq<char>,
    serial: Seq<char>,
    model: Seq<char>,
    shown_model: Seq<char>,
    ip: Seq<char>,
) -> Seq<char> {
    if name.len() > 0 {
        name
    } else if serial.len() > 0 && model.len() > 0 {
        shown_model + " ("@ + spec_last6(serial) + ")"@
    } else if model.len() > 0 {
        shown_model + " at "@ + ip
    } else if serial.len() > 0 {
        "Printer "@ + spec_last6(serial)
    } else {
        "Bambu Printer at "@ + ip
    }
}

/// Synthesizes the printer name when the response carried none.
fn synth_name(
    name: Vec<char>,
    serial: &Vec<char>,
    model: &Vec<char>,
    shown_model: &Vec<char>,
    ip: &Vec<char>,
) -> (r: Vec<char>)
    ensures
        r@ == spec_synth_name(name@, serial@, model@, shown_model@, ip@),
{
    if name.len() > 0 {
        name
    } else if serial.len() > 0 && model.len() > 0 {
        let mut out = slice_range(shown_model, 0, shown_model.len());
        append_str(&mut out, " (");
        let short = last6(serial);
        append_vec(&mut out, &short);
        append_str(&mut out, ")");
        assert(out@ =~= shown_model@ + " ("@ + spec_last6(serial@) + ")"@);
        out
    } else if model.len() > 0 {
        let mut out = slice_range(shown_model, 0, shown_model.len());
        append_str(&mut out, " at ");
        append_vec(&mut out, ip);
        assert(out@ =~= shown_model@ + " at "@ + ip@);
        out
    } else if serial.len() > 0 {
        let mut out = chars_of("Printer ");
        let short = last6(serial);
        append_vec(&mut out, &short);
        out
    } else {
        let mut out = chars_of("Bambu Printer at ");
        append_vec(&mut out, ip);
        out
    }
}

/// The translation of vendor model codes to human-readable model names: an
/// unknown code passes through unchanged, and an empty code becomes a generic
/// placeholder.
pub open spec fn spec_model_name(m: Seq<char>) -> Seq<char> {
    if m == "BL-P001"@ {
        "X1 Carbon"@
    } else if m == "BL-P002"@ {
        "X1"@
    } else if m == "C13"@ {
        "X1E"@
    } else if m == "C11"@ {
        "P1P"@
    } else if m == "C12"@ {
        "P1S"@
    } else if m == "N1"@ {
        "A1 Mini"@
    } else if m == "N2S"@ {
        "A1"@
    } else if m == "N7"@ {
        "P2S"@
    } else if m == "O1C"@ || m == "O1C2"@ {
        "H2C"@
    } else if m == "O1D"@ {
        "H2D"@
    } else if m == "O1E"@ {
        "H2D Pro"@
    } else if m == "O1S"@ {
        "H2S"@
    } else if m.len() == 0 {
        "Bambu Printer"@
    } else {
        m
    }
}

/// A model code that the translation table does not list, and that is not
/// empty, is kept verbatim as the final model string.
pub proof fn lemma_unmapped_model_code(m: Seq<char>)
    requires
        m.len() > 0,
        m != "BL-P001"@,
        m != "BL-P002"@,
        m != "C13"@,
        m != "C11"@,
        m != "C12"@,
        m != "N1"@,
        m != "N2S"@,
        m != "N7"@,
        m != "O1C"@,
        m != "O1C2"@,
        m != "O1D"@,
        m != "O1E"@,
        m != "O1S"@,
    ensures
        spec_model_name(m) == m,
{
}

/// Translates one model code.
fn translate_model(m: Vec<char>) -> (r: Vec<char>)
    ensures
        r@ == spec_model_name(m@),
{
    if eq_str(&m, "BL-P001") {
        chars_of("X1 Carbon")
    } else if eq_str(&m, "BL-P002") {
        chars_of("X1")
    } else if eq_str(&m, "C13") {
        chars_of("X1E")
    } else if eq_str(&m, "C11") {
        chars_of("P1P")
    } else if eq_str(&m, "C12") {
        chars_of("P1S")
    } else if eq_str(&m, "N1") {
        chars_of("A1 Mini")
    } else if eq_str(&m, "N2S") {
        chars_of("A1")
    } else if eq_str(&m, "N7") {
        chars_of("P2S")
    } else if eq_str(&m, "O1C") || eq_str(&m, "O1C2") {
        chars_of("H2C")
    } else if eq_str(&m, "O1D") {
        chars_of("H2D")
    } else if eq_str(&m, "O1E") {
        chars_of("H2D Pro")
    } else if eq_str(&m, "O1S") {
        chars_of("H2S")
    } else if m.len() == 0 {
        chars_of("Bambu Printer")
    } else {
        m
    }
}

/// The source address with the port stripped: everything before the first
/// colon, or the whole string when it has none.
pub open spec fn spec_ip_of(src: Seq<char>) -> Seq<char> {
    match spec_find_char(src, ':', 0) {
        Some(p) => src.subrange(0, p),
        None => src,
    }
}

/// Strips the port from a source address.
fn ip_of(src: &Vec<char>) -> (r: Vec<char>)
    ensures
        r@ == spec_ip_of(src@),
{
    let n = src.len();
    match find_char(src, ':', 0) {
        Some(p) => {
            proof {
                lemma_find_char_range(src@, ':', 0);
            }
            slice_range(src, 0, p)
        },
        None => slice_range(src, 0, n),
    }
}

/// The first listed key whose value is set, or the unset marker.
pub open spec fn spec_or_field(a: Option<Seq<char>>, b: Option<Seq<char>>) -> Option<Seq<char>> {
    if a is Some {
        a
    } else {
        b
    }
}

/// A field value, with the unset marker read as the empty string.
pub open spec fn spec_or_empty(a: Option<Seq<char>>) -> Seq<char> {
    match a {
        Some(v) => v,
        None => Seq::empty(),
    }
}

/// The serial taken from the key scan: the first non-empty value among the
/// keys `dev_sn`, `sn` and `serial`.
pub open spec fn spec_json_serial(s: Seq<char>) -> Seq<char> {
    spec_or_empty(
        spec_or_field(
            spec_json_field(s, "\"dev_sn\""@),
            spec_or_field(spec_json_field(s, "\"sn\""@), spec_json_field(s, "\"serial\""@)),
        ),
    )
}

/// The model taken from the key scan: the first non-empty value among the
/// keys `product_name`, `model`, `dev_product_name` and `machine_type`.
pub open spec fn spec_json_model(s: Seq<char>) -> Seq<char> {
    spec_or_empty(
        spec_or_field(
            spec_json_field(s, "\"product_name\""@),
            spec_or_field(
                spec_json_field(s, "\"model\""@),
                spec_or_field(
                    spec_json_field(s, "\"dev_product_name\""@),
                    spec_json_field(s, "\"machine_type\""@),
                ),
            ),
        ),
    )
}

/// The name taken from the key scan: the first non-empty value among the keys
/// `dev_name`, `machine_name` and `name`.
pub open spec fn spec_json_name(s: Seq<char>) -> Seq<char> {
    spec_or_empty(
        spec_or_field(
            spec_json_field(s, "\"dev_name\""@),
            spec_or_field(spec_json_field(s, "\"machine_name\""@), spec_json_field(s, "\"name\""@)),
        ),
    )
}

/// Looks one key up, handing its non-empty value out as characters.
fn json_lookup(v: &Vec<char>, key: &str) -> (r: Option<Vec<char>>)
    ensures
        r matches Some(x) ==> spec_json_field(v@, key@) == Some(x@),
        r is None ==> spec_json_field(v@, key@) is None,
{
    match json_field(v, key) {
        None => None,
        Some((lo, hi)) => Some(slice_range(v, lo, hi)),
    }
}

/// Runs the serial key scan.
fn json_serial(v: &Vec<char>) -> (r: Vec<char>)
    ensures
        r@ == spec_json_serial(v@),
{
    match json_lookup(v, "\"dev_sn\"") {
        Some(x) => x,
        None => match json_lookup(v, "\"sn\"") {
            Some(x) => x,
            None => match json_lookup(v, "\"serial\"") {
                Some(x) => x,
                None => Vec::new(),
            },
        },
    }
}

/// Runs the model key scan.
fn json_model(v: &Vec<char>) -> (r: Vec<char>)
    ensures
        r@ == spec_json_model(v@),
{
    match json_lookup(v, "\"product_name\"") {
        Some(x) => x,
        None => match json_lookup(v, "\"model\"") {
            Some(x) => x,
            None => match json_lookup(v, "\"dev_product_name\"") {
                Some(x) => x,
                None => match json_lookup(v, "\"machine_type\"") {
                    Some(x) => x,
                    None => Vec::new(),
                },
            },
        },
    }
}

/// Runs the name key scan.
fn json_name(v: &Vec<char>) -> (r: Vec<char>)
    ensures
        r@ == spec_json_name(v@),
{
    match json_lookup(v, "\"dev_name\"") {
        Some(x) => x,
        None => match json_lookup(v, "\"machine_name\"") {
            Some(x) => x,
            None => match json_lookup(v, "\"name\"") {
                Some(x) => x,
                None => Vec::new(),
            },
        },
    }
}

/// The record parsed from one datagram's text and its source address: the key
/// scan fills fields first, the header scan fills what is still unset, the
/// model code is translated, and a missing name is synthesized from the
/// translated model.
pub open spec fn spec_parse_response(text: Seq<char>, src: Seq<char>) -> PrinterRecordModel {
    let ip = spec_ip_of(src);
    let f = spec_scan_headers(
        text,
        0,
        Fields {
            serial: spec_json_serial(text),
            model: spec_json_model(text),
            name: spec_json_name(text),
        },
    );
    let shown = spec_model_name(f.model);
    PrinterRecordModel {
        name: spec_synth_name(f.name, f.serial, f.model, shown, ip),
        serial: f.serial,
        ip: ip,
        model: shown,
    }
}

/// Extracts the quoted string value that follows a key, exactly as the
/// response spells it: the text between the first quote after the first colon
/// and the closing quote.
pub fn extract_json_string_value(text: &str) -> (r: Option<String>)
    ensures
        r matches Some(s) ==> spec_extract_value_at(text@, 0) == Some(s@),
        r is None ==> spec_extract_value_at(text@, 0) is None,
{
    let v = chars_of(text);
    match extract_value_range(&v, 0) {
        None => None,
        Some((lo, hi)) => Some(string_of_range(&v, lo, hi)),
    }
}

/// Whether a discovery run may start: exactly when the result budget is
/// positive and the WiFi state is connected. When it may not, the caller
/// reports failure at once, before any socket is opened or datagram sent.
pub fn printer_discover_allowed(state: &WifiState, max_results: i32) -> (allowed: bool)
    ensures
        allowed == (max_results > 0 && state@ is Connected),
{
    max_results > 0 && match state {
        WifiState::Connected { .. } => true,
        _ => false,
    }
}

/// Folds one received datagram into the collected records: nothing changes
/// once the budget is reached or when the datagram is discarded; otherwise
/// exactly one record is appended. Returns whether collection is complete.
pub fn discovery_accumulate(
    records: &mut Vec<PrinterRecord>,
    max_results: usize,
    data: &[u8],
    source_ip: &str,
) -> (done: bool)
    ensures
        old(records)@.len() >= max_results ==> final(records)@ == old(records)@,
        old(records)@.len() < max_results && valid_utf8(data@) ==> {
            &&& final(records)@.len() == old(records)@.len() + 1
            &&& final(records)@.drop_last() == old(records)@
            &&& final(records)@.last()@ == spec_parse_response(decode_utf8(data@), source_ip@)
        },
        old(records)@.len() < max_results && !valid_utf8(data@) ==> final(records)@ == old(
            records)@,
        done == (final(records)@.len() >= max_results),
{
    if records.len() >= max_results {
        return true;
    }
    match parse_printer_response(data, source_ip) {
        Some(rec) => {
            records.push(rec);
            proof {
                assert(records@.drop_last() =~= old(records)@);
            }
        },
        None => {
        },
    }
    records.len() >= max_results
}

/// Parses one discovery datagram. A datagram that is not valid UTF-8 is
/// discarded; anything else yields exactly one record whose address field is
/// always populated from the source address.
pub fn parse_printer_response(data: &[u8], source_ip: &str) -> (r: Option<PrinterRecord>)
    ensures
        r is Some <==> valid_utf8(data@),
        r matches Some(rec) ==> rec@ == spec_parse_response(decode_utf8(data@), source_ip@),
{
    let text = match crate::text::utf8_decode(data) {
        None => {
            return None;
        },
        Some(t) => t,
    };
    let v = chars_of(text);
    let src = chars_of(source_ip);
    let ip = ip_of(&src);
    let serial0 = json_serial(&v);
    let model0 = json_model(&v);
    let name0 = json_name(&v);
    let f = scan_headers(&v, FieldVecs { serial: serial0, model: model0, name: name0 });
    let FieldVecs { serial, model, name } = f;
    let model_copy = slice_range(&model, 0, model.len());
    assert(model_copy@ =~= model@);
    let shown = translate_model(model_copy);
    let full_name = synth_name(name, &serial, &model, &shown, &ip);
    Some(
        PrinterRecord {
            name: string_of(&full_name),
            serial: string_of(&serial),
            ip: string_of(&ip),
            model: string_of(&shown),
        },
    )
}

} // verus!
