//! Turns a flat row into comma-separated text, and names the file it goes to.
use vstd::prelude::*;
use vstd::string::*;
use crate::document::Doc;
use crate::error::{ConvertError, Fault};
use crate::fields::result_view;
use crate::flatten::{flatten, row_cells_spec, row_header_spec, Row};
use crate::loader::{load, load_spec};
use crate::text::{join_spec, text_eq, views};

verus! {

/// A character that forces a field into quotes.
pub open spec fn is_special(c: char) -> bool {
    c == ',' || c == '"' || c == '\r' || c == '\n'
}

pub open spec fn needs_quotes(f: Seq<char>) -> bool {
    exists|i: int| 0 <= i < f.len() && is_special(#[trigger] f[i])
}

/// `f` with every quote written twice.
pub open spec fn double_quotes(f: Seq<char>) -> Seq<char>
    decreases f.len(),
{
    if f.len() == 0 {
        Seq::empty()
    } else {
        double_quotes(f.drop_last()) + if f.last() == '"' {
            seq!['"', '"']
        } else {
            seq![f.last()]
        }
    }
}

/// A field as it is written: in quotes, with inner quotes doubled, where it
/// holds a special character; as it is otherwise.
pub open spec fn csv_field(f: Seq<char>) -> Seq<char> {
    if needs_quotes(f) {
        seq!['"'] + double_quotes(f) + seq!['"']
    } else {
        f
    }
}

/// One comma-separated record with its line terminator. A record that
/// would be empty is written as an empty quoted field.
pub open spec fn csv_record(fields: Seq<Seq<char>>) -> Seq<char> {
    let body = join_spec(fields.map_values(|f: Seq<char>| csv_field(f)), seq![',']);
    if body.len() == 0 {
        seq!['"', '"', '\n']
    } else {
        body + seq!['\n']
    }
}

/// Relies on csv::WriterBuilder::from_writer, csv::Writer::write_record and
/// csv::Writer::into_inner, with the default settings (comma delimiter,
/// quotes where needed, doubled inner quotes, `\n` terminator), writing to
/// memory, which cannot fail; the output is UTF-8 as the fields are.
#[verifier::external_body]
fn encode_record(fields: &Vec<String>) -> (r: Option<String>)
    ensures
        r is Some && r->Some_0@ == csv_record(views(fields@)),
{
    let mut w = csv::WriterBuilder::new().from_writer(Vec::new());
    w.write_record(fields).ok()?;
    let bytes = w.into_inner().ok()?;
    String::from_utf8(bytes).ok()
}

/// The header line followed by the value line.
pub fn to_table_text(row: &Row) -> (r: String)
    ensures
        r@ == csv_record(views(row.header@)) + csv_record(views(row.values@)),
{
    let mut out = String::new();
    if let Some(t) = encode_record(&row.header) {
        out = t;
    }
    if let Some(t) = encode_record(&row.values) {
        out.append(t.as_str());
    }
    out
}

/// The text that `d` converts to: the header line and the value line of the
/// record it loads to, or the failure of the load.
pub open spec fn convert_spec(d: Doc) -> Result<Seq<char>, Fault> {
    match load_spec(d) {
        Err(f) => Err(f),
        Ok(s) => Ok(csv_record(row_header_spec()) + csv_record(row_cells_spec(s))),
    }
}

/// Loads a record from `doc`, flattens it and writes it as two lines of
/// comma-separated text. A document that does not load fails as the load
/// does; a loaded record always gives its header line and value line.
pub fn convert(doc: &Doc) -> (r: Result<String, ConvertError>)
    ensures
        result_view(r) == convert_spec(*doc),
{
    let skill = match load(doc) {
        Ok(s) => s,
        Err(e) => return Err(e),
    };
    let row = flatten(&skill);
    Ok(to_table_text(&row))
}

/// The index of the last occurrence of `c` in `s`, or -1.
pub open spec fn last_index_of(s: Seq<char>, c: char) -> int
    decreases s.len(),
{
    if s.len() == 0 {
        -1
    } else if s.last() == c {
        s.len() - 1
    } else {
        last_index_of(s.drop_last(), c)
    }
}

/// `p` without its trailing slashes.
pub open spec fn trim_slashes(p: Seq<char>) -> Seq<char>
    decreases p.len(),
{
    if p.len() > 0 && p.last() == '/' {
        trim_slashes(p.drop_last())
    } else {
        p
    }
}

/// `path` with the extension of its last component replaced by `csv`, or
/// `.csv` added where that component has none; trailing slashes go. A dot
/// that starts the component does not open an extension. A path whose last
/// component is empty, `.` or `..` names no file and stays as it is.
pub open spec fn csv_path_spec(path: Seq<char>) -> Seq<char> {
    let t = trim_slashes(path);
    let slash = last_index_of(t, '/');
    let name = t.subrange(slash + 1, t.len() as int);
    let dot = last_index_of(t, '.');
    if name.len() == 0 || name == "."@ || name == ".."@ {
        path
    } else if dot > slash + 1 {
        t.take(dot) + ".csv"@
    } else {
        t + ".csv"@
    }
}

proof fn lemma_last_index_bounds(s: Seq<char>, c: char)
    ensures
        -1 <= last_index_of(s, c) < s.len(),
    decreases s.len(),
{
    if s.len() > 0 {
        lemma_last_index_bounds(s.drop_last(), c);
    }
}

fn last_index(s: &str, c: char) -> (r: i64)
    requires
        s@.len() < 0x7fff_ffff,
    ensures
        r == last_index_of(s@, c),
{
    let n = s.unicode_len();
    let mut i: usize = n;
    assert(s@.take(n as int) =~= s@);
    while i > 0
        invariant
            n == s@.len(),
            n < 0x7fff_ffff,
            i <= n,
            last_index_of(s@, c) == last_index_of(s@.take(i as int), c),
        decreases i,
    {
        assert(s@.take(i as int).drop_last() =~= s@.take(i - 1));
        if s.get_char(i - 1) == c {
            return (i - 1) as i64;
        }
        i -= 1;
    }
    -1
}

fn trimmed_len(path: &str) -> (r: usize)
    ensures
        r <= path@.len(),
        path@.take(r as int) == trim_slashes(path@),
{
    let mut e: usize = path.unicode_len();
    assert(path@.take(e as int) =~= path@);
    while e > 0 && path.get_char(e - 1) == '/'
        invariant
            e <= path@.len(),
            trim_slashes(path@.take(e as int)) == trim_slashes(path@),
        decreases e,
    {
        assert(path@.take(e as int).drop_last() =~= path@.take(e - 1));
        e -= 1;
    }
    e
}

/// The name of the file that the table for `path` is written to.
pub fn csv_path(path: &str) -> (r: String)
    requires
        path@.len() < 0x7fff_ffff,
    ensures
        r@ == csv_path_spec(path@),
{
    let e = trimmed_len(path);
    let t = path.substring_char(0, e);
    proof {
        lemma_last_index_bounds(t@, '.');
        lemma_last_index_bounds(t@, '/');
    }
    let slash = last_index(t, '/');
    let dot = last_index(t, '.');
    let name = t.substring_char((slash + 1) as usize, e);
    if name.unicode_len() == 0 || text_eq(name, ".") || text_eq(name, "..") {
        return String::from_str(path);
    }
    let mut out = if dot > slash + 1 {
        String::from_str(t.substring_char(0, dot as usize))
    } else {
        String::from_str(t)
    };
    out.append(".csv");
    out
}

/// Conversion is a function of the document: two conversions of the same
/// document give the same text, or the same failure.
pub proof fn lemma_convert_deterministic(
    doc: Doc,
    first: Result<String, ConvertError>,
    second: Result<String, ConvertError>,
)
    requires
        result_view(first) == convert_spec(doc),
        result_view(second) == convert_spec(doc),
    ensures
        result_view(first) == result_view(second),
{
}

/// A document that loads always converts, to the header line followed by
/// the value line of its record.
pub proof fn lemma_loaded_converts(doc: Doc)
    requires
        load_spec(doc) is Ok,
    ensures
        convert_spec(doc) is Ok,
        convert_spec(doc)->Ok_0 == csv_record(row_header_spec()) + csv_record(
            row_cells_spec(load_spec(doc)->Ok_0),
        ),
{
}

} // verus!
