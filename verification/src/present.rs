use vstd::prelude::*;

use crate::record::CellsModel;
use crate::record::RecordModel;
use crate::record::VehicleRecord;
use crate::record::rows_complete;

verus! {

/// The text line of one record: the three fields in order, space-joined.
pub open spec fn line_of(r: RecordModel) -> Seq<char> {
    r.manufacturing_year + seq![' '] + r.make + seq![' '] + r.model
}

/// The models of a sequence of records.
pub open spec fn record_models(rs: Seq<VehicleRecord>) -> Seq<RecordModel> {
    rs.map_values(|r: VehicleRecord| r@)
}

/// One text line per record, in order.
pub open spec fn text_lines_of(rs: Seq<RecordModel>) -> Seq<Seq<char>> {
    rs.map_values(|r: RecordModel| line_of(r))
}

/// A sequence of lines as one text: each line followed by a newline.
pub open spec fn lines_text(lines: Seq<Seq<char>>) -> Seq<char>
    decreases lines.len(),
{
    if lines.len() == 0 {
        Seq::empty()
    } else {
        lines_text(lines.drop_last()) + lines.last() + seq!['\n']
    }
}

/// The whole text output: one line per record, each ended by a newline.
pub open spec fn text_of(rs: Seq<RecordModel>) -> Seq<char>
    decreases rs.len(),
{
    if rs.len() == 0 {
        Seq::empty()
    } else {
        text_of(rs.drop_last()) + line_of(rs.last()) + seq!['\n']
    }
}

/// The lower-case hexadecimal digit of a value below sixteen.
pub open spec fn hex_char(n: int) -> char
    recommends
        0 <= n < 16,
{
    if n == 0 {
        '0'
    } else if n == 1 {
        '1'
    } else if n == 2 {
        '2'
    } else if n == 3 {
        '3'
    } else if n == 4 {
        '4'
    } else if n == 5 {
        '5'
    } else if n == 6 {
        '6'
    } else if n == 7 {
        '7'
    } else if n == 8 {
        '8'
    } else if n == 9 {
        '9'
    } else if n == 10 {
        'a'
    } else if n == 11 {
        'b'
    } else if n == 12 {
        'c'
    } else if n == 13 {
        'd'
    } else if n == 14 {
        'e'
    } else {
        'f'
    }
}

/// How one character appears inside a JSON string literal: quotes and
/// backslashes are escaped, the common control characters by their short
/// escapes, the remaining control characters in `\u00XX` form, and every
/// other character stands as itself.
pub open spec fn escaped_char(c: char) -> Seq<char> {
    if c == '"' {
        seq!['\\', '"']
    } else if c == '\\' {
        seq!['\\', '\\']
    } else if c == '\n' {
        seq!['\\', 'n']
    } else if c == '\r' {
        seq!['\\', 'r']
    } else if c == '\t' {
        seq!['\\', 't']
    } else if (c as u32) < 32 {
        seq!['\\', 'u', '0', '0', hex_char(((c as u32) / 16) as int), hex_char(
            ((c as u32) % 16) as int,
        )]
    } else {
        seq![c]
    }
}

/// A whole text escaped for a JSON string literal, character by character.
pub open spec fn escaped(s: Seq<char>) -> Seq<char>
    decreases s.len(),
{
    if s.len() == 0 {
        Seq::empty()
    } else {
        escaped(s.drop_last()) + escaped_char(s.last())
    }
}

/// A JSON string literal: the escaped text between double quotes.
pub open spec fn json_string_of(s: Seq<char>) -> Seq<char> {
    seq!['"'] + escaped(s) + seq!['"']
}

/// The JSON object of one record, with the three fixed keys in order.
pub open spec fn json_object_of(r: RecordModel) -> Seq<char> {
    "{\"manufacturing_year\":"@ + json_string_of(r.manufacturing_year) + ",\"make\":"@
        + json_string_of(r.make) + ",\"model\":"@ + json_string_of(r.model) + "}"@
}

/// One JSON object per record, in order.
pub open spec fn json_objects_of(rs: Seq<RecordModel>) -> Seq<Seq<char>> {
    rs.map_values(|r: RecordModel| json_object_of(r))
}

/// Parts joined by single commas, with no trailing comma.
pub open spec fn join_comma(parts: Seq<Seq<char>>) -> Seq<char>
    decreases parts.len(),
{
    if parts.len() == 0 {
        Seq::empty()
    } else if parts.len() == 1 {
        parts[0]
    } else {
        join_comma(parts.drop_last()) + seq![','] + parts.last()
    }
}

/// The whole JSON response body: the record objects as an array under
/// the `data` key. This library settles on the enveloped shape
/// `{"data":[...]}` as its one JSON convention.
pub open spec fn json_body_of(rs: Seq<RecordModel>) -> Seq<char> {
    "{\"data\":["@ + join_comma(json_objects_of(rs)) + "]}"@
}

/// Relies on std's String::push: appends exactly one character.
#[verifier::external_body]
fn push_char(out: &mut String, c: char)
    ensures
        final(out)@ == old(out)@.push(c),
{
    out.push(c);
}

/// The lower-case hexadecimal digit of a value below sixteen.
fn hex_digit(n: u32) -> (c: char)
    requires
        n < 16,
    ensures
        c == hex_char(n as int),
{
    if n == 0 {
        '0'
    } else if n == 1 {
        '1'
    } else if n == 2 {
        '2'
    } else if n == 3 {
        '3'
    } else if n == 4 {
        '4'
    } else if n == 5 {
        '5'
    } else if n == 6 {
        '6'
    } else if n == 7 {
        '7'
    } else if n == 8 {
        '8'
    } else if n == 9 {
        '9'
    } else if n == 10 {
        'a'
    } else if n == 11 {
        'b'
    } else if n == 12 {
        'c'
    } else if n == 13 {
        'd'
    } else if n == 14 {
        'e'
    } else {
        'f'
    }
}

/// Appends the escaped form of a text to the output.
fn escape_into(out: &mut String, s: &str)
    ensures
        final(out)@ == old(out)@ + escaped(s@),
{
    let ghost base = old(out)@;
    let n = s.unicode_len();
    proof {
        assert(base + escaped(s@.take(0)) =~= base);
    }
    for i in 0..n
        invariant
            n == s@.len(),
            out@ == base + escaped(s@.take(i as int)),
    {
        let c = s.get_char(i);
        proof {
            assert(s@.take(i + 1).drop_last() =~= s@.take(i as int));
            assert(s@.take(i + 1).last() == s@[i as int]);
        }
        if c == '"' {
            push_char(out, '\\');
            push_char(out, '"');
        } else if c == '\\' {
            push_char(out, '\\');
            push_char(out, '\\');
        } else if c == '\n' {
            push_char(out, '\\');
            push_char(out, 'n');
        } else if c == '\r' {
            push_char(out, '\\');
            push_char(out, 'r');
        } else if c == '\t' {
            push_char(out, '\\');
            push_char(out, 't');
        } else if (c as u32) < 32 {
            push_char(out, '\\');
            push_char(out, 'u');
            push_char(out, '0');
            push_char(out, '0');
            push_char(out, hex_digit((c as u32) / 16));
            push_char(out, hex_digit((c as u32) % 16));
        } else {
            push_char(out, c);
        }
        proof {
            assert(out@ =~= base + escaped(s@.take(i + 1)));
        }
    }
    proof {
        assert(s@.take(n as int) =~= s@);
    }
}

/// Formats one record as its text line: year, make and model in order,
/// joined by single spaces.
pub fn format_line(r: &VehicleRecord) -> (out: String)
    ensures
        out@ == line_of(r@),
{
    let mut out = String::from_str(r.manufacturing_year.as_str());
    push_char(&mut out, ' ');
    out.append(r.make.as_str());
    push_char(&mut out, ' ');
    out.append(r.model.as_str());
    proof {
        assert(out@ =~= line_of(r@));
    }
    out
}

/// Formats the fetched list for the command-line shape: one line per
/// record, in result-set order.
pub fn text_lines(records: &Vec<VehicleRecord>) -> (lines: Vec<String>)
    ensures
        lines@.len() == records@.len(),
        forall|i: int|
            0 <= i < records@.len() ==> (#[trigger] lines@[i])@ == line_of(records@[i]@),
{
    let mut lines: Vec<String> = Vec::new();
    let n = records.len();
    for i in 0..n
        invariant
            n == records@.len(),
            lines@.len() == i,
            forall|j: int| 0 <= j < i ==> (#[trigger] lines@[j])@ == line_of(records@[j]@),
    {
        let line = format_line(&records[i]);
        lines.push(line);
    }
    lines
}

/// The whole text output: every line of the fetched list, each followed
/// by a newline.
pub fn text_output(records: &Vec<VehicleRecord>) -> (out: String)
    ensures
        out@ == text_of(record_models(records@)),
{
    let ghost models = record_models(records@);
    let mut out = String::new();
    let n = records.len();
    proof {
        assert(text_of(models.take(0)) =~= Seq::<char>::empty());
    }
    for i in 0..n
        invariant
            n == records@.len(),
            models == record_models(records@),
            out@ == text_of(models.take(i as int)),
    {
        let line = format_line(&records[i]);
        out.append(line.as_str());
        push_char(&mut out, '\n');
        proof {
            assert(models.take(i + 1).drop_last() =~= models.take(i as int));
            assert(models.take(i + 1).last() == models[i as int]);
            assert(models[i as int] == records@[i as int]@);
            assert(out@ =~= text_of(models.take(i + 1)));
        }
    }
    proof {
        assert(models.take(n as int) =~= models);
    }
    out
}

/// Appends a JSON string literal holding the given text.
fn json_string_into(out: &mut String, s: &str)
    ensures
        final(out)@ == old(out)@ + json_string_of(s@),
{
    push_char(out, '"');
    escape_into(out, s);
    push_char(out, '"');
    proof {
        assert(out@ =~= old(out)@ + json_string_of(s@));
    }
}

/// Appends the JSON object of one record.
fn json_object_into(out: &mut String, r: &VehicleRecord)
    ensures
        final(out)@ == old(out)@ + json_object_of(r@),
{
    out.append("{\"manufacturing_year\":");
    json_string_into(out, r.manufacturing_year.as_str());
    out.append(",\"make\":");
    json_string_into(out, r.make.as_str());
    out.append(",\"model\":");
    json_string_into(out, r.model.as_str());
    out.append("}");
    proof {
        assert(out@ =~= old(out)@ + json_object_of(r@));
    }
}

/// Serializes the fetched list for the server shape: the record objects
/// under the `data` key, in result-set order.
pub fn json_body(records: &Vec<VehicleRecord>) -> (out: String)
    ensures
        out@ == json_body_of(record_models(records@)),
{
    let ghost objs = json_objects_of(record_models(records@));
    let mut out = String::from_str("{\"data\":[");
    let n = records.len();
    proof {
        assert(out@ + join_comma(objs.take(0)) =~= out@);
    }
    for i in 0..n
        invariant
            n == records@.len(),
            objs == json_objects_of(record_models(records@)),
            out@ == "{\"data\":["@ + join_comma(objs.take(i as int)),
    {
        if i > 0 {
            push_char(&mut out, ',');
        }
        json_object_into(&mut out, &records[i]);
        proof {
            assert(objs.take(i + 1).drop_last() =~= objs.take(i as int));
            assert(objs.take(i + 1).last() == objs[i as int]);
            assert(objs[i as int] == json_object_of(records@[i as int]@));
            assert(out@ =~= "{\"data\":["@ + join_comma(objs.take(i + 1)));
        }
    }
    out.append("]}");
    proof {
        assert(objs.take(n as int) =~= objs);
        assert(out@ =~= json_body_of(record_models(records@)));
    }
    out
}

/// The presenter strategy of one deployment shape: text lines for the
/// command-line shape, the JSON body for the server shape.
#[derive(Clone, Copy, PartialEq, Eq, Structural, Debug)]
pub enum PresenterKind {
    Text,
    Json,
}

/// Presents the fetched list in the chosen format. Both formats carry
/// exactly the same records, in the same order.
pub fn present(records: &Vec<VehicleRecord>, kind: PresenterKind) -> (out: String)
    ensures
        kind is Text ==> out@ == text_of(record_models(records@)),
        kind is Json ==> out@ == json_body_of(record_models(records@)),
{
    match kind {
        PresenterKind::Text => text_output(records),
        PresenterKind::Json => json_body(records),
    }
}

/// An empty result set presents as empty text and as the JSON body
/// `{"data":[]}` — never as an error or a null value; and an empty
/// sequence of raw rows is vacuously complete, so the fetch of an empty
/// result set succeeds.
pub proof fn lemma_empty_result_set()
    ensures
        rows_complete(Seq::<CellsModel>::empty()),
        text_of(Seq::<RecordModel>::empty()) == Seq::<char>::empty(),
        json_body_of(Seq::<RecordModel>::empty()) == "{\"data\":[]}"@,
{
    reveal_strlit("{\"data\":[");
    reveal_strlit("]}");
    reveal_strlit("{\"data\":[]}");
    assert(json_objects_of(Seq::<RecordModel>::empty()) =~= Seq::<Seq<char>>::empty());
    assert(json_body_of(Seq::<RecordModel>::empty()) =~= "{\"data\":[]}"@);
}

/// The text output is exactly its lines, each ended by a newline.
proof fn lemma_text_of_is_lines(rs: Seq<RecordModel>)
    ensures
        text_of(rs) == lines_text(text_lines_of(rs)),
    decreases rs.len(),
{
    if rs.len() == 0 {
        assert(text_lines_of(rs) =~= Seq::<Seq<char>>::empty());
    } else {
        lemma_text_of_is_lines(rs.drop_last());
        assert(text_lines_of(rs.drop_last()) =~= text_lines_of(rs).drop_last());
        assert(text_lines_of(rs).last() == line_of(rs.last()));
    }
}

/// The two presenters agree on content: for the same fetched list, the
/// text output is one line per record and the JSON body one object per
/// record, and line i and object i are built from the same three fields
/// of record i.
pub proof fn lemma_presenters_agree(rs: Seq<RecordModel>)
    ensures
        text_lines_of(rs).len() == rs.len(),
        json_objects_of(rs).len() == rs.len(),
        forall|i: int|
            0 <= i < rs.len() ==> #[trigger] text_lines_of(rs)[i] == rs[i].manufacturing_year
                + seq![' '] + rs[i].make + seq![' '] + rs[i].model,
        forall|i: int|
            0 <= i < rs.len() ==> #[trigger] json_objects_of(rs)[i]
                == "{\"manufacturing_year\":"@ + json_string_of(rs[i].manufacturing_year)
                + ",\"make\":"@ + json_string_of(rs[i].make) + ",\"model\":"@ + json_string_of(
                rs[i].model,
            ) + "}"@,
        text_of(rs) == lines_text(text_lines_of(rs)),
        json_body_of(rs) == "{\"data\":["@ + join_comma(json_objects_of(rs)) + "]}"@,
{
    lemma_text_of_is_lines(rs);
}

} // verus!
