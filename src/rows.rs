//! Input rows: a delimited table with a header row, mapped to records by
//! column name.

use vstd::prelude::*;
use crate::error::RowError;
use crate::record::{
    deserialize_independent_to_bool, deserialize_member_of_un_to_bool, is_independent_text,
    is_un_member_text, CountryCapital,
};

verus! {

/// The trimmed header row that `csv` reads from `input`, or `None` where it
/// cannot read one.
pub uninterp spec fn csv_header_of(input: Seq<u8>) -> Option<Seq<Seq<char>>>;

/// The trimmed data rows that `csv` reads from `input`, in order; `None` for a
/// row it cannot read (one whose field count differs from the header's, or
/// that is not valid text).
pub uninterp spec fn csv_rows_of(input: Seq<u8>) -> Seq<Option<Seq<Seq<char>>>>;

pub open spec fn strings_view(v: Seq<String>) -> Seq<Seq<char>> {
    v.map_values(|s: String| s@)
}

/// Relies on `csv::Reader::headers` over a reader with a header row and
/// trimming of all fields.
#[verifier::external_body]
fn read_csv_header(input: &[u8]) -> (r: Option<Vec<String>>)
    ensures
        match (r, csv_header_of(input@)) {
            (Some(h), Some(g)) => strings_view(h@) == g,
            (None, None) => true,
            _ => false,
        },
{
    let mut reader = csv::ReaderBuilder::new().has_headers(true).trim(csv::Trim::All).from_reader(
        input,
    );
    reader.headers().ok().map(|h| h.iter().map(String::from).collect())
}

/// Relies on `csv::Reader::records` over a reader with a header row and
/// trimming of all fields.
#[verifier::external_body]
fn read_csv_rows(input: &[u8]) -> (r: Vec<Option<Vec<String>>>)
    ensures
        r@.len() == csv_rows_of(input@).len(),
        forall|i: int|
            0 <= i < r@.len() ==> match (#[trigger] r@[i], csv_rows_of(input@)[i]) {
                (Some(f), Some(g)) => strings_view(f@) == g,
                (None, None) => true,
                _ => false,
            },
{
    let mut reader = csv::ReaderBuilder::new().has_headers(true).trim(csv::Trim::All).from_reader(
        input,
    );
    reader.records().map(|r| r.ok().map(|rec| rec.iter().map(String::from).collect())).collect()
}

/// A header cell names a field when it is the field's name or its alias.
pub open spec fn names_field(h: Seq<char>, name: Seq<char>, alias: Seq<char>) -> bool {
    h == name || h == alias
}

/// Column `i` is the first one that names the field.
pub open spec fn is_first_column(header: Seq<Seq<char>>, name: Seq<char>, alias: Seq<char>, i: int) -> bool {
    0 <= i < header.len() && names_field(header[i], name, alias) && forall|j: int|
        0 <= j < i ==> !names_field(#[trigger] header[j], name, alias)
}

pub open spec fn has_column(header: Seq<Seq<char>>, name: Seq<char>, alias: Seq<char>) -> bool {
    exists|i: int| is_first_column(header, name, alias, i)
}

/// The row holds `v` in the first column that names the field.
pub open spec fn column_value(
    header: Seq<Seq<char>>,
    row: Seq<Seq<char>>,
    name: Seq<char>,
    alias: Seq<char>,
    v: Seq<char>,
) -> bool {
    exists|i: int| is_first_column(header, name, alias, i) && i < row.len() && row[i] == v
}

pub open spec fn has_all_columns(header: Seq<Seq<char>>) -> bool {
    &&& has_column(header, "country"@, "SHORT_FORM_NAME"@)
    &&& has_column(header, "country_long"@, "LONG_FORM_NAME"@)
    &&& has_column(header, "country_code"@, "GENC_2A_CODE"@)
    &&& has_column(header, "country_code_3"@, "GENC_3A_CODE"@)
    &&& has_column(header, "capital"@, "CAPITAL_INDEPENDENT_STATES"@)
    &&& has_column(header, "independent"@, "STATUS"@)
    &&& has_column(header, "member_of_un"@, "MEMBER_OF_UNITED_NATIONS"@)
}

/// `r` is the record that `row` gives under `header`, with `id` and nothing
/// enriched yet.
pub open spec fn is_record_of(header: Seq<Seq<char>>, row: Seq<Seq<char>>, id: u64, r: CountryCapital) -> bool {
    &&& r.id == id
    &&& column_value(header, row, "country"@, "SHORT_FORM_NAME"@, r.country@)
    &&& column_value(header, row, "country_long"@, "LONG_FORM_NAME"@, r.country_long@)
    &&& column_value(header, row, "country_code"@, "GENC_2A_CODE"@, r.country_code@)
    &&& column_value(header, row, "country_code_3"@, "GENC_3A_CODE"@, r.country_code_3@)
    &&& column_value(header, row, "capital"@, "CAPITAL_INDEPENDENT_STATES"@, r.capital@)
    &&& exists|v: Seq<char>|
        column_value(header, row, "independent"@, "STATUS"@, v) && r.independent
            == is_independent_text(v)
    &&& exists|v: Seq<char>|
        column_value(header, row, "member_of_un"@, "MEMBER_OF_UNITED_NATIONS"@, v)
            && r.member_of_un == is_un_member_text(v)
    &&& r.coordinate is None
    &&& r.country_audio_filename is None
    &&& r.capital_audio_filename is None
}

/// What one row gives: a record, `MissingColumn` where the header lacks a
/// field, `Malformed` where the row lacks a value.
pub open spec fn is_outcome_of(
    header: Seq<Seq<char>>,
    row: Seq<Seq<char>>,
    id: u64,
    r: Result<CountryCapital, RowError>,
) -> bool {
    match r {
        Ok(c) => is_record_of(header, row, id, c),
        Err(RowError::MissingColumn) => !has_all_columns(header),
        Err(RowError::Malformed) => has_all_columns(header) && !(exists|c: CountryCapital|
            is_record_of(header, row, id, c)),
    }
}

/// The first column of `header` that names the field.
fn find_column(header: &Vec<String>, name: &str, alias: &str) -> (r: Option<usize>)
    ensures
        match r {
            Some(i) => is_first_column(strings_view(header@), name@, alias@, i as int),
            None => !has_column(strings_view(header@), name@, alias@),
        },
{
    let ghost h = strings_view(header@);
    let n = String::from_str(name);
    let a = String::from_str(alias);
    let mut i: usize = 0;
    while i < header.len()
        invariant
            h == strings_view(header@),
            n@ == name@,
            a@ == alias@,
            i <= header@.len(),
            forall|j: int| 0 <= j < i ==> !names_field(#[trigger] h[j], name@, alias@),
        decreases header@.len() - i,
    {
        assert(h[i as int] == header@[i as int]@);
        if header[i] == n || header[i] == a {
            return Some(i);
        }
        i = i + 1;
    }
    assert(h.len() == header@.len());
    None
}

/// The value of a field in `row`, given the field's column.
fn field_at(row: &Vec<String>, col: usize) -> (r: Option<String>)
    ensures
        match r {
            Some(v) => col < row@.len() && v@ == row@[col as int]@,
            None => col >= row@.len(),
        },
{
    if col < row.len() {
        Some(row[col].clone())
    } else {
        None
    }
}

proof fn lemma_first_column_unique(header: Seq<Seq<char>>, name: Seq<char>, alias: Seq<char>, i: int, j: int)
    requires
        is_first_column(header, name, alias, i),
        is_first_column(header, name, alias, j),
    ensures
        i == j,
{
    if i < j {
        assert(!names_field(header[i], name, alias));
    } else if j < i {
        assert(!names_field(header[j], name, alias));
    }
}

/// Maps one row to a record with the given id.
pub fn parse_record(header: &Vec<String>, row: &Vec<String>, id: u64) -> (r: Result<CountryCapital, RowError>)
    ensures
        is_outcome_of(strings_view(header@), strings_view(row@), id, r),
{
    let ghost h = strings_view(header@);
    let ghost f = strings_view(row@);
    let c0 = find_column(header, "country", "SHORT_FORM_NAME");
    let c1 = find_column(header, "country_long", "LONG_FORM_NAME");
    let c2 = find_column(header, "country_code", "GENC_2A_CODE");
    let c3 = find_column(header, "country_code_3", "GENC_3A_CODE");
    let c4 = find_column(header, "capital", "CAPITAL_INDEPENDENT_STATES");
    let c5 = find_column(header, "independent", "STATUS");
    let c6 = find_column(header, "member_of_un", "MEMBER_OF_UNITED_NATIONS");
    let (i0, i1, i2, i3, i4, i5, i6) = match (c0, c1, c2, c3, c4, c5, c6) {
        (Some(i0), Some(i1), Some(i2), Some(i3), Some(i4), Some(i5), Some(i6)) => (
            i0,
            i1,
            i2,
            i3,
            i4,
            i5,
            i6,
        ),
        _ => {
            return Err(RowError::MissingColumn);
        },
    };
    assert(has_all_columns(h));
    let vals = (
        field_at(row, i0),
        field_at(row, i1),
        field_at(row, i2),
        field_at(row, i3),
        field_at(row, i4),
        field_at(row, i5),
        field_at(row, i6),
    );
    match vals {
        (Some(v0), Some(v1), Some(v2), Some(v3), Some(v4), Some(v5), Some(v6)) => {
            let independent = deserialize_independent_to_bool(v5.as_str());
            let member_of_un = deserialize_member_of_un_to_bool(v6.as_str());
            let r = CountryCapital {
                id,
                country: v0,
                country_long: v1,
                country_code: v2,
                country_code_3: v3,
                capital: v4,
                independent,
                member_of_un,
                coordinate: None,
                country_audio_filename: None,
                capital_audio_filename: None,
            };
            assert(f[i0 as int] == row@[i0 as int]@);
            assert(f[i1 as int] == row@[i1 as int]@);
            assert(f[i2 as int] == row@[i2 as int]@);
            assert(f[i3 as int] == row@[i3 as int]@);
            assert(f[i4 as int] == row@[i4 as int]@);
            assert(f[i5 as int] == row@[i5 as int]@);
            assert(f[i6 as int] == row@[i6 as int]@);
            assert(column_value(h, f, "independent"@, "STATUS"@, v5@));
            assert(column_value(h, f, "member_of_un"@, "MEMBER_OF_UNITED_NATIONS"@, v6@));
            Ok(r)
        },
        _ => {
            assert(!(exists|c: CountryCapital| is_record_of(h, f, id, c))) by {
                if exists|c: CountryCapital| is_record_of(h, f, id, c) {
                    let c = choose|c: CountryCapital| is_record_of(h, f, id, c);
                    let (n, a, col) = if vals.0 is None {
                        ("country"@, "SHORT_FORM_NAME"@, i0)
                    } else if vals.1 is None {
                        ("country_long"@, "LONG_FORM_NAME"@, i1)
                    } else if vals.2 is None {
                        ("country_code"@, "GENC_2A_CODE"@, i2)
                    } else if vals.3 is None {
                        ("country_code_3"@, "GENC_3A_CODE"@, i3)
                    } else if vals.4 is None {
                        ("capital"@, "CAPITAL_INDEPENDENT_STATES"@, i4)
                    } else if vals.5 is None {
                        ("independent"@, "STATUS"@, i5)
                    } else {
                        ("member_of_un"@, "MEMBER_OF_UNITED_NATIONS"@, i6)
                    };
                    let v = choose|v: Seq<char>| column_value(h, f, n, a, v);
                    let j = choose|j: int| is_first_column(h, n, a, j) && j < f.len() && f[j] == v;
                    lemma_first_column_unique(h, n, a, j, col as int);
                }
            }
            Err(RowError::Malformed)
        },
    }
}

pub open spec fn optional_strings_view(o: Option<Vec<String>>) -> Option<Seq<Seq<char>>> {
    match o {
        Some(v) => Some(strings_view(v@)),
        None => None,
    }
}

/// What a row gives where the header or the row itself may be unreadable:
/// either makes the row `Malformed`.
pub open spec fn is_row_outcome(
    header: Option<Seq<Seq<char>>>,
    row: Option<Seq<Seq<char>>>,
    id: u64,
    r: Result<CountryCapital, RowError>,
) -> bool {
    match (header, row) {
        (Some(h), Some(f)) => is_outcome_of(h, f, id, r),
        _ => r == Err::<CountryCapital, RowError>(RowError::Malformed),
    }
}

/// Maps every data row to its outcome; the row at index `i` gets id `i + 1`,
/// whether or not it becomes a record.
pub fn records_from(header: &Option<Vec<String>>, rows: &Vec<Option<Vec<String>>>) -> (r: Vec<
    Result<CountryCapital, RowError>,
>)
    ensures
        r@.len() == rows@.len(),
        forall|i: int|
            0 <= i < r@.len() ==> is_row_outcome(
                optional_strings_view(*header),
                optional_strings_view(rows@[i]),
                (i + 1) as u64,
                #[trigger] r@[i],
            ),
{
    let mut out: Vec<Result<CountryCapital, RowError>> = Vec::new();
    let mut i: usize = 0;
    while i < rows.len()
        invariant
            i <= rows@.len(),
            out@.len() == i,
            forall|j: int|
                0 <= j < i ==> is_row_outcome(
                    optional_strings_view(*header),
                    optional_strings_view(rows@[j]),
                    (j + 1) as u64,
                    #[trigger] out@[j],
                ),
        decreases rows@.len() - i,
    {
        assert(i < u64::MAX);
        let id: u64 = i as u64 + 1;
        let outcome = match (header, &rows[i]) {
            (Some(h), Some(f)) => parse_record(h, f, id),
            _ => Err(RowError::Malformed),
        };
        out.push(outcome);
        i = i + 1;
    }
    out
}

/// Reads the table in `input` and maps each data row to its outcome, in order.
pub fn parse_rows(input: &[u8]) -> (r: Vec<Result<CountryCapital, RowError>>)
    ensures
        r@.len() == csv_rows_of(input@).len(),
        forall|i: int|
            0 <= i < r@.len() ==> is_row_outcome(
                csv_header_of(input@),
                csv_rows_of(input@)[i],
                (i + 1) as u64,
                #[trigger] r@[i],
            ),
{
    let header = read_csv_header(input);
    let rows = read_csv_rows(input);
    assert(optional_strings_view(header) == csv_header_of(input@));
    assert forall|i: int| 0 <= i < rows@.len() implies optional_strings_view(#[trigger] rows@[i])
        == csv_rows_of(input@)[i] by {}
    records_from(&header, &rows)
}

} // verus!
