//! One country and its capital, as read from a row and as enriched.

use vstd::prelude::*;
use crate::geo::GeoCoordinate;
use crate::text::{decimal_of, json_quoted, push_decimal, push_json_string};

verus! {

/// One row of output: the source fields, then what enrichment adds.
#[derive(Debug)]
pub struct CountryCapital {
    /// Position of the source row among all data rows, counting from 1.
    pub id: u64,
    pub country: String,
    pub country_long: String,
    pub country_code: String,
    pub country_code_3: String,
    pub capital: String,
    pub independent: bool,
    pub member_of_un: bool,
    /// The capital's coordinate, set as a whole or not at all.
    pub coordinate: Option<GeoCoordinate>,
    pub country_audio_filename: Option<String>,
    pub capital_audio_filename: Option<String>,
}

impl CountryCapital {
    pub open spec fn wf(&self) -> bool {
        self.coordinate matches Some(c) ==> c.wf()
    }

    /// Merges a resolved coordinate into the record.
    pub fn set_latlong(&mut self, lat_long: GeoCoordinate)
        ensures
            final(self).coordinate == Some(lat_long),
            final(self).id == old(self).id,
            final(self).country == old(self).country,
            final(self).country_long == old(self).country_long,
            final(self).country_code == old(self).country_code,
            final(self).country_code_3 == old(self).country_code_3,
            final(self).capital == old(self).capital,
            final(self).independent == old(self).independent,
            final(self).member_of_un == old(self).member_of_un,
            final(self).country_audio_filename == old(self).country_audio_filename,
            final(self).capital_audio_filename == old(self).capital_audio_filename,
    {
        self.coordinate = Some(lat_long);
    }

    /// Merges the two audio artifact paths into the record.
    pub fn set_audio_filenames(&mut self, country_audio: String, capital_audio: String)
        ensures
            final(self).country_audio_filename == Some(country_audio),
            final(self).capital_audio_filename == Some(capital_audio),
            final(self).id == old(self).id,
            final(self).country == old(self).country,
            final(self).country_long == old(self).country_long,
            final(self).country_code == old(self).country_code,
            final(self).country_code_3 == old(self).country_code_3,
            final(self).capital == old(self).capital,
            final(self).independent == old(self).independent,
            final(self).member_of_un == old(self).member_of_un,
            final(self).coordinate == old(self).coordinate,
    {
        self.country_audio_filename = Some(country_audio);
        self.capital_audio_filename = Some(capital_audio);
    }
}

/// The status text that marks a country as independent.
pub open spec fn is_independent_text(s: Seq<char>) -> bool {
    s == "Independent"@
}

/// The membership text that marks a country as a member of the United Nations.
pub open spec fn is_un_member_text(s: Seq<char>) -> bool {
    s == "TRUE"@
}

/// Reads the status column: exactly `Independent` means independent.
pub fn deserialize_independent_to_bool(s: &str) -> (r: bool)
    ensures
        r == is_independent_text(s@),
{
    String::from_str(s) == String::from_str("Independent")
}

/// Reads the membership column: exactly `TRUE` means a member.
pub fn deserialize_member_of_un_to_bool(s: &str) -> (r: bool)
    ensures
        r == is_un_member_text(s@),
{
    String::from_str(s) == String::from_str("TRUE")
}

pub open spec fn bool_json(b: bool) -> Seq<char> {
    if b { "true"@ } else { "false"@ }
}

pub open spec fn optional_string_json(s: Option<String>) -> Seq<char> {
    match s {
        Some(v) => json_quoted(v@),
        None => "null"@,
    }
}

pub open spec fn latitude_json(c: Option<GeoCoordinate>) -> Seq<char> {
    match c {
        Some(g) => g.lat@,
        None => "null"@,
    }
}

pub open spec fn longitude_json(c: Option<GeoCoordinate>) -> Seq<char> {
    match c {
        Some(g) => g.lon@,
        None => "null"@,
    }
}

/// The JSON object of a record, its keys in declaration order.
pub open spec fn record_json(r: CountryCapital) -> Seq<char> {
    "{\"id\":"@ + decimal_of(r.id as nat)
        + ",\"country\":"@ + json_quoted(r.country@)
        + ",\"country_long\":"@ + json_quoted(r.country_long@)
        + ",\"country_code\":"@ + json_quoted(r.country_code@)
        + ",\"country_code_3\":"@ + json_quoted(r.country_code_3@)
        + ",\"capital\":"@ + json_quoted(r.capital@)
        + ",\"independent\":"@ + bool_json(r.independent)
        + ",\"member_of_un\":"@ + bool_json(r.member_of_un)
        + ",\"capital_latitude\":"@ + latitude_json(r.coordinate)
        + ",\"capital_longitude\":"@ + longitude_json(r.coordinate)
        + ",\"country_audio_filename\":"@ + optional_string_json(r.country_audio_filename)
        + ",\"capital_audio_filename\":"@ + optional_string_json(r.capital_audio_filename)
        + "}"@
}

fn push_bool(s: &mut String, b: bool)
    ensures
        final(s)@ == old(s)@ + bool_json(b),
{
    if b {
        s.append("true");
    } else {
        s.append("false");
    }
}

fn push_optional_string(s: &mut String, v: &Option<String>)
    ensures
        final(s)@ == old(s)@ + optional_string_json(*v),
{
    match v {
        Some(x) => push_json_string(s, x.as_str()),
        None => s.append("null"),
    }
}

/// Serializes a record as one JSON object.
pub fn to_json(r: &CountryCapital) -> (out: String)
    ensures
        out@ == record_json(*r),
{
    let mut s = String::new();
    s.append("{\"id\":");
    push_decimal(&mut s, r.id);
    s.append(",\"country\":");
    push_json_string(&mut s, r.country.as_str());
    s.append(",\"country_long\":");
    push_json_string(&mut s, r.country_long.as_str());
    s.append(",\"country_code\":");
    push_json_string(&mut s, r.country_code.as_str());
    s.append(",\"country_code_3\":");
    push_json_string(&mut s, r.country_code_3.as_str());
    s.append(",\"capital\":");
    push_json_string(&mut s, r.capital.as_str());
    s.append(",\"independent\":");
    push_bool(&mut s, r.independent);
    s.append(",\"member_of_un\":");
    push_bool(&mut s, r.member_of_un);
    s.append(",\"capital_latitude\":");
    match &r.coordinate {
        Some(g) => s.append(g.lat.as_str()),
        None => s.append("null"),
    }
    s.append(",\"capital_longitude\":");
    match &r.coordinate {
        Some(g) => s.append(g.lon.as_str()),
        None => s.append("null"),
    }
    s.append(",\"country_audio_filename\":");
    push_optional_string(&mut s, &r.country_audio_filename);
    s.append(",\"capital_audio_filename\":");
    push_optional_string(&mut s, &r.capital_audio_filename);
    s.append("}");
    s
}

} // verus!
