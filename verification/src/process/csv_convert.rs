//! CSV conversion: parse CSV input and render the records, zipped with the
//! header row, as JSON or YAML text.

use vstd::prelude::*;

use crate::cli::csv_opt::OutputFormat;

verus! {

/// Errors of the CSV conversion.
#[derive(Debug, Clone, Copy, PartialEq, Eq, Structural)]
pub enum CsvError {
    /// The input is not well-formed CSV.
    Parse,
    /// The rendering backend rejected the converted records.
    Render,
}

/// What CSV parsing yields for the input bytes, with the default reader
/// settings (comma delimiter, first row as headers): the header row and the
/// records, or nothing when the input is rejected.
pub uninterp spec fn csv_parse(data: Seq<u8>) -> Option<(Seq<Seq<char>>, Seq<Seq<Seq<char>>>)>;

#[verifier::external_type_specification]
#[verifier::external_body]
pub struct ExCsvReadError(csv::Error);

/// Relies on csv::Reader (from_reader, headers, records) with the default
/// settings: the parsed header row and string records of the input bytes.
#[verifier::external_body]
fn csv_parse_bytes(data: &[u8]) -> (r: Result<(Vec<String>, Vec<Vec<String>>), csv::Error>)
    ensures
        r matches Ok(t) ==> csv_parse(data@) matches Some(p) && p.0 == t.0.deep_view() && p.1
            == t.1.deep_view(),
        r is Ok <==> csv_parse(data@) is Some,
{
    let mut reader = csv::Reader::from_reader(data);
    let headers: Vec<String> = reader.headers()?.iter().map(|h| h.to_string()).collect();
    let mut rows: Vec<Vec<String>> = Vec::new();
    for record in reader.records() {
        let record = record?;
        rows.push(record.iter().map(|f| f.to_string()).collect());
    }
    Ok((headers, rows))
}

/// The pretty-printed JSON array of objects that the JSON backend renders
/// for the records zipped with the headers: deterministic text of both.
pub uninterp spec fn json_rows_text(headers: Seq<Seq<char>>, rows: Seq<Seq<Seq<char>>>) -> Seq<
    char,
>;

/// Relies on serde_json::to_string_pretty over objects built by zipping each
/// record with the headers.
#[verifier::external_body]
fn rows_to_json(headers: &Vec<String>, rows: &Vec<Vec<String>>) -> (r: Result<String, CsvError>)
    ensures
        r matches Ok(t) ==> t@ == json_rows_text(headers.deep_view(), rows.deep_view()),
        r matches Err(e) ==> e == CsvError::Render,
{
    let mut values: Vec<serde_json::Value> = Vec::new();
    for row in rows {
        let mut object = serde_json::Map::new();
        for (header, field) in headers.iter().zip(row.iter()) {
            object.insert(header.clone(), serde_json::Value::from(field.as_str()));
        }
        values.push(serde_json::Value::Object(object));
    }
    serde_json::to_string_pretty(&values).map_err(|_| CsvError::Render)
}

/// The YAML document that the YAML backend renders for the records zipped
/// with the headers: deterministic text of both.
pub uninterp spec fn yaml_rows_text(headers: Seq<Seq<char>>, rows: Seq<Seq<Seq<char>>>) -> Seq<
    char,
>;

/// Relies on serde_yaml::to_string over the same zipped objects.
#[verifier::external_body]
fn rows_to_yaml(headers: &Vec<String>, rows: &Vec<Vec<String>>) -> (r: Result<String, CsvError>)
    ensures
        r matches Ok(t) ==> t@ == yaml_rows_text(headers.deep_view(), rows.deep_view()),
        r matches Err(e) ==> e == CsvError::Render,
{
    let mut values: Vec<serde_json::Value> = Vec::new();
    for row in rows {
        let mut object = serde_json::Map::new();
        for (header, field) in headers.iter().zip(row.iter()) {
            object.insert(header.clone(), serde_json::Value::from(field.as_str()));
        }
        values.push(serde_json::Value::Object(object));
    }
    serde_yaml::to_string(&values).map_err(|_| CsvError::Render)
}

/// Convert CSV input to the selected output format: parse it with the
/// default reader settings and render every record as an object keyed by the
/// header row.
pub fn process_csv(data: &[u8], format: OutputFormat) -> (r: Result<String, CsvError>)
    ensures
        csv_parse(data@) is None ==> (r matches Err(e) && e == CsvError::Parse),
        r matches Ok(t) ==> (csv_parse(data@) matches Some(p) && match format {
            OutputFormat::Json => t@ == json_rows_text(p.0, p.1),
            OutputFormat::Yaml => t@ == yaml_rows_text(p.0, p.1),
        }),
        r matches Err(e) ==> (e == CsvError::Render ==> csv_parse(data@) is Some),
{
    let parsed = match csv_parse_bytes(data) {
        Ok(t) => t,
        Err(_) => {
            return Err(CsvError::Parse);
        },
    };
    match format {
        OutputFormat::Json => rows_to_json(&parsed.0, &parsed.1),
        OutputFormat::Yaml => rows_to_yaml(&parsed.0, &parsed.1),
    }
}

} // verus!
