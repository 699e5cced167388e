use vstd::prelude::*;

verus! {

#[verifier::external_type_specification]
#[verifier::external_body]
pub struct ExCsvError(csv::Error);

/// The records that csv reads from a byte source, each a sequence of fields,
/// or `None` where it reports an error. The reader is flexible: rows may
/// differ in length, and a short row is read with the fields it has. The
/// first row is a header and is not among the records.
pub uninterp spec fn csv_records(data: Seq<u8>) -> Option<Seq<Seq<Seq<char>>>>;

/// The texts held by a sequence of records.
pub open spec fn records_view(records: Seq<Vec<String>>) -> Seq<Seq<Seq<char>>> {
    records.map_values(|r: Vec<String>| r@.map_values(|s: String| s@))
}

/// Relies on csv's `ReaderBuilder` (flexible, otherwise as by default) and
/// `Reader::records`: reads every record of `data`, each as its list of
/// fields, and stops at the first error. The result depends on the bytes alone.
#[verifier::external_body]
pub(crate) fn read_csv_records(data: &[u8]) -> (r: Result<Vec<Vec<String>>, csv::Error>)
    ensures
        match r {
            Ok(v) => csv_records(data@) == Some(records_view(v@)),
            Err(_) => csv_records(data@) is None,
        },
{
    csv::ReaderBuilder::new()
        .flexible(true)
        .from_reader(data)
        .records()
        .map(|rec| rec.map(|fields| fields.iter().map(|f| f.to_string()).collect()))
        .collect()
}

} // verus!
