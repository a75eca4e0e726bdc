use vstd::prelude::*;

verus! {

/// The coveralls.io endpoint that receives reports.
pub const COVERALLS_ENDPOINT: &'static str = "https://coveralls.io/api/v1/jobs";

/// What deflate's gzip encoder gives for these bytes, with a header that
/// names Unix as the originating system.
pub uninterp spec fn gzip_of(data: Seq<u8>) -> Seq<u8>;

/// Relies on deflate::deflate_bytes_gzip_conf at the default compression
/// level, with a gzip_header::GzBuilder whose system field is set to Unix.
/// Its other header fields are constants (no name, comment or extra field,
/// mtime 0), so the stream is a function of the input alone.
#[verifier::external_body]
fn gzip(data: &[u8]) -> (r: Vec<u8>)
    ensures
        r@ == gzip_of(data@),
{
    let header = gzip_header::GzBuilder::new().os(gzip_header::FileSystemType::Unix);
    deflate::deflate_bytes_gzip_conf(data, deflate::Compression::Default, header)
}

/// The multipart form part that carries a report: its part name, content
/// type and file name, and the gzipped JSON body.
#[derive(Clone, PartialEq, Eq, Hash, Debug)]
pub struct UploadPart {
    pub part_name: String,
    pub content_type: String,
    pub file_name: String,
    pub body: Vec<u8>,
}

impl UploadPart {
    /// The part that carries a report already encoded as JSON.
    pub fn for_report(json: &Vec<u8>) -> (r: UploadPart)
        ensures
            r.part_name@ == "json_file"@,
            r.content_type@ == "gzip/json"@,
            r.file_name@ == "report"@,
            r.body@ == gzip_of(json@),
    {
        UploadPart {
            part_name: "json_file".to_owned(),
            content_type: "gzip/json".to_owned(),
            file_name: "report".to_owned(),
            body: gzip(json.as_slice()),
        }
    }
}

} // verus!
