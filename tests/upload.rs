use coveralls_api::{UploadPart, COVERALLS_ENDPOINT};

#[test]
fn report_part_is_gzipped_json() {
    let json = b"{\"repo_token\":\"t\",\"source_files\":[]}".to_vec();
    let part = UploadPart::for_report(&json);
    assert_eq!(part.part_name, "json_file");
    assert_eq!(part.content_type, "gzip/json");
    assert_eq!(part.file_name, "report");
    assert_ne!(part.body, json);
    assert_eq!(&part.body[..2], &[0x1f, 0x8b]);
    assert_eq!(COVERALLS_ENDPOINT, "https://coveralls.io/api/v1/jobs");
}

#[test]
fn report_part_names_unix_in_gzip_header() {
    let part = UploadPart::for_report(&b"{}".to_vec());
    assert_eq!(part.body[2], 8);
    assert_eq!(part.body[9], 3);
}
