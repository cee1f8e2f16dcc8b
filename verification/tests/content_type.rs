use cloudflare_r2_rs::CloudFlareR2;

fn manager() -> CloudFlareR2 {
    CloudFlareR2::builder()
        .bucket_name("bucket")
        .url("https://example.invalid")
        .client_id("id")
        .secret_key("secret")
        .build()
        .unwrap()
}

#[test]
fn pdf_key_gets_pdf_content_type() {
    let req = manager().put_request("report.pdf", vec![1, 2, 3]);
    assert_eq!(req.content_type, "application/pdf");
}

#[test]
fn extensionless_key_gets_octet_stream() {
    let req = manager().put_request("noext", vec![]);
    assert_eq!(req.content_type, "application/octet-stream");
}

#[test]
fn unknown_extension_gets_octet_stream() {
    let req = manager().put_request("data.zzzzqq", vec![0]);
    assert_eq!(req.content_type, "application/octet-stream");
}

#[test]
fn text_key_gets_text_content_type() {
    let req = manager().put_request("notes/readme.txt", b"hello".to_vec());
    assert_eq!(req.content_type, "text/plain");
}

#[test]
fn put_request_carries_bucket_key_and_body() {
    let req = manager().put_request("a/b.png", vec![9, 8, 7]);
    assert_eq!(req.bucket, "bucket");
    assert_eq!(req.key, "a/b.png");
    assert_eq!(req.body, vec![9, 8, 7]);
    assert_eq!(req.content_type, "image/png");
}
