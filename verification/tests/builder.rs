use cloudflare_r2_rs::CloudFlareR2;
use cloudflare_r2_rs::R2ManagerBuilder;

#[test]
fn full_set_builds() {
    let manager = R2ManagerBuilder::new()
        .bucket_name("bucket")
        .url("https://example.invalid")
        .client_id("id")
        .secret_key("secret")
        .build()
        .unwrap();
    assert_eq!(manager.get_bucket_name(), "bucket");
}

#[test]
fn full_set_builds_in_another_order() {
    let manager = CloudFlareR2::builder()
        .secret_key("secret")
        .url("https://example.invalid")
        .client_id("id")
        .bucket_name("bucket")
        .build()
        .unwrap();
    assert_eq!(manager.get_bucket_name(), "bucket");
}

#[test]
fn builder_entry_points_agree() {
    let a = CloudFlareR2::builder()
        .bucket_name("same")
        .url("https://example.invalid")
        .client_id("id")
        .secret_key("secret")
        .build()
        .unwrap();
    let b = R2ManagerBuilder::new()
        .bucket_name("same")
        .url("https://example.invalid")
        .client_id("id")
        .secret_key("secret")
        .build()
        .unwrap();
    assert_eq!(a.get_bucket_name(), b.get_bucket_name());
}

#[test]
fn repeated_setter_keeps_last_value() {
    let manager = CloudFlareR2::builder()
        .bucket_name("bucket-a")
        .url("https://example.invalid")
        .client_id("id")
        .secret_key("secret")
        .bucket_name("bucket-b")
        .build()
        .unwrap();
    assert_eq!(manager.get_bucket_name(), "bucket-b");
}

#[test]
fn repeated_url_and_credentials_still_build() {
    let manager = CloudFlareR2::builder()
        .bucket_name("bucket")
        .url("https://first.invalid")
        .url("https://second.invalid")
        .client_id("id-1")
        .client_id("id-2")
        .secret_key("s-1")
        .secret_key("s-2")
        .build()
        .unwrap();
    assert_eq!(manager.get_bucket_name(), "bucket");
}
