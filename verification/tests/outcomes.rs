use cloudflare_r2_rs::bucket_op_outcome;
use cloudflare_r2_rs::delete_object_outcome;
use cloudflare_r2_rs::object_op_outcome;
use cloudflare_r2_rs::put_object_outcome;
use cloudflare_r2_rs::R2Error;

#[test]
fn bucket_ops_report_success_as_unit() {
    assert_eq!(bucket_op_outcome(true), Ok(()));
}

#[test]
fn bucket_ops_report_failure_as_bucket_op_failed() {
    assert_eq!(bucket_op_outcome(false), Err(R2Error::BucketOpFailed));
}

#[test]
fn put_echoes_the_key_on_success() {
    assert_eq!(put_object_outcome("some/key.txt", true), Ok("some/key.txt".to_string()));
}

#[test]
fn put_reports_failure_as_object_op_failed() {
    assert_eq!(put_object_outcome("some/key.txt", false), Err(R2Error::ObjectOpFailed));
}

#[test]
fn delete_confirms_on_success() {
    assert_eq!(delete_object_outcome(true), Ok(true));
}

#[test]
fn delete_reports_failure_as_object_op_failed() {
    assert_eq!(delete_object_outcome(false), Err(R2Error::ObjectOpFailed));
}

#[test]
fn a_fetched_body_comes_back_unchanged() {
    let body: Vec<u8> = vec![0, 1, 2, 255];
    assert_eq!(object_op_outcome(Some(body.clone())), Ok(body));
}

#[test]
fn a_missing_body_is_object_op_failed() {
    assert_eq!(object_op_outcome::<Vec<u8>>(None), Err(R2Error::ObjectOpFailed));
}
