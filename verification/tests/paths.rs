use cloudflare_r2_rs::destination_check;
use cloudflare_r2_rs::join_path;
use cloudflare_r2_rs::parent_of;
use cloudflare_r2_rs::R2Error;

#[test]
fn join_inserts_one_separator() {
    assert_eq!(join_path("dir", "k"), "dir/k");
}

#[test]
fn join_keeps_a_trailing_separator_single() {
    assert_eq!(join_path("dir/", "k"), "dir/k");
}

#[test]
fn join_carries_separators_embedded_in_the_key() {
    assert_eq!(join_path("downloads", "photos/2024/shot.png"), "downloads/photos/2024/shot.png");
}

#[test]
fn parent_is_everything_before_the_last_separator() {
    assert_eq!(parent_of("dir/a/b").as_deref(), Some("dir/a"));
    assert_eq!(parent_of("dir/k").as_deref(), Some("dir"));
}

#[test]
fn path_without_separator_has_no_parent() {
    assert_eq!(parent_of("noslash"), None);
}

#[test]
fn parent_of_a_joined_download_path_is_where_directories_are_made() {
    let target = join_path("dir", "photos/shot.png");
    assert_eq!(parent_of(&target).as_deref(), Some("dir/photos"));
}

#[test]
fn a_directory_is_an_accepted_destination() {
    assert_eq!(destination_check(true), Ok(()));
}

#[test]
fn a_non_directory_destination_is_rejected() {
    assert_eq!(destination_check(false), Err(R2Error::InvalidDestination));
}
