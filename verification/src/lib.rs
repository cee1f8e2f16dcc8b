mod builder;
mod client;
mod errors;
mod listing;
mod paths;

pub use builder::empty_config;
pub use builder::apply_setter;
pub use builder::apply_setters;
pub use builder::lemma_builder_completeness;
pub use builder::lemma_setter_last_wins;
pub use builder::lemma_setters_commute;
pub use builder::missing_field;
pub use builder::supplies;
pub use builder::with_bucket_name;
pub use builder::with_client_id;
pub use builder::with_secret_key;
pub use builder::with_url;
pub use builder::ConfigView;
pub use builder::EmptyBucket;
pub use builder::EmptyClientId;
pub use builder::EmptySecret;
pub use builder::EmptyUrl;
pub use builder::R2ManagerBuilder;
pub use builder::SetterCall;
pub use builder::WithBucket;
pub use builder::WithClientId;
pub use builder::WithSecret;
pub use builder::WithUrl;
pub use client::bucket_op_outcome;
pub use client::delete_object_outcome;
pub use client::mime_of;
pub use client::object_op_outcome;
pub use client::put_object_outcome;
pub use client::CloudFlareR2;
pub use client::PutRequest;
pub use errors::FieldName;
pub use errors::R2Error;
pub use listing::lemma_pagination_complete;
pub use listing::page_keys;
pub use listing::pages_keys;
pub use listing::present_keys;
pub use listing::KeyListing;
pub use listing::ListAction;
pub use listing::ListPage;
pub use paths::destination_check;
pub use paths::has_separator;
pub use paths::is_parent_of;
pub use paths::join_path;
pub use paths::joined_path;
pub use paths::parent_of;

