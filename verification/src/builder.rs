use vstd::prelude::*;

use crate::client::make_client;
use crate::client::CloudFlareR2;
use crate::errors::FieldName;
use crate::errors::R2Error;
use core::marker::PhantomData;
use std::sync::Arc;

verus! {

/// Type-state marker: no endpoint URL supplied yet.
pub struct EmptyUrl;

/// Type-state marker: an endpoint URL has been supplied.
pub struct WithUrl;

/// Type-state marker: no bucket name supplied yet.
pub struct EmptyBucket;

/// Type-state marker: a bucket name has been supplied.
pub struct WithBucket;

/// Type-state marker: no client id supplied yet.
pub struct EmptyClientId;

/// Type-state marker: a client id has been supplied.
pub struct WithClientId;

/// Type-state marker: no secret key supplied yet.
pub struct EmptySecret;

/// Type-state marker: a secret key has been supplied.
pub struct WithSecret;

/// The configuration a builder has accumulated, as four optional strings.
#[verifier::ext_equal]
pub struct ConfigView {
    pub bucket_name: Option<Seq<char>>,
    pub url: Option<Seq<char>>,
    pub client_id: Option<Seq<char>>,
    pub secret_key: Option<Seq<char>>,
}

/// The configuration of a fresh builder: nothing supplied.
pub open spec fn empty_config() -> ConfigView {
    ConfigView { bucket_name: None, url: None, client_id: None, secret_key: None }
}

/// What supplying a bucket name does to a configuration.
pub open spec fn with_bucket_name(c: ConfigView, v: Seq<char>) -> ConfigView {
    ConfigView { bucket_name: Some(v), ..c }
}

/// What supplying an endpoint URL does to a configuration.
pub open spec fn with_url(c: ConfigView, v: Seq<char>) -> ConfigView {
    ConfigView { url: Some(v), ..c }
}

/// What supplying a client id does to a configuration.
pub open spec fn with_client_id(c: ConfigView, v: Seq<char>) -> ConfigView {
    ConfigView { client_id: Some(v), ..c }
}

/// What supplying a secret key does to a configuration.
pub open spec fn with_secret_key(c: ConfigView, v: Seq<char>) -> ConfigView {
    ConfigView { secret_key: Some(v), ..c }
}

/// The first unset field of a configuration, in the order `build` checks
/// them, or `None` when the configuration is complete.
pub open spec fn missing_field(c: ConfigView) -> Option<FieldName> {
    if c.bucket_name is None {
        Some(FieldName::BucketName)
    } else if c.url is None {
        Some(FieldName::Url)
    } else if c.client_id is None {
        Some(FieldName::ClientId)
    } else if c.secret_key is None {
        Some(FieldName::SecretKey)
    } else {
        None
    }
}

/// Accumulates the four connection fields. The four type parameters record,
/// one marker each, which fields have been supplied, so that `build` is only
/// callable on a builder that has all four.
pub struct R2ManagerBuilder<UrlState, BucketState, ClientIdState, SecretState> {
    pub(crate) bucket_name: Option<String>,
    pub(crate) url: Option<String>,
    pub(crate) client_id: Option<String>,
    pub(crate) secret_key: Option<String>,
    pub(crate) url_marker: PhantomData<UrlState>,
    pub(crate) bucket_marker: PhantomData<BucketState>,
    pub(crate) client_id_marker: PhantomData<ClientIdState>,
    pub(crate) secret_marker: PhantomData<SecretState>,
}

impl<UrlState, BucketState, ClientIdState, SecretState> View for R2ManagerBuilder<
    UrlState,
    BucketState,
    ClientIdState,
    SecretState,
> {
    type V = ConfigView;

    closed spec fn view(&self) -> ConfigView {
        ConfigView {
            bucket_name: self.bucket_name.deep_view(),
            url: self.url.deep_view(),
            client_id: self.client_id.deep_view(),
            secret_key: self.secret_key.deep_view(),
        }
    }
}

impl R2ManagerBuilder<EmptyUrl, EmptyBucket, EmptyClientId, EmptySecret> {
    /// A fresh builder with no field supplied.
    pub fn new() -> (r: Self)
        ensures
            r@ == empty_config(),
    {
        let r = R2ManagerBuilder {
            bucket_name: None,
            url: None,
            client_id: None,
            secret_key: None,
            url_marker: PhantomData,
            bucket_marker: PhantomData,
            client_id_marker: PhantomData,
            secret_marker: PhantomData,
        };
        proof {
            assert(r@ =~= empty_config());
        }
        r
    }
}

impl<UrlState, BucketState, ClientIdState, SecretState> R2ManagerBuilder<
    UrlState,
    BucketState,
    ClientIdState,
    SecretState,
> {
    /// Supplies the endpoint URL; a repeated call overwrites the earlier value.
    pub fn url(self, uri: &str) -> (r: R2ManagerBuilder<
        WithUrl,
        BucketState,
        ClientIdState,
        SecretState,
    >)
        ensures
            r@ == with_url(self@, uri@),
    {
        let r = R2ManagerBuilder {
            url: Some(uri.to_owned()),
            bucket_name: self.bucket_name,
            client_id: self.client_id,
            secret_key: self.secret_key,
            url_marker: PhantomData,
            bucket_marker: PhantomData,
            client_id_marker: PhantomData,
            secret_marker: PhantomData,
        };
        proof {
            assert(r@ =~= with_url(self@, uri@));
        }
        r
    }

    /// Supplies the bucket name; a repeated call overwrites the earlier value.
    pub fn bucket_name(self, bucket_name: &str) -> (r: R2ManagerBuilder<
        UrlState,
        WithBucket,
        ClientIdState,
        SecretState,
    >)
        ensures
            r@ == with_bucket_name(self@, bucket_name@),
    {
        let r = R2ManagerBuilder {
            bucket_name: Some(bucket_name.to_owned()),
            url: self.url,
            client_id: self.client_id,
            secret_key: self.secret_key,
            url_marker: PhantomData,
            bucket_marker: PhantomData,
            client_id_marker: PhantomData,
            secret_marker: PhantomData,
        };
        proof {
            assert(r@ =~= with_bucket_name(self@, bucket_name@));
        }
        r
    }

    /// Supplies the client id; a repeated call overwrites the earlier value.
    pub fn client_id(self, client_id: &str) -> (r: R2ManagerBuilder<
        UrlState,
        BucketState,
        WithClientId,
        SecretState,
    >)
        ensures
            r@ == with_client_id(self@, client_id@),
    {
        let r = R2ManagerBuilder {
            client_id: Some(client_id.to_owned()),
            bucket_name: self.bucket_name,
            url: self.url,
            secret_key: self.secret_key,
            url_marker: PhantomData,
            bucket_marker: PhantomData,
            client_id_marker: PhantomData,
            secret_marker: PhantomData,
        };
        proof {
            assert(r@ =~= with_client_id(self@, client_id@));
        }
        r
    }

    /// Supplies the secret key; a repeated call overwrites the earlier value.
    pub fn secret_key(self, secret: &str) -> (r: R2ManagerBuilder<
        UrlState,
        BucketState,
        ClientIdState,
        WithSecret,
    >)
        ensures
            r@ == with_secret_key(self@, secret@),
    {
        let r = R2ManagerBuilder {
            secret_key: Some(secret.to_owned()),
            bucket_name: self.bucket_name,
            url: self.url,
            client_id: self.client_id,
            url_marker: PhantomData,
            bucket_marker: PhantomData,
            client_id_marker: PhantomData,
            secret_marker: PhantomData,
        };
        proof {
            assert(r@ =~= with_secret_key(self@, secret@));
        }
        r
    }
}

impl R2ManagerBuilder<WithUrl, WithBucket, WithClientId, WithSecret> {
    /// Validates that every field is present and wires a client to the
    /// service: the endpoint URL, a fixed region identifier, and credentials
    /// built from the client id and the secret key. The error names the
    /// first field found missing, in the order bucket name, URL, client id,
    /// secret key.
    pub fn build(self) -> (r: Result<CloudFlareR2, R2Error>)
        ensures
            missing_field(self@) is None ==> (r matches Ok(c) && c@ == self@.bucket_name->Some_0),
            missing_field(self@) matches Some(f) ==> r == Err::<CloudFlareR2, R2Error>(
                R2Error::MissingField(f),
            ),
    {
        let bucket_name = match self.bucket_name {
            Some(b) => b,
            None => {
                return Err(R2Error::MissingField(FieldName::BucketName));
            },
        };
        let url = match self.url {
            Some(u) => u,
            None => {
                return Err(R2Error::MissingField(FieldName::Url));
            },
        };
        let client_id = match self.client_id {
            Some(c) => c,
            None => {
                return Err(R2Error::MissingField(FieldName::ClientId));
            },
        };
        let secret_key = match self.secret_key {
            Some(s) => s,
            None => {
                return Err(R2Error::MissingField(FieldName::SecretKey));
            },
        };
        let client = make_client(url.as_str(), client_id.as_str(), secret_key.as_str());
        Ok(CloudFlareR2::from_parts(bucket_name, Arc::new(client)))
    }
}

/// One call of one of the four setters: the field it supplies and the value.
pub struct SetterCall {
    pub field: FieldName,
    pub value: Seq<char>,
}

/// The configuration a setter call leaves behind.
pub open spec fn apply_setter(c: ConfigView, op: SetterCall) -> ConfigView {
    match op.field {
        FieldName::BucketName => with_bucket_name(c, op.value),
        FieldName::Url => with_url(c, op.value),
        FieldName::ClientId => with_client_id(c, op.value),
        FieldName::SecretKey => with_secret_key(c, op.value),
    }
}

/// The configuration a whole run of setter calls leaves behind, first call
/// first.
pub open spec fn apply_setters(c: ConfigView, ops: Seq<SetterCall>) -> ConfigView
    decreases ops.len(),
{
    if ops.len() == 0 {
        c
    } else {
        apply_setter(apply_setters(c, ops.drop_last()), ops.last())
    }
}

/// Whether some call in a run supplies the given field.
pub open spec fn supplies(ops: Seq<SetterCall>, f: FieldName) -> bool {
    exists|i: int| 0 <= i < ops.len() && ops[i].field == f
}

proof fn lemma_apply_setters_field(c: ConfigView, ops: Seq<SetterCall>)
    ensures
        apply_setters(c, ops).bucket_name is Some <==> (c.bucket_name is Some || supplies(
            ops,
            FieldName::BucketName,
        )),
        apply_setters(c, ops).url is Some <==> (c.url is Some || supplies(ops, FieldName::Url)),
        apply_setters(c, ops).client_id is Some <==> (c.client_id is Some || supplies(
            ops,
            FieldName::ClientId,
        )),
        apply_setters(c, ops).secret_key is Some <==> (c.secret_key is Some || supplies(
            ops,
            FieldName::SecretKey,
        )),
    decreases ops.len(),
{
    if ops.len() > 0 {
        lemma_apply_setters_field(c, ops.drop_last());
        assert forall|f: FieldName| supplies(ops.drop_last(), f) implies supplies(ops, f) by {
            let i = choose|i: int|
                0 <= i < ops.drop_last().len() && ops.drop_last()[i].field == f;
            assert(ops[i].field == f);
        }
        if supplies(ops, FieldName::BucketName) && ops.last().field != FieldName::BucketName
            && !supplies(ops.drop_last(), FieldName::BucketName) {
            let i = choose|i: int| 0 <= i < ops.len() && ops[i].field == FieldName::BucketName;
            assert(ops.drop_last()[i].field == FieldName::BucketName);
        }
        if supplies(ops, FieldName::Url) && ops.last().field != FieldName::Url && !supplies(
            ops.drop_last(),
            FieldName::Url,
        ) {
            let i = choose|i: int| 0 <= i < ops.len() && ops[i].field == FieldName::Url;
            assert(ops.drop_last()[i].field == FieldName::Url);
        }
        if supplies(ops, FieldName::ClientId) && ops.last().field != FieldName::ClientId
            && !supplies(ops.drop_last(), FieldName::ClientId) {
            let i = choose|i: int| 0 <= i < ops.len() && ops[i].field == FieldName::ClientId;
            assert(ops.drop_last()[i].field == FieldName::ClientId);
        }
        if supplies(ops, FieldName::SecretKey) && ops.last().field != FieldName::SecretKey
            && !supplies(ops.drop_last(), FieldName::SecretKey) {
            let i = choose|i: int| 0 <= i < ops.len() && ops[i].field == FieldName::SecretKey;
            assert(ops.drop_last()[i].field == FieldName::SecretKey);
        }
    }
}

/// Builder completeness: a run of setter calls on a fresh builder leaves a
/// configuration with no missing field -- one on which `build` succeeds --
/// exactly when every one of the four setters occurs in the run, in whatever
/// order and however often; a run that leaves out any setter leaves a
/// configuration on which `build` reports that field missing.
pub proof fn lemma_builder_completeness(ops: Seq<SetterCall>)
    ensures
        missing_field(apply_setters(empty_config(), ops)) is None <==> (supplies(
            ops,
            FieldName::BucketName,
        ) && supplies(ops, FieldName::Url) && supplies(ops, FieldName::ClientId) && supplies(
            ops,
            FieldName::SecretKey,
        )),
{
    lemma_apply_setters_field(empty_config(), ops);
}

/// Setters keep the last value: two calls that supply the same field leave
/// exactly what the later call alone would have left.
pub proof fn lemma_setter_last_wins(c: ConfigView, first: SetterCall, second: SetterCall)
    requires
        first.field == second.field,
    ensures
        apply_setter(apply_setter(c, first), second) == apply_setter(c, second),
{
    assert(apply_setter(apply_setter(c, first), second) =~= apply_setter(c, second));
}

/// Setters that supply distinct fields commute: the order of a run of
/// setter calls does not matter to the configuration it leaves, only which
/// field each call supplies last.
pub proof fn lemma_setters_commute(c: ConfigView, first: SetterCall, second: SetterCall)
    requires
        first.field != second.field,
    ensures
        apply_setter(apply_setter(c, first), second) == apply_setter(apply_setter(c, second), first),
{
    assert(apply_setter(apply_setter(c, first), second) =~= apply_setter(
        apply_setter(c, second),
        first,
    ));
}

} // verus!
