//! Storage backends and their resolution to a repository address plus the
//! backend-specific environment variables the backup engine expects.

use vstd::prelude::*;

verus! {

/// A repository on the local filesystem.
pub struct LocalPath {
    pub path: String,
}

/// An S3-compatible object-store repository.
///
/// `endpoint` and `region` are optional; an absent (or empty) endpoint falls
/// back to the default public endpoint, and the region variable is only
/// emitted when a region is present.
pub struct S3Info {
    pub bucket: String,
    pub endpoint: Option<String>,
    pub access_key_id: String,
    pub secret_access_key: String,
    pub region: Option<String>,
}

/// The storage backend a backup repository lives in; exactly one variant is
/// active and the tag is explicit.
pub enum Repository {
    S3(S3Info),
    Local(LocalPath),
}

/// The endpoint host used in an S3 address: the configured endpoint when it
/// is present and non-empty, the default public endpoint otherwise.
pub open spec fn spec_endpoint_host(endpoint: Option<Seq<char>>) -> Seq<char> {
    match endpoint {
        Some(e) => if e.len() == 0 {
            "s3.amazonaws.com"@
        } else {
            e
        },
        None => "s3.amazonaws.com"@,
    }
}

/// The repository address of an S3 backend: `s3:<endpoint-host>/<bucket>`.
pub open spec fn spec_s3_url(bucket: Seq<char>, endpoint: Option<Seq<char>>) -> Seq<char> {
    "s3:"@ + spec_endpoint_host(endpoint) + "/"@ + bucket
}

impl S3Info {
    /// The address this backend resolves to.
    pub open spec fn spec_url(&self) -> Seq<char> {
        spec_s3_url(self.bucket@, self.endpoint.deep_view())
    }

    /// The environment variables this backend requires: both credential
    /// variables always, the region variable only when a region is present.
    pub open spec fn spec_env(&self) -> Seq<(Seq<char>, Seq<char>)> {
        let keys = seq![
            ("AWS_ACCESS_KEY_ID"@, self.access_key_id@),
            ("AWS_SECRET_ACCESS_KEY"@, self.secret_access_key@),
        ];
        match self.region {
            Some(r) => keys + seq![("AWS_DEFAULT_REGION"@, r@)],
            None => keys,
        }
    }

    /// The repository address for this S3 backend.
    pub fn url(&self) -> (r: String)
        ensures
            r@ == self.spec_url(),
    {
        let mut s = String::from_str("s3:");
        match &self.endpoint {
            Some(e) => {
                if e.as_str().is_empty() {
                    s.append("s3.amazonaws.com");
                } else {
                    s.append(e.as_str());
                }
            },
            None => {
                s.append("s3.amazonaws.com");
            },
        }
        s.append("/");
        s.append(self.bucket.as_str());
        proof {
            assert(s@ =~= self.spec_url());
        }
        s
    }
}

impl Repository {
    /// The repository address of either backend variant.
    pub open spec fn spec_path(&self) -> Seq<char> {
        match self {
            Repository::Local(lp) => lp.path@,
            Repository::S3(s3) => s3.spec_url(),
        }
    }

    /// The backend-specific environment: empty for a local repository.
    pub open spec fn spec_env(&self) -> Seq<(Seq<char>, Seq<char>)> {
        match self {
            Repository::Local(_) => Seq::empty(),
            Repository::S3(s3) => s3.spec_env(),
        }
    }

    /// The repository address handed to the backup engine.
    pub fn path(&self) -> (r: String)
        ensures
            r@ == self.spec_path(),
    {
        match self {
            Repository::Local(lp) => lp.path.clone(),
            Repository::S3(s3) => s3.url(),
        }
    }

    /// Resolves this backend to its repository address and the
    /// backend-specific environment variables, purely syntactically: no
    /// credential or network validation happens here.
    pub fn resolve(&self) -> (r: (String, Vec<(String, String)>))
        ensures
            r.0@ == self.spec_path(),
            pair_views(r.1@) == self.spec_env(),
    {
        let address = self.path();
        let mut env: Vec<(String, String)> = Vec::new();
        match self {
            Repository::Local(_) => {},
            Repository::S3(s3) => {
                env.push((String::from_str("AWS_ACCESS_KEY_ID"), s3.access_key_id.clone()));
                env.push((String::from_str("AWS_SECRET_ACCESS_KEY"), s3.secret_access_key.clone()));
                match &s3.region {
                    Some(region) => {
                        env.push((String::from_str("AWS_DEFAULT_REGION"), region.clone()));
                    },
                    None => {},
                }
            },
        }
        proof {
            assert(pair_views(env@) =~= self.spec_env());
        }
        (address, env)
    }
}

/// The view of a sequence of environment entries, name and value each taken
/// to its character sequence.
pub open spec fn pair_views(s: Seq<(String, String)>) -> Seq<(Seq<char>, Seq<char>)> {
    s.map_values(|p: (String, String)| (p.0@, p.1@))
}

/// The view of a sequence of strings, each taken to its character sequence.
pub open spec fn str_views(s: Seq<String>) -> Seq<Seq<char>> {
    s.map_values(|x: String| x@)
}

/// Every S3 backend without a configured endpoint resolves to an address on
/// the default public endpoint: the address is exactly
/// `s3:s3.amazonaws.com/<bucket>`.
pub proof fn lemma_s3_url_default_endpoint(bucket: Seq<char>)
    ensures
        spec_s3_url(bucket, None) == "s3:s3.amazonaws.com/"@ + bucket,
{
    reveal_strlit("s3:");
    reveal_strlit("s3.amazonaws.com");
    reveal_strlit("/");
    reveal_strlit("s3:s3.amazonaws.com/");
    assert(spec_s3_url(bucket, None) =~= "s3:s3.amazonaws.com/"@ + bucket);
}

/// Every S3 backend with a non-empty configured endpoint resolves to an
/// address built from that endpoint: `s3:<endpoint>/<bucket>`.
pub proof fn lemma_s3_url_custom_endpoint(bucket: Seq<char>, endpoint: Seq<char>)
    requires
        endpoint.len() > 0,
    ensures
        spec_s3_url(bucket, Some(endpoint)) == "s3:"@ + endpoint + "/"@ + bucket,
{
}

} // verus!
