use crate::stoo_config::{ConfigView, StooConfig, DEFAULT_NOT_SET};
use vstd::prelude::*;
use vstd::string::StringExecFns;

verus! {

/// One call to the store. Every entry is addressed by namespace, profile and
/// key; listing addresses a namespace and profile.
#[derive(Clone, Debug, PartialEq, Eq)]
pub enum Request {
    Get { namespace: String, profile: String, key: String },
    SetKey { namespace: String, profile: String, key: String, value: String },
    SetSecretKey { namespace: String, profile: String, key: String, value: String },
    Delete { namespace: String, profile: String, key: String },
    GetAll { namespace: String, profile: String },
}

/// The mathematical content of a `Request`.
pub enum RequestView {
    Get { namespace: Seq<char>, profile: Seq<char>, key: Seq<char> },
    SetKey { namespace: Seq<char>, profile: Seq<char>, key: Seq<char>, value: Seq<char> },
    SetSecretKey { namespace: Seq<char>, profile: Seq<char>, key: Seq<char>, value: Seq<char> },
    Delete { namespace: Seq<char>, profile: Seq<char>, key: Seq<char> },
    GetAll { namespace: Seq<char>, profile: Seq<char> },
}

impl View for Request {
    type V = RequestView;

    open spec fn view(&self) -> RequestView {
        match self {
            Request::Get { namespace, profile, key } => RequestView::Get {
                namespace: namespace@,
                profile: profile@,
                key: key@,
            },
            Request::SetKey { namespace, profile, key, value } => RequestView::SetKey {
                namespace: namespace@,
                profile: profile@,
                key: key@,
                value: value@,
            },
            Request::SetSecretKey { namespace, profile, key, value } => RequestView::SetSecretKey {
                namespace: namespace@,
                profile: profile@,
                key: key@,
                value: value@,
            },
            Request::Delete { namespace, profile, key } => RequestView::Delete {
                namespace: namespace@,
                profile: profile@,
                key: key@,
            },
            Request::GetAll { namespace, profile } => RequestView::GetAll {
                namespace: namespace@,
                profile: profile@,
            },
        }
    }
}

/// Whether both a default namespace and a default profile are configured.
pub open spec fn has_defaults(cfg: ConfigView) -> bool {
    cfg.default_namespace.len() != 0 && cfg.default_profile.len() != 0
}

/// The default namespace and profile of `config`, or the "default not set"
/// error when either is missing.
pub fn default_scope(config: &StooConfig) -> (r: Result<(&'static str, &'static str), String>)
    ensures
        match r {
            Ok((ns, profile)) => has_defaults(config@) && ns@ == config@.default_namespace
                && profile@ == config@.default_profile,
            Err(e) => !has_defaults(config@) && e@ == DEFAULT_NOT_SET@,
        },
{
    let ns = match config.get_default_namespace() {
        Ok(ns) => ns,
        Err(e) => return Err(e),
    };
    let profile = match config.get_default_profile() {
        Ok(profile) => profile,
        Err(e) => return Err(e),
    };
    Ok((ns, profile))
}

impl Request {
    /// A lookup of `key` under `namespace` and `profile`.
    pub fn get(namespace: &str, profile: &str, key: &str) -> (r: Request)
        ensures
            r@ == (RequestView::Get { namespace: namespace@, profile: profile@, key: key@ }),
    {
        Request::Get {
            namespace: String::from_str(namespace),
            profile: String::from_str(profile),
            key: String::from_str(key),
        }
    }

    /// A write of `value` to `key` under `namespace` and `profile`.
    pub fn set(namespace: &str, profile: &str, key: &str, value: &str) -> (r: Request)
        ensures
            r@ == (RequestView::SetKey {
                namespace: namespace@,
                profile: profile@,
                key: key@,
                value: value@,
            }),
    {
        Request::SetKey {
            namespace: String::from_str(namespace),
            profile: String::from_str(profile),
            key: String::from_str(key),
            value: String::from_str(value),
        }
    }

    /// A write of the secret `value` to `key` under `namespace` and `profile`.
    pub fn set_secret(namespace: &str, profile: &str, key: &str, value: &str) -> (r: Request)
        ensures
            r@ == (RequestView::SetSecretKey {
                namespace: namespace@,
                profile: profile@,
                key: key@,
                value: value@,
            }),
    {
        Request::SetSecretKey {
            namespace: String::from_str(namespace),
            profile: String::from_str(profile),
            key: String::from_str(key),
            value: String::from_str(value),
        }
    }

    /// A removal of `key` under `namespace` and `profile`.
    pub fn delete(namespace: &str, profile: &str, key: &str) -> (r: Request)
        ensures
            r@ == (RequestView::Delete { namespace: namespace@, profile: profile@, key: key@ }),
    {
        Request::Delete {
            namespace: String::from_str(namespace),
            profile: String::from_str(profile),
            key: String::from_str(key),
        }
    }

    /// A listing of every entry under `namespace` and `profile`.
    pub fn get_all_by_namespace_and_profile(namespace: &str, profile: &str) -> (r: Request)
        ensures
            r@ == (RequestView::GetAll { namespace: namespace@, profile: profile@ }),
    {
        Request::GetAll { namespace: String::from_str(namespace), profile: String::from_str(profile) }
    }

    /// A lookup of `key` under the default namespace and profile of `config`.
    pub fn get_default(config: &StooConfig, key: &str) -> (r: Result<Request, String>)
        ensures
            match r {
                Ok(req) => has_defaults(config@) && req@ == (RequestView::Get {
                    namespace: config@.default_namespace,
                    profile: config@.default_profile,
                    key: key@,
                }),
                Err(e) => !has_defaults(config@) && e@ == DEFAULT_NOT_SET@,
            },
    {
        match default_scope(config) {
            Ok((ns, profile)) => Ok(Request::get(ns, profile, key)),
            Err(e) => Err(e),
        }
    }

    /// A write of `value` to `key` under the default namespace and profile of
    /// `config`.
    pub fn set_default(config: &StooConfig, key: &str, value: &str) -> (r: Result<Request, String>)
        ensures
            match r {
                Ok(req) => has_defaults(config@) && req@ == (RequestView::SetKey {
                    namespace: config@.default_namespace,
                    profile: config@.default_profile,
                    key: key@,
                    value: value@,
                }),
                Err(e) => !has_defaults(config@) && e@ == DEFAULT_NOT_SET@,
            },
    {
        match default_scope(config) {
            Ok((ns, profile)) => Ok(Request::set(ns, profile, key, value)),
            Err(e) => Err(e),
        }
    }

    /// A write of the secret `value` to `key` under the default namespace and
    /// profile of `config`.
    pub fn set_secret_default(config: &StooConfig, key: &str, value: &str) -> (r: Result<
        Request,
        String,
    >)
        ensures
            match r {
                Ok(req) => has_defaults(config@) && req@ == (RequestView::SetSecretKey {
                    namespace: config@.default_namespace,
                    profile: config@.default_profile,
                    key: key@,
                    value: value@,
                }),
                Err(e) => !has_defaults(config@) && e@ == DEFAULT_NOT_SET@,
            },
    {
        match default_scope(config) {
            Ok((ns, profile)) => Ok(Request::set_secret(ns, profile, key, value)),
            Err(e) => Err(e),
        }
    }

    /// A removal of `key` under the default namespace and profile of `config`.
    pub fn delete_default(config: &StooConfig, key: &str) -> (r: Result<Request, String>)
        ensures
            match r {
                Ok(req) => has_defaults(config@) && req@ == (RequestView::Delete {
                    namespace: config@.default_namespace,
                    profile: config@.default_profile,
                    key: key@,
                }),
                Err(e) => !has_defaults(config@) && e@ == DEFAULT_NOT_SET@,
            },
    {
        match default_scope(config) {
            Ok((ns, profile)) => Ok(Request::delete(ns, profile, key)),
            Err(e) => Err(e),
        }
    }

    /// A listing of every entry under the default namespace and profile of
    /// `config`.
    pub fn get_all_by_default_namespace_and_profile(config: &StooConfig) -> (r: Result<
        Request,
        String,
    >)
        ensures
            match r {
                Ok(req) => has_defaults(config@) && req@ == (RequestView::GetAll {
                    namespace: config@.default_namespace,
                    profile: config@.default_profile,
                }),
                Err(e) => !has_defaults(config@) && e@ == DEFAULT_NOT_SET@,
            },
    {
        match default_scope(config) {
            Ok((ns, profile)) => Ok(Request::get_all_by_namespace_and_profile(ns, profile)),
            Err(e) => Err(e),
        }
    }
}

} // verus!
