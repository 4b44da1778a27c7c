//! The stored credentials (`auth.json`) and the GLM API key held in them.
//!
//! Reading and writing the store is I/O and happens around this module; here
//! stands what a login writes into the credentials and what a later lookup
//! gives back of them.

use vstd::prelude::*;

use crate::text::{is_blank, trim_whitespace};

verus! {

/// The credentials kept in the auth store. The fields that the GLM logic
/// only carries along hold their serialized form.
#[derive(Debug)]
pub struct AuthDotJson {
    pub auth_mode: Option<String>,
    pub openai_api_key: Option<String>,
    pub tokens: Option<String>,
    pub last_refresh: Option<String>,
    pub agent_identity: Option<String>,
    pub personal_access_token: Option<String>,
    pub bedrock_api_key: Option<String>,
    pub glm_api_key: Option<String>,
}

/// The characters of an optional string.
pub open spec fn opt_view(o: Option<String>) -> Option<Seq<char>> {
    match o {
        Some(s) => Some(s@),
        None => None,
    }
}

/// No credential at all is present.
pub open spec fn holds_no_credentials(a: AuthDotJson) -> bool {
    &&& a.auth_mode is None
    &&& a.openai_api_key is None
    &&& a.tokens is None
    &&& a.last_refresh is None
    &&& a.agent_identity is None
    &&& a.personal_access_token is None
    &&& a.bedrock_api_key is None
    &&& a.glm_api_key is None
}

/// `a` and `b` agree on every credential but the GLM API key.
pub open spec fn same_other_credentials(a: AuthDotJson, b: AuthDotJson) -> bool {
    &&& a.auth_mode == b.auth_mode
    &&& a.openai_api_key == b.openai_api_key
    &&& a.tokens == b.tokens
    &&& a.last_refresh == b.last_refresh
    &&& a.agent_identity == b.agent_identity
    &&& a.personal_access_token == b.personal_access_token
    &&& a.bedrock_api_key == b.bedrock_api_key
}

/// What a lookup of the stored GLM API key gives back of `loaded`: the key,
/// unless there is none or it is blank.
pub open spec fn spec_stored_glm_api_key(loaded: Option<AuthDotJson>) -> Option<Seq<char>> {
    match loaded {
        Some(auth) => match auth.glm_api_key {
            Some(key) => if is_blank(key@) {
                None
            } else {
                Some(key@)
            },
            None => None,
        },
        None => None,
    }
}

/// An auth store payload that holds no credential.
pub fn empty_auth_dot_json() -> (r: AuthDotJson)
    ensures
        holds_no_credentials(r),
{
    AuthDotJson {
        auth_mode: None,
        openai_api_key: None,
        tokens: None,
        last_refresh: None,
        agent_identity: None,
        personal_access_token: None,
        bedrock_api_key: None,
        glm_api_key: None,
    }
}

/// The payload that a GLM login saves: what the store held before (or nothing,
/// when it held no payload), with its GLM API key set to `api_key`. No other
/// credential is dropped or changed.
pub fn with_glm_api_key(existing: Option<AuthDotJson>, api_key: &str) -> (r: AuthDotJson)
    ensures
        opt_view(r.glm_api_key) == Some(api_key@),
        same_other_credentials(r, prior_credentials(existing)),
        existing matches Some(before) ==> {
            &&& r.auth_mode == before.auth_mode
            &&& r.openai_api_key == before.openai_api_key
            &&& r.tokens == before.tokens
            &&& r.last_refresh == before.last_refresh
            &&& r.agent_identity == before.agent_identity
            &&& r.personal_access_token == before.personal_access_token
            &&& r.bedrock_api_key == before.bedrock_api_key
        },
        existing is None ==> {
            &&& r.auth_mode is None
            &&& r.openai_api_key is None
            &&& r.tokens is None
            &&& r.last_refresh is None
            &&& r.agent_identity is None
            &&& r.personal_access_token is None
            &&& r.bedrock_api_key is None
        },
{
    proof {
        lemma_login_builds_on_the_stored_payload(existing);
    }
    let mut auth = match existing {
        Some(before) => before,
        None => empty_auth_dot_json(),
    };
    auth.glm_api_key = Some(api_key.to_owned());
    auth
}

/// What a login builds on: the stored payload, or the empty one when the
/// store holds none.
pub open spec fn prior_credentials(existing: Option<AuthDotJson>) -> AuthDotJson {
    match existing {
        Some(before) => before,
        None => empty_auth_spec(),
    }
}

/// The payload with no credential, as a value of the specification.
pub open spec fn empty_auth_spec() -> AuthDotJson {
    AuthDotJson {
        auth_mode: None,
        openai_api_key: None,
        tokens: None,
        last_refresh: None,
        agent_identity: None,
        personal_access_token: None,
        bedrock_api_key: None,
        glm_api_key: None,
    }
}

/// The GLM API key of a loaded auth store payload, if there is one that is
/// not blank.
pub fn stored_glm_api_key(loaded: Option<AuthDotJson>) -> (r: Option<String>)
    ensures
        opt_view(r) == spec_stored_glm_api_key(loaded),
        r matches Some(key) ==> loaded matches Some(auth) && auth.glm_api_key == Some(key)
            && !is_blank(key@),
        match loaded {
            Some(auth) => match auth.glm_api_key {
                Some(key) => !is_blank(key@) ==> r == Some(key),
                None => r is None,
            },
            None => r is None,
        },
{
    match loaded {
        Some(auth) => match auth.glm_api_key {
            Some(key) => {
                let trimmed = trim_whitespace(key.as_str());
                if trimmed.is_empty() {
                    None
                } else {
                    Some(key)
                }
            },
            None => None,
        },
        None => None,
    }
}

/// A lookup after a GLM login gives back the key that was saved, unless it
/// is blank: `saved` is what the login wrote (its GLM API key is `api_key`).
pub proof fn lemma_saved_key_is_loaded(saved: AuthDotJson, api_key: Seq<char>)
    requires
        opt_view(saved.glm_api_key) == Some(api_key),
    ensures
        spec_stored_glm_api_key(Some(saved)) == (if is_blank(api_key) {
            None
        } else {
            Some(api_key)
        }),
{
}

/// A lookup finds no key in an empty store, nor in a payload without one.
pub proof fn lemma_no_key_without_login(loaded: Option<AuthDotJson>)
    requires
        loaded matches Some(a) ==> a.glm_api_key is None,
    ensures
        spec_stored_glm_api_key(loaded) is None,
{
}

/// Two GLM logins in a row: the second key is the one found, and every other
/// credential is still the one the store held before the first.
pub proof fn lemma_last_login_wins(
    existing: Option<AuthDotJson>,
    first: AuthDotJson,
    first_key: Seq<char>,
    second: AuthDotJson,
    second_key: Seq<char>,
)
    requires
        opt_view(first.glm_api_key) == Some(first_key),
        same_other_credentials(first, prior_credentials(existing)),
        opt_view(second.glm_api_key) == Some(second_key),
        same_other_credentials(second, prior_credentials(Some(first))),
    ensures
        spec_stored_glm_api_key(Some(second)) == (if is_blank(second_key) {
            None
        } else {
            Some(second_key)
        }),
        same_other_credentials(second, prior_credentials(existing)),
{
}

/// A login builds on exactly what the store held: the stored payload itself
/// when there is one (a stored ChatGPT login with its tokens survives), and a
/// payload with no credential otherwise.
pub proof fn lemma_login_builds_on_the_stored_payload(existing: Option<AuthDotJson>)
    ensures
        existing matches Some(before) ==> prior_credentials(existing) == before,
        existing is None ==> holds_no_credentials(prior_credentials(existing)),
        forall|a: AuthDotJson, b: AuthDotJson|
            #[trigger] same_other_credentials(a, b) ==> a.tokens == b.tokens && a.last_refresh
                == b.last_refresh && a.auth_mode == b.auth_mode && a.openai_api_key
                == b.openai_api_key && a.agent_identity == b.agent_identity
                && a.personal_access_token == b.personal_access_token && a.bedrock_api_key
                == b.bedrock_api_key,
{
}

} // verus!
