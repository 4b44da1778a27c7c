//! Settings of the analytics events client.
//!
//! Analytics events post to an upstream backend, so they are opt-in
//! (`analytics.enabled = true`) rather than on by default.

use vstd::prelude::*;

use crate::text::{lemma_trim_end_char_shape, trim_end_char_seq, trim_end_matches_char};

verus! {

/// What the analytics events client is built with.
#[derive(Debug)]
pub struct AnalyticsClientSettings {
    /// The backend's base URL, without trailing slashes.
    pub base_url: String,
    /// Whether events are sent; always decided, never left to a default.
    pub enabled: Option<bool>,
}

/// The base URL that events are posted under: the configured URL without
/// its trailing slashes. It never ends with a slash.
pub fn analytics_base_url(chatgpt_base_url: &str) -> (r: String)
    ensures
        r@ == trim_end_char_seq(chatgpt_base_url@, '/'),
        r@.len() == 0 || r@.last() != '/',
        r@ == chatgpt_base_url@.subrange(0, r@.len() as int),
        forall|k: int| r@.len() <= k < chatgpt_base_url@.len() ==> #[trigger] chatgpt_base_url@[k] == '/',
{
    proof {
        lemma_trim_end_char_shape(chatgpt_base_url@, '/');
    }
    trim_end_matches_char(chatgpt_base_url, '/').to_owned()
}

/// Whether analytics events are sent: only when the configuration turns them
/// on; unset means off.
pub fn analytics_enabled(configured: Option<bool>) -> (r: Option<bool>)
    ensures
        r == Some(configured == Some(true)),
{
    Some(configured.unwrap_or(false))
}

/// The settings of the analytics events client for a configuration with
/// base URL `chatgpt_base_url` and analytics setting `analytics_enabled`.
pub fn analytics_events_client_from_config(chatgpt_base_url: &str, analytics_enabled_setting: Option<bool>) -> (r: AnalyticsClientSettings)
    ensures
        r.base_url@ == trim_end_char_seq(chatgpt_base_url@, '/'),
        r.enabled == Some(analytics_enabled_setting == Some(true)),
{
    AnalyticsClientSettings {
        base_url: analytics_base_url(chatgpt_base_url),
        enabled: analytics_enabled(analytics_enabled_setting),
    }
}

} // verus!
