use vstd::prelude::*;

use crate::plugin::Plugin;

verus! {

/// Provides auxiliary metadata needed for a CLAP plugin.
pub trait ClapPlugin<B>: Plugin<B> {
    /// A unique ID that identifies this particular plugin. This is usually in reverse domain
    /// name notation, e.g. `com.manufacturer.plugin-name`.
    const CLAP_ID: &'static str;
    /// A short description for the plugin.
    const CLAP_DESCRIPTION: &'static str;
    /// Arbitrary keywords describing the plugin.
    const CLAP_KEYWORDS: &'static [&'static str];
    /// A URL to the plugin's manual.
    const CLAP_MANUAL_URL: &'static str;
    /// A URL to the plugin's support page.
    const CLAP_SUPPORT_URL: &'static str;
}

} // verus!
