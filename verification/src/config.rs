//! Configuration resolution: compiled-in defaults overlaid with the
//! user-supplied overrides the host hands over at initialization.
//!
//! The payload's recognized keys come in historical variants: the settings
//! section is named `terraform-ls` or, in older configurations, `lsp`; the
//! version override is `terraformlsVersion` or `terraformVersion`. The host
//! hands every recognized location over as plain values and the alias
//! precedence is resolved here: the newer name wins where both are present.

use vstd::prelude::*;
use vstd::string::StrSliceExecFns;
use vstd::string::StringExecFns;
use crate::strings::{trim, trim_spec};

verus! {

/// Declares `serde_json::Value` so the opaque option blob can be held and
/// forwarded; nothing in this crate reads the inside of such a value.
#[verifier::external_type_specification]
#[verifier::external_body]
pub struct ExValue(serde_json::Value);

/// The compiled-in default version of the language server.
pub open spec fn default_version_spec() -> Seq<char> {
    "0.32.7"@
}

/// Executable form of [`default_version_spec`].
pub fn default_version() -> (r: String)
    ensures
        r@ == default_version_spec(),
{
    String::from_str("0.32.7")
}

/// The settings found under one recognized configuration section, as plain
/// values. `options` is the section's whole blob, kept only to be forwarded
/// verbatim to the launch directive, never interpreted here.
pub struct SectionConfig {
    pub server_args: Vec<String>,
    pub server_path: Option<String>,
    pub options: Option<serde_json::Value>,
}

/// The recognized keys of the raw initialization payload, each alias kept
/// apart: `version_terraform_ls` is the `terraformlsVersion` key,
/// `version_terraform` the legacy `terraformVersion` key;
/// `section_terraform_ls` is the `terraform-ls` section, `section_lsp` the
/// legacy `lsp` section.
pub struct InitConfig {
    pub version_terraform_ls: Option<String>,
    pub version_terraform: Option<String>,
    pub section_terraform_ls: Option<SectionConfig>,
    pub section_lsp: Option<SectionConfig>,
}

/// The version override in effect: `terraformlsVersion` wins over the legacy
/// `terraformVersion`.
pub open spec fn version_override_of(raw: InitConfig) -> Option<String> {
    match raw.version_terraform_ls {
        Some(v) => Some(v),
        None => raw.version_terraform,
    }
}

/// The settings section in effect: `terraform-ls` wins over the legacy
/// `lsp`.
pub open spec fn section_of(raw: InitConfig) -> Option<SectionConfig> {
    match raw.section_terraform_ls {
        Some(s) => Some(s),
        None => raw.section_lsp,
    }
}

/// The configuration after overrides are applied.
pub struct ResolvedConfig {
    pub version: String,
    pub server_args: Vec<String>,
    pub explicit_server_path: Option<String>,
    pub passthrough: Option<serde_json::Value>,
}

/// The version the flow uses: the trimmed override when that is nonempty,
/// the compiled-in default otherwise. A whitespace-only override counts as
/// unset, never as an error.
pub open spec fn version_of(raw: InitConfig) -> Seq<char> {
    match version_override_of(raw) {
        Some(v) => if trim_spec(v@).len() > 0 {
            trim_spec(v@)
        } else {
            default_version_spec()
        },
        None => default_version_spec(),
    }
}

/// The server arguments the flow uses: a nonempty override replaces the
/// default argument list entirely; an empty or missing one leaves the
/// default in place.
pub open spec fn args_of(raw: InitConfig) -> Seq<Seq<char>> {
    match section_of(raw) {
        Some(s) => if s.server_args@.len() > 0 {
            s.server_args.deep_view()
        } else {
            seq!["serve"@]
        },
        None => seq!["serve"@],
    }
}

/// The explicit server path, when one is set and nonempty. A nonempty path
/// short-circuits acquisition entirely.
pub open spec fn explicit_path_of(raw: InitConfig) -> Option<Seq<char>> {
    match section_of(raw) {
        Some(s) => match s.server_path {
            Some(p) => if p@.len() > 0 {
                Some(p@)
            } else {
                None
            },
            None => None,
        },
        None => None,
    }
}

/// The opaque option blob forwarded verbatim to the launch directive.
pub open spec fn passthrough_of(raw: InitConfig) -> Option<serde_json::Value> {
    match section_of(raw) {
        Some(s) => s.options,
        None => None,
    }
}

/// How a [`ResolvedConfig`] relates to the raw payload it was resolved from.
pub open spec fn resolved_from(raw: InitConfig, r: ResolvedConfig) -> bool {
    &&& r.version@ == version_of(raw)
    &&& r.server_args.deep_view() == args_of(raw)
    &&& (match explicit_path_of(raw) {
        Some(p) => r.explicit_server_path matches Some(q) && q@ == p,
        None => r.explicit_server_path is None,
    })
    &&& r.passthrough == passthrough_of(raw)
}

/// The default argument list of the server.
fn default_args() -> (r: Vec<String>)
    ensures
        r.deep_view() == seq!["serve"@],
{
    let mut v: Vec<String> = Vec::new();
    v.push(String::from_str("serve"));
    proof {
        assert(v.deep_view() =~= seq!["serve"@]);
    }
    v
}

/// Applies the overrides of the raw payload over the compiled-in defaults,
/// resolving the key aliases first.
pub fn resolve_config(raw: InitConfig) -> (r: ResolvedConfig)
    ensures
        resolved_from(raw, r),
{
    let InitConfig { version_terraform_ls, version_terraform, section_terraform_ls, section_lsp } =
        raw;
    let version_override = match version_terraform_ls {
        Some(v) => Some(v),
        None => version_terraform,
    };
    let section = match section_terraform_ls {
        Some(s) => Some(s),
        None => section_lsp,
    };
    let version = match &version_override {
        Some(v) => {
            let t = trim(v.as_str());
            if t.unicode_len() > 0 {
                t
            } else {
                default_version()
            }
        },
        None => default_version(),
    };
    match section {
        Some(SectionConfig { server_args, server_path, options }) => {
            let args = if server_args.len() > 0 {
                server_args
            } else {
                default_args()
            };
            let explicit = match server_path {
                Some(p) => {
                    if p.as_str().unicode_len() > 0 {
                        Some(p)
                    } else {
                        None
                    }
                },
                None => None,
            };
            ResolvedConfig {
                version,
                server_args: args,
                explicit_server_path: explicit,
                passthrough: options,
            }
        },
        None => ResolvedConfig {
            version,
            server_args: default_args(),
            explicit_server_path: None,
            passthrough: None,
        },
    }
}

/// A language-tag / glob-pattern pair of the document selector.
pub struct DocumentFilter {
    pub language: String,
    pub pattern: String,
}

/// The two file patterns the launched server is registered for.
pub open spec fn selector_spec(s: Seq<DocumentFilter>) -> bool {
    &&& s.len() == 2
    &&& s[0].language@ == "terraform"@
    &&& s[0].pattern@ == "**/*.tf"@
    &&& s[1].language@ == "terraform"@
    &&& s[1].pattern@ == "**/*.tfvars"@
}

/// Builds the document selector handed to the launch directive.
pub fn document_selector() -> (r: Vec<DocumentFilter>)
    ensures
        selector_spec(r@),
{
    let mut v: Vec<DocumentFilter> = Vec::new();
    v.push(
        DocumentFilter {
            language: String::from_str("terraform"),
            pattern: String::from_str("**/*.tf"),
        },
    );
    v.push(
        DocumentFilter {
            language: String::from_str("terraform"),
            pattern: String::from_str("**/*.tfvars"),
        },
    );
    v
}

} // verus!
