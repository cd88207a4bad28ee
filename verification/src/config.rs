//! Configuration model: parsing a versioned document into a validated,
//! fully resolved configuration, with a unified accessor surface over
//! version-specific representations.
//!
//! Loading happens in stages: the document text is parsed by the YAML
//! boundary ([`crate::yaml`]); the `version` field routes to the
//! revision-specific extraction; extraction types the tree into a
//! [`v0_1::RawConfig`] of plain values; [`v0_1::RawConfig::resolve`] applies
//! the field defaults; and [`v0_1::Config::validate`] checks the cross-field
//! invariants. Only a document passing all stages yields a [`Config`].

use vstd::prelude::*;
use vstd::string::*;

use crate::error::Error;
use crate::json::spec_strings_view;
use crate::text::str_eq;
use crate::yaml::{yaml_parse_tree, yaml_tree_of, YamlNode};

pub mod version;
pub mod v0_1;

use version::SchemaVersion;
use v0_1::{RawConfig, RawAssistant, RawPlugin, MarketplaceConfig, RuntimeConfig, ProxyConfig,
    GitGeneratedHandling};

verus! {

// ---------------------------------------------------------------------------
// Reading the parsed tree. Every reader has a spec twin over [`YamlNode`], so
// the whole journey from tree to configuration is stated exactly.
// ---------------------------------------------------------------------------

/// The value under a string key among mapping entries, in document order.
pub open spec fn spec_entries_get(es: Seq<(YamlNode, YamlNode)>, key: Seq<char>) -> Option<
    YamlNode,
>
    decreases es.len(),
{
    if es.len() == 0 {
        None
    } else {
        match es[0].0 {
            YamlNode::Str(k) => if k@ == key {
                Some(es[0].1)
            } else {
                spec_entries_get(es.drop_first(), key)
            },
            _ => spec_entries_get(es.drop_first(), key),
        }
    }
}

/// The value under a string key of a mapping node; `None` for any other
/// node or an absent key.
pub open spec fn spec_get(n: YamlNode, key: Seq<char>) -> Option<YamlNode> {
    match n {
        YamlNode::Mapping(es) => spec_entries_get(es@, key),
        _ => None,
    }
}

/// An optional string field: absent or null reads as `None`; any other
/// non-string value is a fault.
pub open spec fn spec_opt_str(n: YamlNode, key: Seq<char>) -> Result<Option<Seq<char>>, Seq<char>> {
    match spec_get(n, key) {
        None => Ok(None),
        Some(v) => match v {
            YamlNode::Null => Ok(None),
            YamlNode::Str(s) => Ok(Some(s@)),
            _ => Err("invalid value for field"@),
        },
    }
}

/// A required string field: absent is a missing-field fault, a non-string
/// value an invalid-value fault.
pub open spec fn spec_req_str(n: YamlNode, key: Seq<char>) -> Result<Seq<char>, Seq<char>> {
    match spec_get(n, key) {
        None => Err("missing field"@),
        Some(v) => match v {
            YamlNode::Str(s) => Ok(s@),
            _ => Err("invalid value for field"@),
        },
    }
}

/// An optional boolean field.
pub open spec fn spec_opt_bool(n: YamlNode, key: Seq<char>) -> Result<Option<bool>, Seq<char>> {
    match spec_get(n, key) {
        None => Ok(None),
        Some(v) => match v {
            YamlNode::Bool(b) => Ok(Some(b)),
            _ => Err("invalid value for field"@),
        },
    }
}

/// The texts of a sequence of string nodes; `None` when any element is no
/// string.
pub open spec fn spec_str_items(items: Seq<YamlNode>) -> Option<Seq<Seq<char>>>
    decreases items.len(),
{
    if items.len() == 0 {
        Some(Seq::<Seq<char>>::empty())
    } else {
        match items[0] {
            YamlNode::Str(s) => match spec_str_items(items.drop_first()) {
                Some(rest) => Some(seq![s@] + rest),
                None => None,
            },
            _ => None,
        }
    }
}

/// An optional list-of-strings field: absent reads as empty.
pub open spec fn spec_str_list(n: YamlNode, key: Seq<char>) -> Result<Seq<Seq<char>>, Seq<char>> {
    match spec_get(n, key) {
        None => Ok(Seq::<Seq<char>>::empty()),
        Some(v) => match v {
            YamlNode::List(items) => match spec_str_items(items@) {
                Some(ss) => Ok(ss),
                None => Err("invalid value for field"@),
            },
            _ => Err("invalid value for field"@),
        },
    }
}

/// The pairs of mapping entries whose keys and values are all strings.
pub open spec fn spec_str_entries(es: Seq<(YamlNode, YamlNode)>) -> Option<
    Seq<(Seq<char>, Seq<char>)>,
>
    decreases es.len(),
{
    if es.len() == 0 {
        Some(Seq::<(Seq<char>, Seq<char>)>::empty())
    } else {
        match (es[0].0, es[0].1) {
            (YamlNode::Str(k), YamlNode::Str(v)) => match spec_str_entries(es.drop_first()) {
                Some(rest) => Some(seq![(k@, v@)] + rest),
                None => None,
            },
            _ => None,
        }
    }
}

/// An optional string-to-string mapping field: absent reads as empty.
pub open spec fn spec_str_map(n: YamlNode, key: Seq<char>) -> Result<
    Seq<(Seq<char>, Seq<char>)>,
    Seq<char>,
> {
    match spec_get(n, key) {
        None => Ok(Seq::<(Seq<char>, Seq<char>)>::empty()),
        Some(v) => match v {
            YamlNode::Mapping(es) => match spec_str_entries(es@) {
                Some(ps) => Ok(ps),
                None => Err("invalid value for field"@),
            },
            _ => Err("invalid value for field"@),
        },
    }
}

// ---------------------------------------------------------------------------
// The document's sections. A fault is a (kind, field) pair; the message it
// produces is `Failed to parse config: <kind> `<field>``.
// ---------------------------------------------------------------------------

/// The fault message for a structurally malformed field.
pub open spec fn spec_fault_msg(kind: Seq<char>, field: Seq<char>) -> Seq<char> {
    "Failed to parse config: "@ + kind + " `"@ + field + "`"@
}

/// The document's `version` field, when it is a string.
pub open spec fn spec_doc_version(t: YamlNode) -> Option<Seq<char>> {
    match spec_get(t, "version"@) {
        Some(v) => match v {
            YamlNode::Str(s) => Some(s@),
            _ => None,
        },
        None => None,
    }
}

/// The workspace directory, when a workspace section gives one.
pub open spec fn spec_workspace_of(t: YamlNode) -> Result<
    Option<Seq<char>>,
    (Seq<char>, Seq<char>),
> {
    match spec_get(t, "workspace"@) {
        None => Ok(None),
        Some(v) => match v {
            YamlNode::Mapping(_) => match spec_opt_str(v, "dir"@) {
                Ok(d) => Ok(d),
                Err(kind) => Err((kind, "workspace.dir"@)),
            },
            _ => Err(("invalid value for field"@, "workspace"@)),
        },
    }
}

/// The container section: the required image and the build arguments.
pub open spec fn spec_docker_of(t: YamlNode) -> Result<
    (Seq<char>, Seq<Seq<char>>),
    (Seq<char>, Seq<char>),
> {
    match spec_get(t, "docker"@) {
        None => Err(("missing field"@, "docker"@)),
        Some(v) => match v {
            YamlNode::Mapping(_) => match spec_req_str(v, "image"@) {
                Err(kind) => Err((kind, "docker.image"@)),
                Ok(img) => match spec_str_list(v, "build_args"@) {
                    Err(kind) => Err((kind, "docker.build_args"@)),
                    Ok(args) => Ok((img, args)),
                },
            },
            _ => Err(("invalid value for field"@, "docker"@)),
        },
    }
}

/// The assistant section, when given: version, provider and models.
pub open spec fn spec_assistant_of(t: YamlNode) -> Result<
    Option<(Option<Seq<char>>, Option<Seq<char>>, Seq<(Seq<char>, Seq<char>)>)>,
    (Seq<char>, Seq<char>),
> {
    match spec_get(t, "assistant"@) {
        None => Ok(None),
        Some(v) => match v {
            YamlNode::Mapping(_) => match spec_opt_str(v, "version"@) {
                Err(kind) => Err((kind, "assistant.version"@)),
                Ok(ver) => match spec_opt_str(v, "provider"@) {
                    Err(kind) => Err((kind, "assistant.provider"@)),
                    Ok(prov) => match spec_str_map(v, "models"@) {
                        Err(kind) => Err((kind, "assistant.models"@)),
                        Ok(models) => Ok(Some((ver, prov, models))),
                    },
                },
            },
            _ => Err(("invalid value for field"@, "assistant"@)),
        },
    }
}

/// The runtime section, when given (null reads as absent): language,
/// version, package manager and tools.
pub open spec fn spec_runtime_of(t: YamlNode) -> Result<
    Option<(Seq<char>, Seq<char>, Seq<char>, Seq<Seq<char>>)>,
    (Seq<char>, Seq<char>),
> {
    match spec_get(t, "runtime"@) {
        None => Ok(None),
        Some(v) => match v {
            YamlNode::Null => Ok(None),
            YamlNode::Mapping(_) => match spec_req_str(v, "language"@) {
                Err(kind) => Err((kind, "runtime.language"@)),
                Ok(lang) => match spec_req_str(v, "version"@) {
                    Err(kind) => Err((kind, "runtime.version"@)),
                    Ok(ver) => match spec_req_str(v, "package_manager"@) {
                        Err(kind) => Err((kind, "runtime.package_manager"@)),
                        Ok(pm) => match spec_str_list(v, "tools"@) {
                            Err(kind) => Err((kind, "runtime.tools"@)),
                            Ok(tools) => Ok(Some((lang, ver, pm, tools))),
                        },
                    },
                },
            },
            _ => Err(("invalid value for field"@, "runtime"@)),
        },
    }
}

/// The proxy section, when given (null reads as absent).
pub open spec fn spec_proxy_of(t: YamlNode) -> Result<
    Option<(Option<Seq<char>>, Option<Seq<char>>, Option<Seq<char>>)>,
    (Seq<char>, Seq<char>),
> {
    match spec_get(t, "proxy"@) {
        None => Ok(None),
        Some(v) => match v {
            YamlNode::Null => Ok(None),
            YamlNode::Mapping(_) => match spec_opt_str(v, "http"@) {
                Err(kind) => Err((kind, "proxy.http"@)),
                Ok(http) => match spec_opt_str(v, "https"@) {
                    Err(kind) => Err((kind, "proxy.https"@)),
                    Ok(https) => match spec_opt_str(v, "no_proxy"@) {
                        Err(kind) => Err((kind, "proxy.no_proxy"@)),
                        Ok(np) => Ok(Some((http, https, np))),
                    },
                },
            },
            _ => Err(("invalid value for field"@, "proxy"@)),
        },
    }
}

/// The marketplace entries: each key a string, each value holding a
/// required `url` string.
pub open spec fn spec_marketplace_entries(es: Seq<(YamlNode, YamlNode)>) -> Result<
    Seq<(Seq<char>, Seq<char>)>,
    (Seq<char>, Seq<char>),
>
    decreases es.len(),
{
    if es.len() == 0 {
        Ok(Seq::<(Seq<char>, Seq<char>)>::empty())
    } else {
        match es[0].0 {
            YamlNode::Str(name) => match spec_req_str(es[0].1, "url"@) {
                Err(kind) => Err((kind, "marketplaces.url"@)),
                Ok(url) => match spec_marketplace_entries(es.drop_first()) {
                    Ok(rest) => Ok(seq![(name@, url)] + rest),
                    Err(e) => Err(e),
                },
            },
            _ => Err(("invalid value for field"@, "marketplaces"@)),
        }
    }
}

/// The marketplace mapping, when given.
pub open spec fn spec_marketplaces_of(t: YamlNode) -> Result<
    Seq<(Seq<char>, Seq<char>)>,
    (Seq<char>, Seq<char>),
> {
    match spec_get(t, "marketplaces"@) {
        None => Ok(Seq::<(Seq<char>, Seq<char>)>::empty()),
        Some(v) => match v {
            YamlNode::Mapping(es) => spec_marketplace_entries(es@),
            _ => Err(("invalid value for field"@, "marketplaces"@)),
        },
    }
}

/// The plugin entries: each with a required marketplace and name and an
/// optional activation flag.
pub open spec fn spec_plugin_items(items: Seq<YamlNode>) -> Result<
    Seq<(Seq<char>, Seq<char>, Option<bool>)>,
    (Seq<char>, Seq<char>),
>
    decreases items.len(),
{
    if items.len() == 0 {
        Ok(Seq::<(Seq<char>, Seq<char>, Option<bool>)>::empty())
    } else {
        match spec_req_str(items[0], "marketplace"@) {
            Err(kind) => Err((kind, "plugins.marketplace"@)),
            Ok(m) => match spec_req_str(items[0], "name"@) {
                Err(kind) => Err((kind, "plugins.name"@)),
                Ok(nm) => match spec_opt_bool(items[0], "activate"@) {
                    Err(kind) => Err((kind, "plugins.activate"@)),
                    Ok(a) => match spec_plugin_items(items.drop_first()) {
                        Ok(rest) => Ok(seq![(m, nm, a)] + rest),
                        Err(e) => Err(e),
                    },
                },
            },
        }
    }
}

/// The plugin list, when given.
pub open spec fn spec_plugins_of(t: YamlNode) -> Result<
    Seq<(Seq<char>, Seq<char>, Option<bool>)>,
    (Seq<char>, Seq<char>),
> {
    match spec_get(t, "plugins"@) {
        None => Ok(Seq::<(Seq<char>, Seq<char>, Option<bool>)>::empty()),
        Some(v) => match v {
            YamlNode::List(items) => spec_plugin_items(items@),
            _ => Err(("invalid value for field"@, "plugins"@)),
        },
    }
}

/// The version-control policy for generated files, when given.
pub open spec fn spec_git_of(t: YamlNode) -> Result<
    Option<GitGeneratedHandling>,
    (Seq<char>, Seq<char>),
> {
    match spec_get(t, "git"@) {
        None => Ok(None),
        Some(v) => match v {
            YamlNode::Mapping(_) => match spec_opt_str(v, "generated"@) {
                Err(kind) => Err((kind, "git.generated"@)),
                Ok(None) => Ok(None),
                Ok(Some(g)) => if g == "ignored"@ {
                    Ok(Some(GitGeneratedHandling::Ignored))
                } else if g == "committed"@ {
                    Ok(Some(GitGeneratedHandling::Committed))
                } else if g == "linguistgenerated"@ {
                    Ok(Some(GitGeneratedHandling::LinguistGenerated))
                } else {
                    Err(("invalid value for field"@, "git.generated"@))
                },
            },
            _ => Err(("invalid value for field"@, "git"@)),
        },
    }
}

/// The first structural fault of a document, in extraction order; `None`
/// when the document types cleanly.
pub open spec fn spec_doc_fault(t: YamlNode) -> Option<(Seq<char>, Seq<char>)> {
    if spec_req_str(t, "version"@) is Err {
        Some((spec_req_str(t, "version"@)->Err_0, "version"@))
    } else if spec_req_str(t, "name"@) is Err {
        Some((spec_req_str(t, "name"@)->Err_0, "name"@))
    } else if spec_workspace_of(t) is Err {
        Some(spec_workspace_of(t)->Err_0)
    } else if spec_docker_of(t) is Err {
        Some(spec_docker_of(t)->Err_0)
    } else if spec_assistant_of(t) is Err {
        Some(spec_assistant_of(t)->Err_0)
    } else if spec_runtime_of(t) is Err {
        Some(spec_runtime_of(t)->Err_0)
    } else if spec_proxy_of(t) is Err {
        Some(spec_proxy_of(t)->Err_0)
    } else if spec_marketplaces_of(t) is Err {
        Some(spec_marketplaces_of(t)->Err_0)
    } else if spec_plugins_of(t) is Err {
        Some(spec_plugins_of(t)->Err_0)
    } else if spec_git_of(t) is Err {
        Some(spec_git_of(t)->Err_0)
    } else {
        None
    }
}

// ---------------------------------------------------------------------------
// The resolved values a fault-free document parses to, defaults folded in.
// ---------------------------------------------------------------------------

/// The resolved project name.
pub open spec fn spec_res_name(t: YamlNode) -> Seq<char> {
    spec_req_str(t, "name"@)->Ok_0
}

/// The resolved workspace directory.
pub open spec fn spec_res_dir(t: YamlNode) -> Seq<char> {
    match spec_workspace_of(t)->Ok_0 {
        Some(d) => d,
        None => "./project"@,
    }
}

/// The resolved container image.
pub open spec fn spec_res_image(t: YamlNode) -> Seq<char> {
    spec_docker_of(t)->Ok_0.0
}

/// The resolved build arguments.
pub open spec fn spec_res_build_args(t: YamlNode) -> Seq<Seq<char>> {
    spec_docker_of(t)->Ok_0.1
}

/// The resolved assistant version.
pub open spec fn spec_res_assistant_version(t: YamlNode) -> Seq<char> {
    match spec_assistant_of(t)->Ok_0 {
        Some(a) => match a.0 {
            Some(v) => v,
            None => "latest"@,
        },
        None => "latest"@,
    }
}

/// The resolved assistant provider.
pub open spec fn spec_res_provider(t: YamlNode) -> Seq<char> {
    match spec_assistant_of(t)->Ok_0 {
        Some(a) => match a.1 {
            Some(p) => p,
            None => "anthropic"@,
        },
        None => "anthropic"@,
    }
}

/// The resolved model mapping.
pub open spec fn spec_res_models(t: YamlNode) -> Seq<(Seq<char>, Seq<char>)> {
    match spec_assistant_of(t)->Ok_0 {
        Some(a) => a.2,
        None => Seq::<(Seq<char>, Seq<char>)>::empty(),
    }
}

/// The resolved marketplace mapping.
pub open spec fn spec_res_marketplaces(t: YamlNode) -> Seq<(Seq<char>, Seq<char>)> {
    spec_marketplaces_of(t)->Ok_0
}

/// The resolved plugin entries, activation defaulted to true.
pub open spec fn spec_res_plugins(t: YamlNode) -> Seq<(Seq<char>, Seq<char>, bool)> {
    spec_plugins_of(t)->Ok_0.map_values(
        |p: (Seq<char>, Seq<char>, Option<bool>)|
            (
                p.0,
                p.1,
                match p.2 {
                    Some(b) => b,
                    None => true,
                },
            ),
    )
}

/// The resolved policy for generated files.
pub open spec fn spec_res_git(t: YamlNode) -> GitGeneratedHandling {
    match spec_git_of(t)->Ok_0 {
        Some(g) => g,
        None => GitGeneratedHandling::Ignored,
    }
}

/// Whether the resolved marketplace mapping holds `name` as a key.
pub open spec fn spec_tree_has_marketplace(t: YamlNode, name: Seq<char>) -> bool {
    exists|j: int|
        0 <= j < spec_res_marketplaces(t).len() && (#[trigger] spec_res_marketplaces(t)[j]).0
            == name
}

/// Whether every resolved plugin references a marketplace that exists.
pub open spec fn spec_tree_plugins_ok(t: YamlNode) -> bool {
    forall|i: int|
        0 <= i < spec_res_plugins(t).len() ==> spec_tree_has_marketplace(
            t,
            (#[trigger] spec_res_plugins(t)[i]).0,
        )
}

/// Whether the resolved values of a fault-free document satisfy the
/// cross-field invariants (the version invariant is checked separately).
pub open spec fn spec_doc_semantic_ok(t: YamlNode) -> bool {
    &&& spec_res_name(t).len() > 0
    &&& spec_res_dir(t).len() > 0
    &&& spec_res_image(t).len() > 0
    &&& v0_1::spec_valid_provider(spec_res_provider(t))
    &&& spec_tree_plugins_ok(t)
}

/// Whether a document text parses into a configuration: well-formed YAML, a
/// string `version` field holding the supported revision, a structurally
/// clean document, and the cross-field invariants.
pub open spec fn spec_parse_ok(s: Seq<char>) -> bool {
    match yaml_tree_of(s) {
        None => false,
        Some(t) => {
            &&& spec_doc_version(t) == Some("0.1"@)
            &&& spec_doc_fault(t) is None
            &&& spec_doc_semantic_ok(t)
        },
    }
}

/// Whether an optional string carries exactly the optional text.
pub open spec fn spec_opt_text_matches(o: Option<String>, v: Option<Seq<char>>) -> bool {
    match (o, v) {
        (Option::None, Option::None) => true,
        (Option::Some(s), Option::Some(t)) => s@ == t,
        _ => false,
    }
}

/// Whether `raw` carries exactly the values the tree's sections give.
pub open spec fn spec_raw_matches(t: YamlNode, raw: RawConfig) -> bool {
    &&& raw.version@ == spec_req_str(t, "version"@)->Ok_0
    &&& raw.name@ == spec_res_name(t)
    &&& spec_opt_text_matches(raw.workspace_dir, spec_workspace_of(t)->Ok_0)
    &&& raw.docker_image@ == spec_res_image(t)
    &&& spec_strings_view(raw.docker_build_args@) == spec_res_build_args(t)
    &&& (match (raw.assistant, spec_assistant_of(t)->Ok_0) {
        (Option::None, Option::None) => true,
        (Option::Some(ra), Option::Some(a)) => {
            &&& spec_opt_text_matches(ra.version, a.0)
            &&& spec_opt_text_matches(ra.provider, a.1)
            &&& crate::json::spec_pairs_view(ra.models@) == a.2
        },
        _ => false,
    })
    &&& (match (raw.runtime, spec_runtime_of(t)->Ok_0) {
        (Option::None, Option::None) => true,
        (Option::Some(rt), Option::Some(r)) => {
            &&& rt.language@ == r.0
            &&& rt.version@ == r.1
            &&& rt.package_manager@ == r.2
            &&& spec_strings_view(rt.tools@) == r.3
        },
        _ => false,
    })
    &&& (match (raw.proxy, spec_proxy_of(t)->Ok_0) {
        (Option::None, Option::None) => true,
        (Option::Some(p), Option::Some(q)) => {
            &&& spec_opt_text_matches(p.http, q.0)
            &&& spec_opt_text_matches(p.https, q.1)
            &&& spec_opt_text_matches(p.no_proxy, q.2)
        },
        _ => false,
    })
    &&& raw.marketplaces@.len() == spec_res_marketplaces(t).len()
    &&& (forall|i: int|
        0 <= i < raw.marketplaces@.len() ==> (#[trigger] raw.marketplaces@[i]).0@
            == spec_res_marketplaces(t)[i].0 && raw.marketplaces@[i].1.url@
            == spec_res_marketplaces(t)[i].1)
    &&& raw.plugins@.len() == spec_plugins_of(t)->Ok_0.len()
    &&& (forall|i: int|
        0 <= i < raw.plugins@.len() ==> (#[trigger] raw.plugins@[i]).marketplace@
            == spec_plugins_of(t)->Ok_0[i].0 && raw.plugins@[i].name@ == spec_plugins_of(
            t,
        )->Ok_0[i].1 && raw.plugins@[i].activate == spec_plugins_of(t)->Ok_0[i].2)
    &&& raw.git_generated == spec_git_of(t)->Ok_0
}

// ---------------------------------------------------------------------------
// Verified readers over the tree.
// ---------------------------------------------------------------------------

/// Build the error rejecting a structurally malformed document:
/// `Failed to parse config: <kind> `<field>``.
fn config_parse_error(kind: &str, field: &str) -> (e: Error)
    ensures
        e matches Error::InvalidTemplate(m) && m@ == spec_fault_msg(kind@, field@),
{
    let mut m = "Failed to parse config: ".to_owned();
    m.append(kind);
    m.append(" `");
    m.append(field);
    m.append("`");
    Error::InvalidTemplate(m)
}

/// Look a string key up in a mapping node, in document order.
fn node_get<'a>(n: &'a YamlNode, key: &str) -> (r: Option<&'a YamlNode>)
    ensures
        match r {
            Some(v) => spec_get(*n, key@) == Some(*v),
            None => spec_get(*n, key@) is None,
        },
{
    match n {
        YamlNode::Mapping(es) => {
            proof {
                assert(spec_get(*n, key@) == spec_entries_get(es@, key@));
            }
            let mut i: usize = 0;
            proof {
                assert(es@.skip(0) =~= es@);
            }
            while i < es.len()
                invariant
                    i <= es@.len(),
                    spec_get(*n, key@) == spec_entries_get(es@, key@),
                    spec_entries_get(es@, key@) == spec_entries_get(es@.skip(i as int), key@),
                decreases es@.len() - i,
            {
                proof {
                    assert(es@.skip(i as int)[0] == es@[i as int]);
                    assert(es@.skip(i as int).drop_first() =~= es@.skip(i as int + 1));
                }
                match &es[i].0 {
                    YamlNode::Str(k) => {
                        if str_eq(k.as_str(), key) {
                            proof {
                                assert(spec_entries_get(es@.skip(i as int), key@) == Some(
                                    es@[i as int].1,
                                ));
                            }
                            return Some(&es[i].1);
                        }
                    },
                    _ => {},
                }
                i = i + 1;
            }
            proof {
                assert(es@.skip(es@.len() as int) =~= Seq::<(YamlNode, YamlNode)>::empty());
            }
            None
        },
        _ => None,
    }
}

/// Read an optional string field, naming `field` in any fault.
fn get_opt_string(n: &YamlNode, key: &str, field: &str) -> (r: Result<Option<String>, Error>)
    ensures
        match spec_opt_str(*n, key@) {
            Ok(o) => r matches Ok(ro) && spec_opt_text_matches(ro, o),
            Err(kind) => r matches Err(e) && e matches Error::InvalidTemplate(m) && m@
                == spec_fault_msg(kind, field@),
        },
{
    match node_get(n, key) {
        None => Ok(None),
        Some(v) => match v {
            YamlNode::Null => Ok(None),
            YamlNode::Str(s) => Ok(Some(s.clone())),
            _ => Err(config_parse_error("invalid value for field", field)),
        },
    }
}

/// Read a required string field, naming `field` in any fault.
fn get_req_string(n: &YamlNode, key: &str, field: &str) -> (r: Result<String, Error>)
    ensures
        match spec_req_str(*n, key@) {
            Ok(s) => r matches Ok(rs) && rs@ == s,
            Err(kind) => r matches Err(e) && e matches Error::InvalidTemplate(m) && m@
                == spec_fault_msg(kind, field@),
        },
{
    match node_get(n, key) {
        None => Err(config_parse_error("missing field", field)),
        Some(v) => match v {
            YamlNode::Str(s) => Ok(s.clone()),
            _ => Err(config_parse_error("invalid value for field", field)),
        },
    }
}

/// Read an optional boolean field, naming `field` in any fault.
fn get_opt_bool(n: &YamlNode, key: &str, field: &str) -> (r: Result<Option<bool>, Error>)
    ensures
        match spec_opt_bool(*n, key@) {
            Ok(o) => r matches Ok(ro) && ro == o,
            Err(kind) => r matches Err(e) && e matches Error::InvalidTemplate(m) && m@
                == spec_fault_msg(kind, field@),
        },
{
    match node_get(n, key) {
        None => Ok(None),
        Some(v) => match v {
            YamlNode::Bool(b) => Ok(Some(*b)),
            _ => Err(config_parse_error("invalid value for field", field)),
        },
    }
}

/// Read an optional list-of-strings field, naming `field` in any fault.
fn get_string_list(n: &YamlNode, key: &str, field: &str) -> (r: Result<Vec<String>, Error>)
    ensures
        match spec_str_list(*n, key@) {
            Ok(ss) => r matches Ok(v) && spec_strings_view(v@) == ss,
            Err(kind) => r matches Err(e) && e matches Error::InvalidTemplate(m) && m@
                == spec_fault_msg(kind, field@),
        },
{
    match node_get(n, key) {
        None => {
            let out: Vec<String> = Vec::new();
            proof {
                assert(spec_strings_view(out@) =~= Seq::<Seq<char>>::empty());
            }
            Ok(out)
        },
        Some(v) => match v {
            YamlNode::List(items) => {
                let mut out: Vec<String> = Vec::new();
                let mut i: usize = 0;
                proof {
                    assert(items@.skip(0) =~= items@);
                    assert(spec_strings_view(out@) =~= Seq::<Seq<char>>::empty());
                    assert(Seq::<Seq<char>>::empty() + spec_str_items(items@)->Some_0
                        =~= spec_str_items(items@)->Some_0);
                }
                while i < items.len()
                    invariant
                        i <= items@.len(),
                        spec_str_list(*n, key@) == (match spec_str_items(items@) {
                            Some(ss) => Ok::<Seq<Seq<char>>, Seq<char>>(ss),
                            None => Err("invalid value for field"@),
                        }),
                        spec_str_items(items@) == match spec_str_items(items@.skip(i as int)) {
                            Some(rest) => Some(spec_strings_view(out@) + rest),
                            None => None,
                        },
                    decreases items@.len() - i,
                {
                    proof {
                        assert(items@.skip(i as int)[0] == items@[i as int]);
                        assert(items@.skip(i as int).drop_first() =~= items@.skip(i as int + 1));
                    }
                    match &items[i] {
                        YamlNode::Str(s) => {
                            let ghost prev = out@;
                            out.push(s.clone());
                            proof {
                                assert(spec_strings_view(out@) =~= spec_strings_view(prev).push(
                                    items@[i as int]->Str_0@,
                                ));
                                assert(forall|rest: Seq<Seq<char>>|
                                    spec_strings_view(prev) + (seq![items@[i as int]->Str_0@]
                                        + rest) =~= spec_strings_view(prev).push(
                                        items@[i as int]->Str_0@,
                                    ) + rest);
                            }
                        },
                        _ => {
                            proof {
                                assert(spec_str_items(items@.skip(i as int)) is None);
                            }
                            return Err(config_parse_error("invalid value for field", field));
                        },
                    }
                    i = i + 1;
                }
                proof {
                    assert(items@.skip(items@.len() as int) =~= Seq::<YamlNode>::empty());
                    assert(spec_str_items(Seq::<YamlNode>::empty()) == Some(
                        Seq::<Seq<char>>::empty(),
                    ));
                    assert(spec_strings_view(out@) + Seq::<Seq<char>>::empty() =~= spec_strings_view(
                        out@,
                    ));
                }
                Ok(out)
            },
            _ => Err(config_parse_error("invalid value for field", field)),
        },
    }
}

/// Read an optional string-to-string mapping field, naming `field` in any
/// fault.
fn get_string_map(n: &YamlNode, key: &str, field: &str) -> (r: Result<Vec<(String, String)>, Error>)
    ensures
        match spec_str_map(*n, key@) {
            Ok(ps) => r matches Ok(v) && crate::json::spec_pairs_view(v@) == ps,
            Err(kind) => r matches Err(e) && e matches Error::InvalidTemplate(m) && m@
                == spec_fault_msg(kind, field@),
        },
{
    match node_get(n, key) {
        None => {
            let out: Vec<(String, String)> = Vec::new();
            proof {
                assert(crate::json::spec_pairs_view(out@) =~= Seq::<(Seq<char>, Seq<char>)>::empty());
            }
            Ok(out)
        },
        Some(v) => match v {
            YamlNode::Mapping(es) => {
                let mut out: Vec<(String, String)> = Vec::new();
                let mut i: usize = 0;
                proof {
                    assert(es@.skip(0) =~= es@);
                    assert(crate::json::spec_pairs_view(out@) =~= Seq::<
                        (Seq<char>, Seq<char>),
                    >::empty());
                    assert(Seq::<(Seq<char>, Seq<char>)>::empty() + spec_str_entries(es@)->Some_0
                        =~= spec_str_entries(es@)->Some_0);
                }
                while i < es.len()
                    invariant
                        i <= es@.len(),
                        spec_str_map(*n, key@) == (match spec_str_entries(es@) {
                            Some(ps) => Ok::<Seq<(Seq<char>, Seq<char>)>, Seq<char>>(ps),
                            None => Err("invalid value for field"@),
                        }),
                        spec_str_entries(es@) == match spec_str_entries(es@.skip(i as int)) {
                            Some(rest) => Some(crate::json::spec_pairs_view(out@) + rest),
                            None => None,
                        },
                    decreases es@.len() - i,
                {
                    proof {
                        assert(es@.skip(i as int)[0] == es@[i as int]);
                        assert(es@.skip(i as int).drop_first() =~= es@.skip(i as int + 1));
                    }
                    match (&es[i].0, &es[i].1) {
                        (YamlNode::Str(k), YamlNode::Str(val)) => {
                            let ghost prev = out@;
                            out.push((k.clone(), val.clone()));
                            proof {
                                assert(crate::json::spec_pairs_view(out@)
                                    =~= crate::json::spec_pairs_view(prev).push(
                                    (es@[i as int].0->Str_0@, es@[i as int].1->Str_0@),
                                ));
                                assert(forall|rest: Seq<(Seq<char>, Seq<char>)>|
                                    crate::json::spec_pairs_view(prev) + (seq![
                                        (es@[i as int].0->Str_0@, es@[i as int].1->Str_0@),
                                    ] + rest) =~= crate::json::spec_pairs_view(prev).push(
                                        (es@[i as int].0->Str_0@, es@[i as int].1->Str_0@),
                                    ) + rest);
                            }
                        },
                        _ => {
                            proof {
                                assert(spec_str_entries(es@.skip(i as int)) is None);
                            }
                            return Err(config_parse_error("invalid value for field", field));
                        },
                    }
                    i = i + 1;
                }
                proof {
                    assert(es@.skip(es@.len() as int) =~= Seq::<(YamlNode, YamlNode)>::empty());
                    assert(crate::json::spec_pairs_view(out@) + Seq::<(Seq<char>, Seq<char>)>::empty()
                        =~= crate::json::spec_pairs_view(out@));
                }
                Ok(out)
            },
            _ => Err(config_parse_error("invalid value for field", field)),
        },
    }
}

/// Type a revision-0.1 document tree into its structural image of plain
/// values: succeeds exactly when the tree has no structural fault, faults
/// with the first fault's message otherwise, and on success carries exactly
/// the sections' values.
#[verifier::rlimit(100)]
#[verifier::spinoff_prover]
fn extract_v0_1(t: &YamlNode) -> (r: Result<RawConfig, Error>)
    ensures
        (r is Ok) == (spec_doc_fault(*t) is None),
        r matches Err(e) ==> (spec_doc_fault(*t) matches Some(f) && e matches Error::InvalidTemplate(
            m,
        ) && m@ == spec_fault_msg(f.0, f.1)),
        r matches Ok(raw) ==> spec_raw_matches(*t, raw),
{
    let version = match get_req_string(t, "version", "version") {
        Ok(s) => s,
        Err(e) => {
            return Err(e);
        },
    };
    let name = match get_req_string(t, "name", "name") {
        Ok(s) => s,
        Err(e) => {
            return Err(e);
        },
    };
    let workspace_dir = match node_get(t, "workspace") {
        None => None,
        Some(w) => match w {
            YamlNode::Mapping(_) => match get_opt_string(w, "dir", "workspace.dir") {
                Ok(d) => d,
                Err(e) => {
                    return Err(e);
                },
            },
            _ => {
                return Err(config_parse_error("invalid value for field", "workspace"));
            },
        },
    };
    let (docker_image, docker_build_args) = match node_get(t, "docker") {
        None => {
            return Err(config_parse_error("missing field", "docker"));
        },
        Some(d) => match d {
            YamlNode::Mapping(_) => {
                let image = match get_req_string(d, "image", "docker.image") {
                    Ok(s) => s,
                    Err(e) => {
                        return Err(e);
                    },
                };
                let args = match get_string_list(d, "build_args", "docker.build_args") {
                    Ok(l) => l,
                    Err(e) => {
                        return Err(e);
                    },
                };
                (image, args)
            },
            _ => {
                return Err(config_parse_error("invalid value for field", "docker"));
            },
        },
    };
    let assistant = match node_get(t, "assistant") {
        None => None,
        Some(a) => match a {
            YamlNode::Mapping(_) => {
                let a_version = match get_opt_string(a, "version", "assistant.version") {
                    Ok(o) => o,
                    Err(e) => {
                        return Err(e);
                    },
                };
                let a_provider = match get_opt_string(a, "provider", "assistant.provider") {
                    Ok(o) => o,
                    Err(e) => {
                        return Err(e);
                    },
                };
                let models = match get_string_map(a, "models", "assistant.models") {
                    Ok(m) => m,
                    Err(e) => {
                        return Err(e);
                    },
                };
                Some(RawAssistant { version: a_version, provider: a_provider, models })
            },
            _ => {
                return Err(config_parse_error("invalid value for field", "assistant"));
            },
        },
    };
    let runtime = match node_get(t, "runtime") {
        None => None,
        Some(rv) => match rv {
            YamlNode::Null => None,
            YamlNode::Mapping(_) => {
                let language = match get_req_string(rv, "language", "runtime.language") {
                    Ok(s) => s,
                    Err(e) => {
                        return Err(e);
                    },
                };
                let rt_version = match get_req_string(rv, "version", "runtime.version") {
                    Ok(s) => s,
                    Err(e) => {
                        return Err(e);
                    },
                };
                let package_manager = match get_req_string(
                    rv,
                    "package_manager",
                    "runtime.package_manager",
                ) {
                    Ok(s) => s,
                    Err(e) => {
                        return Err(e);
                    },
                };
                let tools = match get_string_list(rv, "tools", "runtime.tools") {
                    Ok(l) => l,
                    Err(e) => {
                        return Err(e);
                    },
                };
                Some(RuntimeConfig { language, version: rt_version, package_manager, tools })
            },
            _ => {
                return Err(config_parse_error("invalid value for field", "runtime"));
            },
        },
    };
    let proxy = match node_get(t, "proxy") {
        None => None,
        Some(pv) => match pv {
            YamlNode::Null => None,
            YamlNode::Mapping(_) => {
                let http = match get_opt_string(pv, "http", "proxy.http") {
                    Ok(o) => o,
                    Err(e) => {
                        return Err(e);
                    },
                };
                let https = match get_opt_string(pv, "https", "proxy.https") {
                    Ok(o) => o,
                    Err(e) => {
                        return Err(e);
                    },
                };
                let no_proxy = match get_opt_string(pv, "no_proxy", "proxy.no_proxy") {
                    Ok(o) => o,
                    Err(e) => {
                        return Err(e);
                    },
                };
                Some(ProxyConfig { http, https, no_proxy })
            },
            _ => {
                return Err(config_parse_error("invalid value for field", "proxy"));
            },
        },
    };
    let mut marketplaces: Vec<(String, MarketplaceConfig)> = Vec::new();
    match node_get(t, "marketplaces") {
        None => {},
        Some(mv) => match mv {
            YamlNode::Mapping(es) => {
                let mut i: usize = 0;
                proof {
                    assert(es@.skip(0) =~= es@);
                    assert(spec_mk_views(marketplaces@) =~= Seq::<(Seq<char>, Seq<char>)>::empty());
                    assert(Seq::<(Seq<char>, Seq<char>)>::empty() + spec_marketplace_entries(
                        es@,
                    )->Ok_0 =~= spec_marketplace_entries(es@)->Ok_0);
                }
                while i < es.len()
                    invariant
                        i <= es@.len(),
                        spec_req_str(*t, "version"@) is Ok,
                        spec_req_str(*t, "name"@) is Ok,
                        spec_workspace_of(*t) is Ok,
                        spec_docker_of(*t) is Ok,
                        spec_assistant_of(*t) is Ok,
                        spec_runtime_of(*t) is Ok,
                        spec_proxy_of(*t) is Ok,
                        spec_marketplaces_of(*t) == spec_marketplace_entries(es@),
                        spec_marketplace_entries(es@) == match spec_marketplace_entries(
                            es@.skip(i as int),
                        ) {
                            Ok(rest) => Ok(spec_mk_views(marketplaces@) + rest),
                            Err(e) => Err(e),
                        },
                    decreases es@.len() - i,
                {
                    proof {
                        assert(es@.skip(i as int)[0] == es@[i as int]);
                        assert(es@.skip(i as int).drop_first() =~= es@.skip(i as int + 1));
                    }
                    let mk_name = match &es[i].0 {
                        YamlNode::Str(k) => k.clone(),
                        _ => {
                            proof {
                                assert(spec_marketplace_entries(es@.skip(i as int)) is Err);
                                assert(spec_marketplace_entries(es@.skip(i as int))->Err_0 == (
                                    "invalid value for field"@,
                                    "marketplaces"@,
                                ));
                            }
                            return Err(
                                config_parse_error("invalid value for field", "marketplaces"),
                            );
                        },
                    };
                    let url = match get_req_string(&es[i].1, "url", "marketplaces.url") {
                        Ok(s) => s,
                        Err(e) => {
                            proof {
                                assert(spec_req_str(es@[i as int].1, "url"@) is Err);
                                assert(spec_marketplace_entries(es@.skip(i as int)) is Err);
                                assert(spec_marketplace_entries(es@.skip(i as int))->Err_0 == (
                                    spec_req_str(es@[i as int].1, "url"@)->Err_0,
                                    "marketplaces.url"@,
                                ));
                            }
                            return Err(e);
                        },
                    };
                    let ghost prev = marketplaces@;
                    marketplaces.push((mk_name, MarketplaceConfig { url }));
                    proof {
                        assert(spec_mk_views(marketplaces@) =~= spec_mk_views(prev).push(
                            (es@[i as int].0->Str_0@, spec_req_str(es@[i as int].1, "url"@)->Ok_0),
                        ));
                        assert(forall|rest: Seq<(Seq<char>, Seq<char>)>|
                            spec_mk_views(prev) + (seq![
                                (
                                    es@[i as int].0->Str_0@,
                                    spec_req_str(es@[i as int].1, "url"@)->Ok_0,
                                ),
                            ] + rest) =~= spec_mk_views(prev).push(
                                (
                                    es@[i as int].0->Str_0@,
                                    spec_req_str(es@[i as int].1, "url"@)->Ok_0,
                                ),
                            ) + rest);
                    }
                    i = i + 1;
                }
                proof {
                    assert(es@.skip(es@.len() as int) =~= Seq::<(YamlNode, YamlNode)>::empty());
                    assert(spec_mk_views(marketplaces@) + Seq::<(Seq<char>, Seq<char>)>::empty()
                        =~= spec_mk_views(marketplaces@));
                }
            },
            _ => {
                return Err(config_parse_error("invalid value for field", "marketplaces"));
            },
        },
    }
    let mut plugins: Vec<RawPlugin> = Vec::new();
    match node_get(t, "plugins") {
        None => {},
        Some(pv) => match pv {
            YamlNode::List(items) => {
                let mut i: usize = 0;
                proof {
                    assert(items@.skip(0) =~= items@);
                    assert(spec_plugin_views(plugins@) =~= Seq::<
                        (Seq<char>, Seq<char>, Option<bool>),
                    >::empty());
                    assert(Seq::<(Seq<char>, Seq<char>, Option<bool>)>::empty()
                        + spec_plugin_items(items@)->Ok_0 =~= spec_plugin_items(items@)->Ok_0);
                }
                while i < items.len()
                    invariant
                        i <= items@.len(),
                        spec_req_str(*t, "version"@) is Ok,
                        spec_req_str(*t, "name"@) is Ok,
                        spec_workspace_of(*t) is Ok,
                        spec_docker_of(*t) is Ok,
                        spec_assistant_of(*t) is Ok,
                        spec_runtime_of(*t) is Ok,
                        spec_proxy_of(*t) is Ok,
                        spec_marketplaces_of(*t) is Ok,
                        spec_plugins_of(*t) == spec_plugin_items(items@),
                        spec_plugin_items(items@) == match spec_plugin_items(
                            items@.skip(i as int),
                        ) {
                            Ok(rest) => Ok(spec_plugin_views(plugins@) + rest),
                            Err(e) => Err(e),
                        },
                    decreases items@.len() - i,
                {
                    proof {
                        assert(items@.skip(i as int)[0] == items@[i as int]);
                        assert(items@.skip(i as int).drop_first() =~= items@.skip(i as int + 1));
                    }
                    let marketplace = match get_req_string(
                        &items[i],
                        "marketplace",
                        "plugins.marketplace",
                    ) {
                        Ok(s) => s,
                        Err(e) => {
                            proof {
                                assert(spec_plugin_items(items@.skip(i as int)) is Err);
                                assert(spec_plugin_items(items@.skip(i as int))->Err_0 == (
                                    spec_req_str(items@[i as int], "marketplace"@)->Err_0,
                                    "plugins.marketplace"@,
                                ));
                            }
                            return Err(e);
                        },
                    };
                    let plugin_name = match get_req_string(&items[i], "name", "plugins.name") {
                        Ok(s) => s,
                        Err(e) => {
                            proof {
                                assert(spec_plugin_items(items@.skip(i as int)) is Err);
                                assert(spec_plugin_items(items@.skip(i as int))->Err_0 == (
                                    spec_req_str(items@[i as int], "name"@)->Err_0,
                                    "plugins.name"@,
                                ));
                            }
                            return Err(e);
                        },
                    };
                    let activate = match get_opt_bool(&items[i], "activate", "plugins.activate") {
                        Ok(o) => o,
                        Err(e) => {
                            proof {
                                assert(spec_plugin_items(items@.skip(i as int)) is Err);
                                assert(spec_plugin_items(items@.skip(i as int))->Err_0 == (
                                    spec_opt_bool(items@[i as int], "activate"@)->Err_0,
                                    "plugins.activate"@,
                                ));
                            }
                            return Err(e);
                        },
                    };
                    let ghost entry = (
                        spec_req_str(items@[i as int], "marketplace"@)->Ok_0,
                        spec_req_str(items@[i as int], "name"@)->Ok_0,
                        spec_opt_bool(items@[i as int], "activate"@)->Ok_0,
                    );
                    let ghost prev = plugins@;
                    plugins.push(RawPlugin { marketplace, name: plugin_name, activate });
                    proof {
                        assert(spec_plugin_views(plugins@) =~= spec_plugin_views(prev).push(entry));
                        assert(forall|rest: Seq<(Seq<char>, Seq<char>, Option<bool>)>|
                            spec_plugin_views(prev) + (seq![entry] + rest) =~= spec_plugin_views(
                                prev,
                            ).push(entry) + rest);
                    }
                    i = i + 1;
                }
                proof {
                    assert(items@.skip(items@.len() as int) =~= Seq::<YamlNode>::empty());
                    assert(spec_plugin_views(plugins@) + Seq::<
                        (Seq<char>, Seq<char>, Option<bool>),
                    >::empty() =~= spec_plugin_views(plugins@));
                }
            },
            _ => {
                return Err(config_parse_error("invalid value for field", "plugins"));
            },
        },
    }
    let git_generated = match node_get(t, "git") {
        None => None,
        Some(gv) => match gv {
            YamlNode::Mapping(_) => match get_opt_string(gv, "generated", "git.generated") {
                Ok(None) => None,
                Ok(Some(g)) => match v0_1::parse_git_generated(g.as_str()) {
                    Some(policy) => Some(policy),
                    None => {
                        return Err(config_parse_error("invalid value for field", "git.generated"));
                    },
                },
                Err(e) => {
                    return Err(e);
                },
            },
            _ => {
                return Err(config_parse_error("invalid value for field", "git"));
            },
        },
    };
    Ok(
        RawConfig {
            version,
            name,
            workspace_dir,
            docker_image,
            docker_build_args,
            assistant,
            runtime,
            proxy,
            marketplaces,
            plugins,
            git_generated,
        },
    )
}

/// The views of raw marketplace entries: name and URL texts.
pub open spec fn spec_mk_views(ms: Seq<(String, MarketplaceConfig)>) -> Seq<(Seq<char>, Seq<char>)> {
    ms.map_values(|m: (String, MarketplaceConfig)| (m.0@, m.1.url@))
}

/// The views of raw plugin entries: marketplace, name and activation flag.
pub open spec fn spec_plugin_views(ps: Seq<RawPlugin>) -> Seq<(Seq<char>, Seq<char>, Option<bool>)> {
    ps.map_values(|p: RawPlugin| (p.marketplace@, p.name@, p.activate))
}

/// Bridge from the tree's resolved values to a resolved configuration:
/// with a fault-free tree, a structural image of it and the image's
/// resolution in hand, every resolved field equals the tree's value with
/// defaults folded in, and the plugin-reference invariant holds of the
/// configuration exactly when it holds of the tree's values.
#[verifier::rlimit(100)]
#[verifier::spinoff_prover]
proof fn lemma_config_of_tree(t: YamlNode, raw: RawConfig, c2: v0_1::Config)
    requires
        spec_doc_fault(t) is None,
        spec_raw_matches(t, raw),
        v0_1::spec_resolved(raw, c2),
    ensures
        c2.version@ == spec_req_str(t, "version"@)->Ok_0,
        c2.name@ == spec_res_name(t),
        c2.workspace.dir@ == spec_res_dir(t),
        c2.docker.image@ == spec_res_image(t),
        spec_strings_view(c2.docker.build_args@) == spec_res_build_args(t),
        c2.assistant.version@ == spec_res_assistant_version(t),
        c2.assistant.provider@ == spec_res_provider(t),
        crate::json::spec_pairs_view(c2.assistant.models@) == spec_res_models(t),
        (match (c2.runtime, spec_runtime_of(t)->Ok_0) {
            (Option::None, Option::None) => true,
            (Option::Some(rt), Option::Some(rr)) => rt.language@ == rr.0 && rt.version@ == rr.1
                && rt.package_manager@ == rr.2 && spec_strings_view(rt.tools@) == rr.3,
            _ => false,
        }),
        (match (c2.proxy, spec_proxy_of(t)->Ok_0) {
            (Option::None, Option::None) => true,
            (Option::Some(p), Option::Some(q)) => spec_opt_text_matches(p.http, q.0)
                && spec_opt_text_matches(p.https, q.1) && spec_opt_text_matches(p.no_proxy, q.2),
            _ => false,
        }),
        c2.marketplaces@.len() == spec_res_marketplaces(t).len(),
        forall|i: int|
            0 <= i < c2.marketplaces@.len() ==> (#[trigger] c2.marketplaces@[i]).0@
                == spec_res_marketplaces(t)[i].0 && c2.marketplaces@[i].1.url@
                == spec_res_marketplaces(t)[i].1,
        c2.plugins@.len() == spec_res_plugins(t).len(),
        forall|i: int|
            0 <= i < c2.plugins@.len() ==> (#[trigger] c2.plugins@[i]).marketplace@
                == spec_res_plugins(t)[i].0 && c2.plugins@[i].name@ == spec_res_plugins(t)[i].1
                && c2.plugins@[i].activate == spec_res_plugins(t)[i].2,
        c2.git.generated == spec_res_git(t),
        c2.spec_plugins_ok() == spec_tree_plugins_ok(t),
        forall|i: int|
            0 <= i < c2.plugins@.len() ==> (v0_1::spec_has_marketplace(
                c2.marketplaces@,
                (#[trigger] c2.plugins@[i]).marketplace@,
            ) == spec_tree_has_marketplace(t, spec_res_plugins(t)[i].0)),
{
    let tp = spec_plugins_of(t)->Ok_0;
    let rp = spec_res_plugins(t);
    assert(rp.len() == tp.len());
    assert(c2.marketplaces@ == raw.marketplaces@);
    match raw.assistant {
        Some(ra) => {
            assert(c2.assistant.models@ == ra.models@);
        },
        None => {
            assert(c2.assistant.models@ == Seq::<(String, String)>::empty());
            assert(crate::json::spec_pairs_view(c2.assistant.models@) =~= Seq::<
                (Seq<char>, Seq<char>),
            >::empty());
        },
    }
    assert forall|i: int| 0 <= i < c2.plugins@.len() implies ((
    #[trigger] c2.plugins@[i]).marketplace@ == rp[i].0 && c2.plugins@[i].name@ == rp[i].1
        && c2.plugins@[i].activate == rp[i].2) by {
        assert(raw.plugins@[i].marketplace@ == tp[i].0 && raw.plugins@[i].name@ == tp[i].1
            && raw.plugins@[i].activate == tp[i].2);
        assert(rp[i] == (
            tp[i].0,
            tp[i].1,
            match tp[i].2 {
                Some(b) => b,
                None => true,
            },
        ));
    }
    assert forall|i: int| 0 <= i < c2.plugins@.len() implies (v0_1::spec_has_marketplace(
        c2.marketplaces@,
        (#[trigger] c2.plugins@[i]).marketplace@,
    ) == spec_tree_has_marketplace(t, spec_res_plugins(t)[i].0)) by {
        if v0_1::spec_has_marketplace(c2.marketplaces@, c2.plugins@[i].marketplace@) {
            let j = choose|j: int|
                0 <= j < c2.marketplaces@.len() && (#[trigger] c2.marketplaces@[j]).0@
                    == c2.plugins@[i].marketplace@;
            assert(spec_res_marketplaces(t)[j].0 == rp[i].0);
            assert(spec_tree_has_marketplace(t, rp[i].0));
        }
        if spec_tree_has_marketplace(t, spec_res_plugins(t)[i].0) {
            let j = choose|j: int|
                0 <= j < spec_res_marketplaces(t).len() && (#[trigger] spec_res_marketplaces(
                    t,
                )[j]).0 == spec_res_plugins(t)[i].0;
            assert((c2.marketplaces@[j]).0@ == c2.plugins@[i].marketplace@);
            assert(v0_1::spec_has_marketplace(c2.marketplaces@, c2.plugins@[i].marketplace@));
        }
    }
    if c2.spec_plugins_ok() {
        assert forall|i: int| 0 <= i < rp.len() implies spec_tree_has_marketplace(
            t,
            (#[trigger] rp[i]).0,
        ) by {
            assert(v0_1::spec_has_marketplace(c2.marketplaces@, c2.plugins@[i].marketplace@));
            let j = choose|j: int|
                0 <= j < c2.marketplaces@.len() && (#[trigger] c2.marketplaces@[j]).0@
                    == c2.plugins@[i].marketplace@;
            assert(spec_res_marketplaces(t)[j].0 == rp[i].0);
        }
        assert(spec_tree_plugins_ok(t));
    }
    if spec_tree_plugins_ok(t) {
        assert forall|i: int| 0 <= i < c2.plugins@.len() implies v0_1::spec_has_marketplace(
            c2.marketplaces@,
            (#[trigger] c2.plugins@[i]).marketplace@,
        ) by {
            assert(spec_tree_has_marketplace(t, rp[i].0));
            let j = choose|j: int|
                0 <= j < spec_res_marketplaces(t).len() && (#[trigger] spec_res_marketplaces(
                    t,
                )[j]).0 == rp[i].0;
            assert((c2.marketplaces@[j]).0@ == c2.plugins@[i].marketplace@);
        }
        assert(c2.spec_plugins_ok());
    }
}

/// The revision-specific representation behind a [`Config`].
#[derive(Debug, Clone)]
pub enum ConfigInner {
    /// Schema revision 0.1.
    V0_1(v0_1::Config),
}

/// A validated configuration document, fully resolved: construction goes
/// through [`Config::from_str`], which rejects any document violating the
/// schema's invariants, so every held value satisfies [`Config::spec_wf`].
#[derive(Debug, Clone)]
pub struct Config {
    /// Schema revision of the document.
    pub version: SchemaVersion,
    /// Project name.
    pub name: String,
    /// Revision-specific representation.
    pub inner: ConfigInner,
}

/// View of the runtime section, owned.
#[derive(Debug, Clone)]
pub struct RuntimeConfigView {
    /// Programming language name.
    pub language: String,
    /// Language version.
    pub version: String,
    /// Package manager name.
    pub package_manager: String,
    /// Additional tools.
    pub tools: Vec<String>,
}

impl RuntimeConfigView {
    /// Programming language name.
    pub fn language(&self) -> (r: &str)
        ensures
            r@ == self.language@,
    {
        self.language.as_str()
    }

    /// Language version.
    pub fn version(&self) -> (r: &str)
        ensures
            r@ == self.version@,
    {
        self.version.as_str()
    }

    /// Package manager name.
    pub fn package_manager(&self) -> (r: &str)
        ensures
            r@ == self.package_manager@,
    {
        self.package_manager.as_str()
    }

    /// Additional tools.
    pub fn tools(&self) -> (r: &Vec<String>)
        ensures
            r@ == self.tools@,
    {
        &self.tools
    }
}

/// View of the proxy section, owned.
#[derive(Debug, Clone)]
pub struct ProxyConfigView {
    /// HTTP proxy URL.
    pub http: Option<String>,
    /// HTTPS proxy URL.
    pub https: Option<String>,
    /// Hosts excluded from proxying.
    pub no_proxy: Option<String>,
}

impl ProxyConfigView {
    /// HTTP proxy URL.
    pub fn http(&self) -> (r: Option<&String>)
        ensures
            r is Some <==> self.http is Some,
            r matches Some(s) ==> self.http matches Some(t) && s == t,
    {
        self.http.as_ref()
    }

    /// HTTPS proxy URL.
    pub fn https(&self) -> (r: Option<&String>)
        ensures
            r is Some <==> self.https is Some,
            r matches Some(s) ==> self.https matches Some(t) && s == t,
    {
        self.https.as_ref()
    }

    /// Hosts excluded from proxying.
    pub fn no_proxy(&self) -> (r: Option<&String>)
        ensures
            r is Some <==> self.no_proxy is Some,
            r matches Some(s) ==> self.no_proxy matches Some(t) && s == t,
    {
        self.no_proxy.as_ref()
    }
}

/// View of one marketplace entry.
#[derive(Debug, Clone)]
pub struct MarketplaceConfigView;

/// View of one plugin entry.
#[derive(Debug, Clone)]
pub struct PluginConfigView {
    /// Marketplace name reference.
    pub marketplace: String,
    /// Plugin name.
    pub name: String,
    /// Whether the plugin is activated.
    pub activate: bool,
}

/// View of the version-control policy.
#[derive(Debug, Clone, Copy)]
pub struct GitConfigView {
    /// Policy for generated files.
    pub generated: GitGeneratedHandling,
}

impl Config {
    /// The revision-0.1 representation.
    pub open spec fn spec_v0_1(&self) -> v0_1::Config {
        match self.inner {
            ConfigInner::V0_1(c) => c,
        }
    }

    /// Well-formedness: the inner configuration passed validation and the
    /// unified fields mirror it.
    pub open spec fn spec_wf(&self) -> bool {
        &&& self.spec_v0_1().spec_valid()
        &&& self.name == self.spec_v0_1().name
        &&& self.version == SchemaVersion::V0_1
    }

    /// Parse and validate a configuration document.
    ///
    /// What a text parses to is fixed by [`yaml_tree_of`]; from there this
    /// contract pins the whole pipeline: success holds exactly on the
    /// documents [`spec_parse_ok`] describes, every resolved field of a
    /// returned configuration equals its document value with the documented
    /// defaults folded in, and each rejection carries the message of the
    /// first fault in checking order — malformed YAML, a missing or
    /// unsupported `version`, the first structural fault, then the first
    /// violated cross-field invariant.
    #[verifier::rlimit(100)]
    #[verifier::spinoff_prover]
    pub fn from_str(s: &str) -> (r: Result<Config, Error>)
        ensures
            (r is Ok) == spec_parse_ok(s@),
            r matches Ok(c) ==> c.spec_wf(),
            yaml_tree_of(s@) is None ==> (r matches Err(e) && e matches Error::InvalidTemplate(m)
                && m@ == "Failed to parse YAML"@),
            yaml_tree_of(s@) matches Some(t) ==> (spec_doc_version(t) is None ==> (r matches Err(e)
                && e matches Error::InvalidTemplate(m) && m@
                == "Missing required field 'version'"@)),
            yaml_tree_of(s@) matches Some(t) ==> (spec_doc_version(t) matches Some(v) ==> (v
                != "0.1"@ ==> (r matches Err(e) && e matches Error::InvalidTemplate(m) && m@
                == version::spec_unsupported_version_msg(v)))),
            yaml_tree_of(s@) matches Some(t) ==> (spec_doc_version(t) == Some("0.1"@) ==> (
            spec_doc_fault(t) matches Some(f) ==> (r matches Err(e)
                && e matches Error::InvalidTemplate(m) && m@ == spec_fault_msg(f.0, f.1)))),
            yaml_tree_of(s@) matches Some(t) ==> ((spec_doc_version(t) == Some("0.1"@)
                && spec_doc_fault(t) is None && spec_res_name(t).len() == 0) ==> (r matches Err(e)
                && e matches Error::InvalidTemplate(m) && m@ == "Project name cannot be empty"@)),
            yaml_tree_of(s@) matches Some(t) ==> ((spec_doc_version(t) == Some("0.1"@)
                && spec_doc_fault(t) is None && spec_res_name(t).len() > 0 && spec_res_dir(t).len()
                == 0) ==> (r matches Err(e) && e matches Error::InvalidTemplate(m) && m@
                == "Workspace directory cannot be empty"@)),
            yaml_tree_of(s@) matches Some(t) ==> ((spec_doc_version(t) == Some("0.1"@)
                && spec_doc_fault(t) is None && spec_res_name(t).len() > 0 && spec_res_dir(t).len()
                > 0 && spec_res_image(t).len() == 0) ==> (r matches Err(e)
                && e matches Error::InvalidTemplate(m) && m@ == "Docker image cannot be empty"@)),
            yaml_tree_of(s@) matches Some(t) ==> ((spec_doc_version(t) == Some("0.1"@)
                && spec_doc_fault(t) is None && spec_res_name(t).len() > 0 && spec_res_dir(t).len()
                > 0 && spec_res_image(t).len() > 0 && !v0_1::spec_valid_provider(
                spec_res_provider(t),
            )) ==> (r matches Err(e) && e matches Error::InvalidTemplate(m) && m@
                == v0_1::spec_invalid_provider_msg(spec_res_provider(t)))),
            yaml_tree_of(s@) matches Some(t) ==> ((spec_doc_version(t) == Some("0.1"@)
                && spec_doc_fault(t) is None && spec_res_name(t).len() > 0 && spec_res_dir(t).len()
                > 0 && spec_res_image(t).len() > 0 && v0_1::spec_valid_provider(
                spec_res_provider(t),
            ) && !spec_doc_semantic_ok(t)) ==> (r matches Err(e)
                && e matches Error::InvalidTemplate(m) && exists|i: int|
                0 <= i < spec_res_plugins(t).len() && !spec_tree_has_marketplace(
                    t,
                    (#[trigger] spec_res_plugins(t)[i]).0,
                ) && m@ == v0_1::spec_dangling_plugin_msg(
                    spec_res_plugins(t)[i].1,
                    spec_res_plugins(t)[i].0,
                ))),
            r matches Ok(c) ==> (yaml_tree_of(s@) matches Some(t) && {
                let cc = c.spec_v0_1();
                &&& c.name@ == spec_res_name(t)
                &&& cc.version@ == "0.1"@
                &&& cc.name@ == spec_res_name(t)
                &&& cc.workspace.dir@ == spec_res_dir(t)
                &&& cc.docker.image@ == spec_res_image(t)
                &&& spec_strings_view(cc.docker.build_args@) == spec_res_build_args(t)
                &&& cc.assistant.version@ == spec_res_assistant_version(t)
                &&& cc.assistant.provider@ == spec_res_provider(t)
                &&& crate::json::spec_pairs_view(cc.assistant.models@) == spec_res_models(t)
                &&& (match (cc.runtime, spec_runtime_of(t)->Ok_0) {
                    (Option::None, Option::None) => true,
                    (Option::Some(rt), Option::Some(rr)) => rt.language@ == rr.0 && rt.version@
                        == rr.1 && rt.package_manager@ == rr.2 && spec_strings_view(rt.tools@)
                        == rr.3,
                    _ => false,
                })
                &&& (match (cc.proxy, spec_proxy_of(t)->Ok_0) {
                    (Option::None, Option::None) => true,
                    (Option::Some(p), Option::Some(q)) => spec_opt_text_matches(p.http, q.0)
                        && spec_opt_text_matches(p.https, q.1) && spec_opt_text_matches(
                        p.no_proxy,
                        q.2,
                    ),
                    _ => false,
                })
                &&& cc.marketplaces@.len() == spec_res_marketplaces(t).len()
                &&& (forall|i: int|
                    0 <= i < cc.marketplaces@.len() ==> (#[trigger] cc.marketplaces@[i]).0@
                        == spec_res_marketplaces(t)[i].0 && cc.marketplaces@[i].1.url@
                        == spec_res_marketplaces(t)[i].1)
                &&& cc.plugins@.len() == spec_res_plugins(t).len()
                &&& (forall|i: int|
                    0 <= i < cc.plugins@.len() ==> (#[trigger] cc.plugins@[i]).marketplace@
                        == spec_res_plugins(t)[i].0 && cc.plugins@[i].name@ == spec_res_plugins(
                        t,
                    )[i].1 && cc.plugins@[i].activate == spec_res_plugins(t)[i].2)
                &&& cc.git.generated == spec_res_git(t)
            }),
    {
        let doc = match yaml_parse_tree(s) {
            Some(d) => d,
            None => {
                return Err(Error::InvalidTemplate("Failed to parse YAML".to_owned()));
            },
        };
        let version_str = match node_get(&doc, "version") {
            Some(v) => match v {
                YamlNode::Str(vs) => vs.clone(),
                _ => {
                    return Err(
                        Error::InvalidTemplate("Missing required field 'version'".to_owned()),
                    );
                },
            },
            None => {
                return Err(Error::InvalidTemplate("Missing required field 'version'".to_owned()));
            },
        };
        let schema_version = match SchemaVersion::parse(version_str.as_str()) {
            Ok(v) => v,
            Err(e) => {
                return Err(e);
            },
        };
        let raw = match extract_v0_1(&doc) {
            Ok(r) => r,
            Err(e) => {
                return Err(e);
            },
        };
        let ghost raw_snapshot = raw;
        let resolved = raw.resolve();
        proof {
            lemma_config_of_tree(doc, raw_snapshot, resolved);
        }
        match resolved.validate() {
            Ok(()) => {},
            Err(e) => {
                proof {
                    let t = yaml_tree_of(s@)->Some_0;
                    if resolved.name@.len() > 0 && resolved.workspace.dir@.len() > 0
                        && resolved.docker.image@.len() > 0 && v0_1::spec_valid_provider(
                        resolved.assistant.provider@,
                    ) && !resolved.spec_plugins_ok() {
                        let m = e->InvalidTemplate_0;
                        let i = choose|i: int|
                            0 <= i < resolved.plugins@.len() && !v0_1::spec_has_marketplace(
                                resolved.marketplaces@,
                                (#[trigger] resolved.plugins@[i]).marketplace@,
                            ) && m@ == v0_1::spec_dangling_plugin_msg(
                                resolved.plugins@[i].name@,
                                resolved.plugins@[i].marketplace@,
                            );
                        assert(!spec_tree_has_marketplace(t, (spec_res_plugins(t)[i]).0));
                        assert(0 <= i < spec_res_plugins(t).len() && !spec_tree_has_marketplace(
                            t,
                            (#[trigger] spec_res_plugins(t)[i]).0,
                        ) && m@ == v0_1::spec_dangling_plugin_msg(
                            spec_res_plugins(t)[i].1,
                            spec_res_plugins(t)[i].0,
                        ));
                    }
                }
                return Err(e);
            },
        }
        let name = resolved.name.clone();
        Ok(Config { version: schema_version, name, inner: ConfigInner::V0_1(resolved) })
    }

    /// Workspace directory.
    pub fn workspace_dir(&self) -> (r: &str)
        ensures
            r@ == self.spec_v0_1().workspace.dir@,
    {
        match &self.inner {
            ConfigInner::V0_1(c) => c.workspace.dir.as_str(),
        }
    }

    /// Base container image reference.
    pub fn docker_image(&self) -> (r: &str)
        ensures
            r@ == self.spec_v0_1().docker.image@,
    {
        match &self.inner {
            ConfigInner::V0_1(c) => c.docker.image.as_str(),
        }
    }

    /// Extra container build arguments.
    pub fn docker_build_args(&self) -> (r: &Vec<String>)
        ensures
            r@ == self.spec_v0_1().docker.build_args@,
    {
        match &self.inner {
            ConfigInner::V0_1(c) => &c.docker.build_args,
        }
    }

    /// Assistant CLI version.
    pub fn assistant_version(&self) -> (r: &str)
        ensures
            r@ == self.spec_v0_1().assistant.version@,
    {
        match &self.inner {
            ConfigInner::V0_1(c) => c.assistant.version.as_str(),
        }
    }

    /// Assistant provider.
    pub fn assistant_provider(&self) -> (r: &str)
        ensures
            r@ == self.spec_v0_1().assistant.provider@,
    {
        match &self.inner {
            ConfigInner::V0_1(c) => c.assistant.provider.as_str(),
        }
    }

    /// Assistant model-name mapping, in document order.
    pub fn assistant_models(&self) -> (r: &Vec<(String, String)>)
        ensures
            r@ == self.spec_v0_1().assistant.models@,
    {
        match &self.inner {
            ConfigInner::V0_1(c) => &c.assistant.models,
        }
    }

    /// Runtime section, when given.
    pub fn runtime(&self) -> (r: Option<RuntimeConfigView>)
        ensures
            r is Some <==> self.spec_v0_1().runtime is Some,
            r matches Some(v) ==> self.spec_v0_1().runtime matches Some(rt) && v.language@
                == rt.language@ && v.version@ == rt.version@ && v.package_manager@
                == rt.package_manager@ && v.tools@ == rt.tools@,
    {
        match &self.inner {
            ConfigInner::V0_1(c) => {
                match &c.runtime {
                    Some(rt) => Some(
                        RuntimeConfigView {
                            language: rt.language.clone(),
                            version: rt.version.clone(),
                            package_manager: rt.package_manager.clone(),
                            tools: crate::text::clone_string_vec(&rt.tools),
                        },
                    ),
                    None => None,
                }
            },
        }
    }

    /// Proxy section, when given.
    pub fn proxy(&self) -> (r: Option<ProxyConfigView>)
        ensures
            r is Some <==> self.spec_v0_1().proxy is Some,
            r matches Some(v) ==> self.spec_v0_1().proxy matches Some(p) && v.http == p.http
                && v.https == p.https && v.no_proxy == p.no_proxy,
    {
        match &self.inner {
            ConfigInner::V0_1(c) => {
                match &c.proxy {
                    Some(p) => Some(
                        ProxyConfigView {
                            http: crate::text::clone_opt_string(&p.http),
                            https: crate::text::clone_opt_string(&p.https),
                            no_proxy: crate::text::clone_opt_string(&p.no_proxy),
                        },
                    ),
                    None => None,
                }
            },
        }
    }

    /// Marketplace mapping, in document order.
    pub fn marketplaces(&self) -> (r: &Vec<(String, MarketplaceConfig)>)
        ensures
            r@ == self.spec_v0_1().marketplaces@,
    {
        match &self.inner {
            ConfigInner::V0_1(c) => &c.marketplaces,
        }
    }

    /// Plugin entries, materialized as views, in document order.
    pub fn plugins(&self) -> (r: Vec<PluginConfigView>)
        ensures
            r@.len() == self.spec_v0_1().plugins@.len(),
            forall|i: int|
                0 <= i < r@.len() ==> {
                    let p = self.spec_v0_1().plugins@[i];
                    let v = #[trigger] r@[i];
                    &&& v.marketplace == p.marketplace
                    &&& v.name == p.name
                    &&& v.activate == p.activate
                },
    {
        self.plugins_vec()
    }

    /// Plugin entries, materialized as views, in document order.
    pub fn plugins_vec(&self) -> (r: Vec<PluginConfigView>)
        ensures
            r@.len() == self.spec_v0_1().plugins@.len(),
            forall|i: int|
                0 <= i < r@.len() ==> {
                    let p = self.spec_v0_1().plugins@[i];
                    let v = #[trigger] r@[i];
                    &&& v.marketplace == p.marketplace
                    &&& v.name == p.name
                    &&& v.activate == p.activate
                },
    {
        match &self.inner {
            ConfigInner::V0_1(c) => {
                let mut out: Vec<PluginConfigView> = Vec::new();
                let mut i: usize = 0;
                while i < c.plugins.len()
                    invariant
                        i <= c.plugins@.len(),
                        out@.len() == i,
                        forall|k: int|
                            0 <= k < i ==> {
                                let p = c.plugins@[k];
                                let v = #[trigger] out@[k];
                                &&& v.marketplace == p.marketplace
                                &&& v.name == p.name
                                &&& v.activate == p.activate
                            },
                    decreases c.plugins@.len() - i,
                {
                    out.push(
                        PluginConfigView {
                            marketplace: c.plugins[i].marketplace.clone(),
                            name: c.plugins[i].name.clone(),
                            activate: c.plugins[i].activate,
                        },
                    );
                    i = i + 1;
                }
                out
            },
        }
    }

    /// Version-control policy.
    pub fn git(&self) -> (r: GitConfigView)
        ensures
            r.generated == self.spec_v0_1().git.generated,
    {
        match &self.inner {
            ConfigInner::V0_1(c) => GitConfigView { generated: c.git.generated },
        }
    }
}

/// A double-quoted YAML scalar, its value escaped.
pub open spec fn spec_yq(s: Seq<char>) -> Seq<char> {
    "\""@ + crate::text::spec_json_escaped(s) + "\""@
}

/// Append a double-quoted YAML scalar, escaping the value.
fn push_yq(out: &mut String, s: &str)
    ensures
        final(out)@ == old(out)@ + spec_yq(s@),
{
    out.append("\"");
    let escaped = crate::text::json_escape(s);
    out.append(escaped.as_str());
    out.append("\"");
}

/// The emitted list of extra build arguments, one `- "…"` line each.
pub open spec fn spec_yaml_args(args: Seq<String>) -> Seq<char>
    decreases args.len(),
{
    if args.len() == 0 {
        Seq::<char>::empty()
    } else {
        spec_yaml_args(args.drop_last()) + "    - "@ + spec_yq(args.last()@) + "\n"@
    }
}

/// The emitted model mapping, one `"k": "v"` line each.
pub open spec fn spec_yaml_models(models: Seq<(String, String)>) -> Seq<char>
    decreases models.len(),
{
    if models.len() == 0 {
        Seq::<char>::empty()
    } else {
        spec_yaml_models(models.drop_last()) + "    "@ + spec_yq(models.last().0@) + ": "@
            + spec_yq(models.last().1@) + "\n"@
    }
}

/// The emitted tool list, one `- "…"` line each.
pub open spec fn spec_yaml_tools(tools: Seq<String>) -> Seq<char>
    decreases tools.len(),
{
    if tools.len() == 0 {
        Seq::<char>::empty()
    } else {
        spec_yaml_tools(tools.drop_last()) + "    - "@ + spec_yq(tools.last()@) + "\n"@
    }
}

/// The emitted marketplace mapping, a name key and an indented `url` line
/// each.
pub open spec fn spec_yaml_marketplaces(ms: Seq<(String, MarketplaceConfig)>) -> Seq<char>
    decreases ms.len(),
{
    if ms.len() == 0 {
        Seq::<char>::empty()
    } else {
        spec_yaml_marketplaces(ms.drop_last()) + "  "@ + spec_yq(ms.last().0@) + ":\n    url: "@
            + spec_yq(ms.last().1.url@) + "\n"@
    }
}

/// The emitted plugin list, one block of marketplace, name and activation
/// each.
pub open spec fn spec_yaml_plugins(plugins: Seq<v0_1::PluginConfig>) -> Seq<char>
    decreases plugins.len(),
{
    if plugins.len() == 0 {
        Seq::<char>::empty()
    } else {
        spec_yaml_plugins(plugins.drop_last()) + "  - marketplace: "@ + spec_yq(
            plugins.last().marketplace@,
        ) + "\n    name: "@ + spec_yq(plugins.last().name@) + "\n    activate: "@ + (
        if plugins.last().activate {
            "true"@
        } else {
            "false"@
        }) + "\n"@
    }
}

/// The emitted optional proxy field line, after the given line prefix.
pub open spec fn spec_yaml_proxy_field(prefix: Seq<char>, v: Option<String>) -> Seq<char> {
    match v {
        Some(s) => prefix + spec_yq(s@) + "\n"@,
        None => Seq::<char>::empty(),
    }
}

/// The emitted document for a configuration: every resolved field written
/// out explicitly, scalar values double-quoted, empty collections omitted.
pub open spec fn spec_to_yaml(c: v0_1::Config) -> Seq<char> {
    "version: "@ + spec_yq(c.version@) + "\nname: "@ + spec_yq(c.name@) + "\nworkspace:\n  dir: "@
        + spec_yq(c.workspace.dir@) + "\ndocker:\n  image: "@ + spec_yq(c.docker.image@) + "\n"@ + (
    if c.docker.build_args@.len() > 0 {
        "  build_args:\n"@ + spec_yaml_args(c.docker.build_args@)
    } else {
        Seq::<char>::empty()
    }) + "assistant:\n  version: "@ + spec_yq(c.assistant.version@) + "\n  provider: "@ + spec_yq(
        c.assistant.provider@,
    ) + "\n"@ + (if c.assistant.models@.len() > 0 {
        "  models:\n"@ + spec_yaml_models(c.assistant.models@)
    } else {
        Seq::<char>::empty()
    }) + (match c.runtime {
        Some(rt) => "runtime:\n  language: "@ + spec_yq(rt.language@) + "\n  version: "@ + spec_yq(
            rt.version@,
        ) + "\n  package_manager: "@ + spec_yq(rt.package_manager@) + "\n"@ + (
        if rt.tools@.len() > 0 {
            "  tools:\n"@ + spec_yaml_tools(rt.tools@)
        } else {
            Seq::<char>::empty()
        }),
        None => Seq::<char>::empty(),
    }) + (match c.proxy {
        Some(p) => "proxy:\n"@ + spec_yaml_proxy_field("  http: "@, p.http)
            + spec_yaml_proxy_field("  https: "@, p.https) + spec_yaml_proxy_field(
            "  no_proxy: "@,
            p.no_proxy,
        ),
        None => Seq::<char>::empty(),
    }) + (if c.marketplaces@.len() > 0 {
        "marketplaces:\n"@ + spec_yaml_marketplaces(c.marketplaces@)
    } else {
        Seq::<char>::empty()
    }) + (if c.plugins@.len() > 0 {
        "plugins:\n"@ + spec_yaml_plugins(c.plugins@)
    } else {
        Seq::<char>::empty()
    }) + "git:\n  generated: "@ + (match c.git.generated {
        GitGeneratedHandling::Ignored => "\"ignored\""@,
        GitGeneratedHandling::Committed => "\"committed\""@,
        GitGeneratedHandling::LinguistGenerated => "\"linguistgenerated\""@,
    }) + "\n"@
}

/// Emit the build-argument block, when arguments are configured.
fn yaml_args_block(args: &Vec<String>) -> (r: String)
    ensures
        r@ == (if args@.len() > 0 {
            "  build_args:\n"@ + spec_yaml_args(args@)
        } else {
            Seq::<char>::empty()
        }),
{
    let mut out = String::new();
    if args.len() > 0 {
        out.append("  build_args:\n");
        let ghost before = out@;
        let mut i: usize = 0;
        proof {
            assert(args@.take(0) =~= Seq::<String>::empty());
        }
        while i < args.len()
            invariant
                i <= args@.len(),
                out@ == before + spec_yaml_args(args@.take(i as int)),
            decreases args@.len() - i,
        {
            proof {
                assert(args@.take(i + 1).drop_last() =~= args@.take(i as int));
                assert(args@.take(i + 1).last() == args@[i as int]);
            }
            out.append("    - ");
            push_yq(&mut out, args[i].as_str());
            out.append("\n");
            i = i + 1;
        }
        proof {
            assert(args@.take(args@.len() as int) =~= args@);
        }
    }
    out
}

/// Emit the model-mapping block, when models are configured.
fn yaml_models_block(models: &Vec<(String, String)>) -> (r: String)
    ensures
        r@ == (if models@.len() > 0 {
            "  models:\n"@ + spec_yaml_models(models@)
        } else {
            Seq::<char>::empty()
        }),
{
    let mut out = String::new();
    if models.len() > 0 {
        out.append("  models:\n");
        let ghost before = out@;
        let mut i: usize = 0;
        proof {
            assert(models@.take(0) =~= Seq::<(String, String)>::empty());
        }
        while i < models.len()
            invariant
                i <= models@.len(),
                out@ == before + spec_yaml_models(models@.take(i as int)),
            decreases models@.len() - i,
        {
            proof {
                assert(models@.take(i + 1).drop_last() =~= models@.take(i as int));
                assert(models@.take(i + 1).last() == models@[i as int]);
            }
            out.append("    ");
            push_yq(&mut out, models[i].0.as_str());
            out.append(": ");
            push_yq(&mut out, models[i].1.as_str());
            out.append("\n");
            i = i + 1;
        }
        proof {
            assert(models@.take(models@.len() as int) =~= models@);
        }
    }
    out
}

/// Emit the runtime section, when a runtime is configured.
fn yaml_runtime_block(runtime: &Option<RuntimeConfig>) -> (r: String)
    ensures
        r@ == (match *runtime {
            Some(rt) => "runtime:\n  language: "@ + spec_yq(rt.language@) + "\n  version: "@
                + spec_yq(rt.version@) + "\n  package_manager: "@ + spec_yq(rt.package_manager@)
                + "\n"@ + (if rt.tools@.len() > 0 {
                "  tools:\n"@ + spec_yaml_tools(rt.tools@)
            } else {
                Seq::<char>::empty()
            }),
            None => Seq::<char>::empty(),
        }),
{
    let mut out = String::new();
    match runtime {
        Some(rt) => {
            out.append("runtime:\n  language: ");
            push_yq(&mut out, rt.language.as_str());
            out.append("\n  version: ");
            push_yq(&mut out, rt.version.as_str());
            out.append("\n  package_manager: ");
            push_yq(&mut out, rt.package_manager.as_str());
            out.append("\n");
            if rt.tools.len() > 0 {
                out.append("  tools:\n");
                let ghost before = out@;
                let mut i: usize = 0;
                proof {
                    assert(rt.tools@.take(0) =~= Seq::<String>::empty());
                }
                while i < rt.tools.len()
                    invariant
                        i <= rt.tools@.len(),
                        out@ == before + spec_yaml_tools(rt.tools@.take(i as int)),
                    decreases rt.tools@.len() - i,
                {
                    proof {
                        assert(rt.tools@.take(i + 1).drop_last() =~= rt.tools@.take(i as int));
                        assert(rt.tools@.take(i + 1).last() == rt.tools@[i as int]);
                    }
                    out.append("    - ");
                    push_yq(&mut out, rt.tools[i].as_str());
                    out.append("\n");
                    i = i + 1;
                }
                proof {
                    assert(rt.tools@.take(rt.tools@.len() as int) =~= rt.tools@);
                }
            }
        },
        None => {},
    }
    out
}

/// Emit the proxy section, when a proxy is configured.
fn yaml_proxy_block(proxy: &Option<ProxyConfig>) -> (r: String)
    ensures
        r@ == (match *proxy {
            Some(p) => "proxy:\n"@ + spec_yaml_proxy_field("  http: "@, p.http)
                + spec_yaml_proxy_field("  https: "@, p.https) + spec_yaml_proxy_field(
                "  no_proxy: "@,
                p.no_proxy,
            ),
            None => Seq::<char>::empty(),
        }),
{
    let mut out = String::new();
    match proxy {
        Some(p) => {
            out.append("proxy:\n");
            match &p.http {
                Some(h) => {
                    out.append("  http: ");
                    push_yq(&mut out, h.as_str());
                    out.append("\n");
                },
                None => {},
            }
            match &p.https {
                Some(h) => {
                    out.append("  https: ");
                    push_yq(&mut out, h.as_str());
                    out.append("\n");
                },
                None => {},
            }
            match &p.no_proxy {
                Some(n) => {
                    out.append("  no_proxy: ");
                    push_yq(&mut out, n.as_str());
                    out.append("\n");
                },
                None => {},
            }
        },
        None => {},
    }
    out
}

/// Emit the marketplace section, when marketplaces are configured.
fn yaml_marketplaces_block(ms: &Vec<(String, MarketplaceConfig)>) -> (r: String)
    ensures
        r@ == (if ms@.len() > 0 {
            "marketplaces:\n"@ + spec_yaml_marketplaces(ms@)
        } else {
            Seq::<char>::empty()
        }),
{
    let mut out = String::new();
    if ms.len() > 0 {
        out.append("marketplaces:\n");
        let ghost before = out@;
        let mut i: usize = 0;
        proof {
            assert(ms@.take(0) =~= Seq::<(String, MarketplaceConfig)>::empty());
        }
        while i < ms.len()
            invariant
                i <= ms@.len(),
                out@ == before + spec_yaml_marketplaces(ms@.take(i as int)),
            decreases ms@.len() - i,
        {
            proof {
                assert(ms@.take(i + 1).drop_last() =~= ms@.take(i as int));
                assert(ms@.take(i + 1).last() == ms@[i as int]);
            }
            out.append("  ");
            push_yq(&mut out, ms[i].0.as_str());
            out.append(":\n    url: ");
            push_yq(&mut out, ms[i].1.url.as_str());
            out.append("\n");
            i = i + 1;
        }
        proof {
            assert(ms@.take(ms@.len() as int) =~= ms@);
        }
    }
    out
}

/// Emit the plugin section, when plugins are configured.
#[verifier::rlimit(100)]
#[verifier::spinoff_prover]
fn yaml_plugins_block(plugins: &Vec<v0_1::PluginConfig>) -> (r: String)
    ensures
        r@ == (if plugins@.len() > 0 {
            "plugins:\n"@ + spec_yaml_plugins(plugins@)
        } else {
            Seq::<char>::empty()
        }),
{
    let mut out = String::new();
    if plugins.len() > 0 {
        out.append("plugins:\n");
        let ghost before = out@;
        let mut i: usize = 0;
        proof {
            assert(plugins@.take(0) =~= Seq::<v0_1::PluginConfig>::empty());
        }
        while i < plugins.len()
            invariant
                i <= plugins@.len(),
                out@ == before + spec_yaml_plugins(plugins@.take(i as int)),
            decreases plugins@.len() - i,
        {
            proof {
                assert(plugins@.take(i + 1).drop_last() =~= plugins@.take(i as int));
                assert(plugins@.take(i + 1).last() == plugins@[i as int]);
            }
            out.append("  - marketplace: ");
            push_yq(&mut out, plugins[i].marketplace.as_str());
            out.append("\n    name: ");
            push_yq(&mut out, plugins[i].name.as_str());
            out.append("\n    activate: ");
            if plugins[i].activate {
                out.append("true");
            } else {
                out.append("false");
            }
            out.append("\n");
            i = i + 1;
        }
        proof {
            assert(plugins@.take(plugins@.len() as int) =~= plugins@);
        }
    }
    out
}

impl Config {
    /// Serialize the configuration as a document, every resolved field
    /// explicit and scalar values double-quoted with their content escaped,
    /// as [`spec_to_yaml`] states. Re-parsing such a document reproduces
    /// every resolved field (the round-trip law
    /// [`v0_1::lemma_round_trip`]).
    #[verifier::rlimit(100)]
    #[verifier::spinoff_prover]
    pub fn to_yaml(&self) -> (r: String)
        ensures
            r@ == spec_to_yaml(self.spec_v0_1()),
    {
        let c = match &self.inner {
            ConfigInner::V0_1(c) => c,
        };
        let mut out = "version: ".to_owned();
        push_yq(&mut out, c.version.as_str());
        out.append("\nname: ");
        push_yq(&mut out, c.name.as_str());
        out.append("\nworkspace:\n  dir: ");
        push_yq(&mut out, c.workspace.dir.as_str());
        out.append("\ndocker:\n  image: ");
        push_yq(&mut out, c.docker.image.as_str());
        out.append("\n");
        let args_block = yaml_args_block(&c.docker.build_args);
        out.append(args_block.as_str());
        out.append("assistant:\n  version: ");
        push_yq(&mut out, c.assistant.version.as_str());
        out.append("\n  provider: ");
        push_yq(&mut out, c.assistant.provider.as_str());
        out.append("\n");
        let models_block = yaml_models_block(&c.assistant.models);
        out.append(models_block.as_str());
        let runtime_block = yaml_runtime_block(&c.runtime);
        out.append(runtime_block.as_str());
        let proxy_block = yaml_proxy_block(&c.proxy);
        out.append(proxy_block.as_str());
        let ms_block = yaml_marketplaces_block(&c.marketplaces);
        out.append(ms_block.as_str());
        let plugins_block = yaml_plugins_block(&c.plugins);
        out.append(plugins_block.as_str());
        out.append("git:\n  generated: ");
        match c.git.generated {
            GitGeneratedHandling::Ignored => out.append("\"ignored\""),
            GitGeneratedHandling::Committed => out.append("\"committed\""),
            GitGeneratedHandling::LinguistGenerated => out.append("\"linguistgenerated\""),
        }
        out.append("\n");
        proof {
            assert(out@ =~= spec_to_yaml(self.spec_v0_1()));
        }
        out
    }
}

/// Template metadata as a template directory describes itself.
#[derive(Debug, Clone)]
pub struct TemplateInfo {
    /// Template name.
    pub name: String,
    /// Template description.
    pub description: String,
    /// Template version.
    pub version: String,
    /// Default language version.
    pub lang_version_default: String,
    /// Available features.
    pub features: Vec<FeatureInfo>,
    /// Supported language versions.
    pub supported_versions: Vec<String>,
}

/// One feature a template offers.
#[derive(Debug, Clone)]
pub struct FeatureInfo {
    /// Feature name.
    pub name: String,
    /// Feature description.
    pub description: String,
}

/// A preset: a named combination of template, language version, features
/// and plugins.
#[derive(Debug, Clone)]
pub struct Preset {
    /// Preset name.
    pub name: String,
    /// Template to use.
    pub template: String,
    /// Language version.
    pub lang_version: String,
    /// Features to enable.
    pub features: Vec<String>,
    /// Assistant plugins to enable.
    pub assistant_plugins: Vec<String>,
}

} // verus!
