//! Artifact synchronization: render the container descriptor, build file and
//! assistant guidance document for a configuration, and decide how the
//! configured policy records generated files in version-control metadata.
//!
//! Everything here is a pure function of the configuration and of file
//! contents the caller read; writing files and initializing repositories is
//! the caller's concern.

use vstd::prelude::*;
use vstd::string::*;

use crate::config::{Config, ConfigInner};
use crate::config::v0_1;
use crate::config::v0_1::GitGeneratedHandling;
use crate::error::Error;
use crate::json::{json_of_string_map, json_of_string_list, json_object_of, json_array_of,
    spec_pairs_view, spec_strings_view};
use crate::template::{spec_filter_names, filter_plugin_names};
use crate::text::{contains_sub, spec_contains_sub, str_eq, json_escape, spec_json_escaped};

verus! {

/// Options of a synchronization run.
#[derive(Debug, Clone)]
pub struct SyncOptions {
    /// Compute everything but write nothing.
    pub dry_run: bool,
    /// Overwrite artifacts that already exist.
    pub force: bool,
    /// Directory the run works against.
    pub cwd: String,
}

impl Default for SyncOptions {
    /// Write artifacts that are absent, in the current directory.
    fn default() -> (r: Self)
        ensures
            r.dry_run == false,
            r.force == false,
            r.cwd@ == "."@,
    {
        SyncOptions { dry_run: false, force: false, cwd: ".".to_owned() }
    }
}

/// An optional JSON string value: the quoted, escaped text, or `null`.
pub open spec fn spec_json_opt_string(o: Option<String>) -> Seq<char> {
    match o {
        Some(s) => "\""@ + spec_json_escaped(s@) + "\""@,
        None => "null"@,
    }
}

/// Append an optional JSON string value, escaping the text.
fn push_json_opt_string(out: &mut String, o: &Option<String>)
    ensures
        final(out)@ == old(out)@ + spec_json_opt_string(*o),
{
    match o {
        Some(s) => {
            out.append("\"");
            let escaped = json_escape(s.as_str());
            out.append(escaped.as_str());
            out.append("\"");
        },
        None => {
            out.append("null");
        },
    }
}

/// The language feature block of the container descriptor, when the runtime
/// language is one the descriptor knows.
pub open spec fn spec_lang_feature(rt: Option<v0_1::RuntimeConfig>) -> Seq<char> {
    match rt {
        Some(rt) => {
            if rt.language@ == "python"@ {
                "    \"ghcr.io/devcontainers/features/python:1\": {\n      \"version\": \""@
                    + spec_json_escaped(rt.version@) + "\",\n      \"installTools\": true\n    },\n"@
            } else if rt.language@ == "nodejs"@ || rt.language@ == "javascript"@ {
                "    \"ghcr.io/devcontainers/features/node:1\": {\n      \"version\": \""@
                    + spec_json_escaped(rt.version@) + "\"\n    },\n"@
            } else if rt.language@ == "rust"@ {
                "    \"ghcr.io/devcontainers/features/rust:1\": {\n      \"version\": \""@
                    + spec_json_escaped(rt.version@) + "\"\n    },\n"@
            } else if rt.language@ == "go"@ {
                "    \"ghcr.io/devcontainers/features/go:1\": {\n      \"version\": \""@
                    + spec_json_escaped(rt.version@) + "\"\n    },\n"@
            } else {
                Seq::<char>::empty()
            }
        },
        None => Seq::<char>::empty(),
    }
}

/// The proxy feature block of the container descriptor, when a proxy is
/// configured.
pub open spec fn spec_proxy_feature(p: Option<v0_1::ProxyConfig>) -> Seq<char> {
    match p {
        Some(p) => "    \"./features/proxy\": {\n      \"http_proxy\": "@ + spec_json_opt_string(
            p.http,
        ) + ",\n      \"https_proxy\": "@ + spec_json_opt_string(p.https)
            + ",\n      \"no_proxy\": "@ + spec_json_opt_string(p.no_proxy)
            + ",\n      \"enabled\": true\n    },\n"@,
        None => Seq::<char>::empty(),
    }
}

/// The assistant feature block of the container descriptor.
pub open spec fn spec_assistant_feature(c: v0_1::Config) -> Seq<char> {
    "    \"./features/assistant\": {\n      \"version\": \""@ + spec_json_escaped(
        c.assistant.version@,
    ) + "\",\n      \"provider\": \""@ + spec_json_escaped(c.assistant.provider@)
        + "\",\n      \"models\": "@ + (
    if c.assistant.models@.len() > 0 {
        json_object_of(spec_pairs_view(c.assistant.models@))
    } else {
        "null"@
    }) + ",\n      \"http_proxy\": "@ + spec_json_opt_string(
        match c.proxy {
            Some(p) => p.http,
            None => Option::None,
        },
    ) + ",\n      \"https_proxy\": "@ + spec_json_opt_string(
        match c.proxy {
            Some(p) => p.https,
            None => Option::None,
        },
    ) + "\n    }"@
}

/// The plugin-manager feature block, when plugins are configured.
pub open spec fn spec_plugin_feature(c: v0_1::Config) -> Seq<char> {
    if c.plugins@.len() > 0 {
        ",\n    \"./features/plugin-manager\": {\n      \"activate_plugins\": "@ + json_array_of(
            spec_strings_view(spec_filter_names(c.plugins@, true)),
        ) + ",\n      \"deactivate_plugins\": "@ + json_array_of(
            spec_strings_view(spec_filter_names(c.plugins@, false)),
        ) + "\n    }"@
    } else {
        Seq::<char>::empty()
    }
}

/// The feature install order of the container descriptor: proxy first when
/// present, then the assistant, then the plugin manager when present.
pub open spec fn spec_install_order(c: v0_1::Config) -> Seq<char> {
    (if c.proxy is Some {
        "    \"./features/proxy\",\n"@
    } else {
        Seq::<char>::empty()
    }) + "    \"./features/assistant\""@ + (if c.plugins@.len() > 0 {
        ",\n    \"./features/plugin-manager\"\n"@
    } else {
        "\n"@
    })
}

/// The whole container descriptor for a configuration.
pub open spec fn spec_sync_devcontainer(c: v0_1::Config) -> Seq<char> {
    "{\n  \"name\": \""@ + spec_json_escaped(c.name@) + " - Isolde Environment\",\n"@
        + "  \"build\": {\n    \"dockerfile\": \"Dockerfile\",\n    \"context\": \"..\",\n    \"args\": {\n      \"USERNAME\": \"${localEnv:USER}\"\n    }\n  },\n"@
        + "  \"features\": {\n"@ + DEVCONTAINER_COMMON_FEATURES@ + spec_lang_feature(c.runtime)
        + spec_proxy_feature(c.proxy) + spec_assistant_feature(c) + spec_plugin_feature(c) + "\n  },\n"@
        + "  \"overrideFeatureInstallOrder\": [\n"@ + spec_install_order(c) + "  ],\n"@
        + DEVCONTAINER_FIXED_TAIL_A@ + "/workspaces/"@ + spec_json_escaped(c.name@) + "\"\n}"@
}

/// The fixed feature blocks every descriptor carries.
pub const DEVCONTAINER_COMMON_FEATURES: &'static str =
    "    \"ghcr.io/devcontainers/features/common-utils:2\": {\n      \"installZsh\": false,\n      \"installOhMyZsh\": false,\n      \"upgradePackages\": false\n    },\n    \"ghcr.io/devcontainers/features/node:1\": {\n      \"version\": \"lts\",\n      \"nodeGypDependencies\": true,\n      \"npxInstallCachedPackages\": true\n    },\n";

/// The fixed customization, mount and user settings of the descriptor, up to
/// the workspace folder value.
pub const DEVCONTAINER_FIXED_TAIL_A: &'static str =
    "  \"customizations\": {\n    \"vscode\": {\n      \"extensions\": [\n        \"assistant-tools\"\n      ],\n      \"settings\": {\n        \"terminal.integrated.defaultProfile.linux\": \"bash\"\n      }\n    }\n  },\n  \"mounts\": [\n    \"source=${localEnv:HOME}/.assistant,target=/home/${localEnv:USER}/.assistant,type=bind,consistency=cached\",\n    \"source=${localEnv:HOME}/.assistant.json,target=/home/${localEnv:USER}/.assistant.json,type=bind,consistency=cached\",\n    \"source=${localEnv:HOME}/.config/devcontainer/machine-id,target=/etc/machine-id,type=bind,consistency=cached\"\n  ],\n  \"remoteUser\": \"${localEnv:USER}\",\n  \"workspaceFolder\": \"";

/// Render the language feature block of the descriptor.
fn lang_feature_block(rt: &Option<v0_1::RuntimeConfig>) -> (r: String)
    ensures
        r@ == spec_lang_feature(*rt),
{
    let mut out = String::new();
    match rt {
        Some(rt) => {
            if str_eq(rt.language.as_str(), "python") {
                out.append(
                    "    \"ghcr.io/devcontainers/features/python:1\": {\n      \"version\": \"",
                );
                let escaped = json_escape(rt.version.as_str());
                out.append(escaped.as_str());
                out.append("\",\n      \"installTools\": true\n    },\n");
            } else if str_eq(rt.language.as_str(), "nodejs") || str_eq(
                rt.language.as_str(),
                "javascript",
            ) {
                out.append(
                    "    \"ghcr.io/devcontainers/features/node:1\": {\n      \"version\": \"",
                );
                let escaped = json_escape(rt.version.as_str());
                out.append(escaped.as_str());
                out.append("\"\n    },\n");
            } else if str_eq(rt.language.as_str(), "rust") {
                out.append(
                    "    \"ghcr.io/devcontainers/features/rust:1\": {\n      \"version\": \"",
                );
                let escaped = json_escape(rt.version.as_str());
                out.append(escaped.as_str());
                out.append("\"\n    },\n");
            } else if str_eq(rt.language.as_str(), "go") {
                out.append("    \"ghcr.io/devcontainers/features/go:1\": {\n      \"version\": \"");
                let escaped = json_escape(rt.version.as_str());
                out.append(escaped.as_str());
                out.append("\"\n    },\n");
            }
        },
        None => {},
    }
    out
}

/// Render the proxy feature block of the descriptor.
fn proxy_feature_block(p: &Option<v0_1::ProxyConfig>) -> (r: String)
    ensures
        r@ == spec_proxy_feature(*p),
{
    let mut out = String::new();
    match p {
        Some(p) => {
            out.append("    \"./features/proxy\": {\n      \"http_proxy\": ");
            push_json_opt_string(&mut out, &p.http);
            out.append(",\n      \"https_proxy\": ");
            push_json_opt_string(&mut out, &p.https);
            out.append(",\n      \"no_proxy\": ");
            push_json_opt_string(&mut out, &p.no_proxy);
            out.append(",\n      \"enabled\": true\n    },\n");
        },
        None => {},
    }
    out
}

/// Render the assistant feature block of the descriptor.
fn assistant_feature_block(c: &v0_1::Config) -> (r: String)
    ensures
        r@ == spec_assistant_feature(*c),
{
    let mut out = "    \"./features/assistant\": {\n      \"version\": \"".to_owned();
    let escaped = json_escape(c.assistant.version.as_str());
    out.append(escaped.as_str());
    out.append("\",\n      \"provider\": \"");
    let escaped = json_escape(c.assistant.provider.as_str());
    out.append(escaped.as_str());
    out.append("\",\n      \"models\": ");
    if c.assistant.models.len() > 0 {
        let models_json = json_of_string_map(&c.assistant.models);
        out.append(models_json.as_str());
    } else {
        out.append("null");
    }
    out.append(",\n      \"http_proxy\": ");
    match &c.proxy {
        Some(p) => push_json_opt_string(&mut out, &p.http),
        None => out.append("null"),
    }
    out.append(",\n      \"https_proxy\": ");
    match &c.proxy {
        Some(p) => push_json_opt_string(&mut out, &p.https),
        None => out.append("null"),
    }
    out.append("\n    }");
    out
}

/// Render the plugin-manager feature block of the descriptor.
fn plugin_feature_block(c: &v0_1::Config) -> (r: String)
    ensures
        r@ == spec_plugin_feature(*c),
{
    let mut out = String::new();
    if c.plugins.len() > 0 {
        out.append(",\n    \"./features/plugin-manager\": {\n      \"activate_plugins\": ");
        let active = filter_plugin_names(&c.plugins, true);
        let active_json = json_of_string_list(&active);
        out.append(active_json.as_str());
        out.append(",\n      \"deactivate_plugins\": ");
        let inactive = filter_plugin_names(&c.plugins, false);
        let inactive_json = json_of_string_list(&inactive);
        out.append(inactive_json.as_str());
        out.append("\n    }");
    }
    out
}

/// Render the feature install order of the descriptor.
fn install_order_block(c: &v0_1::Config) -> (r: String)
    ensures
        r@ == spec_install_order(*c),
{
    let mut out = String::new();
    if c.proxy.is_some() {
        out.append("    \"./features/proxy\",\n");
    }
    out.append("    \"./features/assistant\"");
    if c.plugins.len() > 0 {
        out.append(",\n    \"./features/plugin-manager\"\n");
    } else {
        out.append("\n");
    }
    out
}

/// Render the container descriptor from the configuration: fixed features,
/// the language feature when the runtime is known, the proxy feature when
/// configured, the assistant feature, the plugin manager when plugins exist,
/// and the matching install order.
#[verifier::rlimit(100)]
#[verifier::spinoff_prover]
pub fn generate_devcontainer(config: &Config) -> (r: Result<String, Error>)
    ensures
        r matches Ok(s) && s@ == spec_sync_devcontainer(config.spec_v0_1()),
{
    let c = match &config.inner {
        ConfigInner::V0_1(c) => c,
    };
    let mut out = "{\n  \"name\": \"".to_owned();
    let escaped = json_escape(c.name.as_str());
    out.append(escaped.as_str());
    out.append(" - Isolde Environment\",\n");
    out.append(
        "  \"build\": {\n    \"dockerfile\": \"Dockerfile\",\n    \"context\": \"..\",\n    \"args\": {\n      \"USERNAME\": \"${localEnv:USER}\"\n    }\n  },\n",
    );
    out.append("  \"features\": {\n");
    out.append(DEVCONTAINER_COMMON_FEATURES);
    let lang = lang_feature_block(&c.runtime);
    out.append(lang.as_str());
    let proxy_block = proxy_feature_block(&c.proxy);
    out.append(proxy_block.as_str());
    let assistant_block = assistant_feature_block(c);
    out.append(assistant_block.as_str());
    let plugin_block = plugin_feature_block(c);
    out.append(plugin_block.as_str());
    out.append("\n  },\n");
    out.append("  \"overrideFeatureInstallOrder\": [\n");
    let order = install_order_block(c);
    out.append(order.as_str());
    out.append("  ],\n");
    out.append(DEVCONTAINER_FIXED_TAIL_A);
    out.append("/workspaces/");
    let escaped = json_escape(c.name.as_str());
    out.append(escaped.as_str());
    out.append("\"\n}");
    Ok(out)
}

/// The fixed tail of the synchronized build file.
pub const SYNC_DOCKERFILE_TAIL: &'static str =
    "# User arguments with defaults\nARG USERNAME=user\nARG USER_UID=1000\nARG USER_GID=1000\n\n# Set DEBIAN_FRONTEND for non-interactive apt\nENV DEBIAN_FRONTEND=noninteractive\n\n# Install system dependencies\nRUN apt-get update && apt-get install -y \\\n    curl \\\n    git \\\n    wget \\\n    vim \\\n    jq \\\n    build-essential \\\n    ca-certificates \\\n    gosu \\\n    && rm -rf /var/lib/apt/lists/*\n\nWORKDIR /workspaces\n\n# Pre-install sudo\nRUN apt-get update && apt-get install -y sudo && rm -rf /var/lib/apt/lists/*\n\n# Create user with sudo access\nRUN groupadd --gid ${USER_GID} ${USERNAME} \\\n    && useradd --uid ${USER_UID} --gid ${USERNAME} --shell /bin/bash --create-home ${USERNAME} \\\n    && echo \"${USERNAME} ALL=(ALL) NOPASSWD:ALL\" >> /etc/sudoers\n\n# Set ownership for workspace directory\nRUN chown -R ${USERNAME}:${USERNAME} /workspaces\n\nUSER ${USERNAME}\n";

/// Render the synchronized build file: the configured base image, then the
/// fixed user and installation steps.
pub fn generate_dockerfile(config: &Config) -> (r: Result<String, Error>)
    ensures
        r matches Ok(s) && s@ == "ARG BASE_IMAGE="@ + config.spec_v0_1().docker.image@
            + "\nFROM ${BASE_IMAGE}\n\n"@ + SYNC_DOCKERFILE_TAIL@,
{
    let c = match &config.inner {
        ConfigInner::V0_1(c) => c,
    };
    let mut out = "ARG BASE_IMAGE=".to_owned();
    out.append(c.docker.image.as_str());
    out.append("\nFROM ${BASE_IMAGE}\n\n");
    out.append(SYNC_DOCKERFILE_TAIL);
    Ok(out)
}

/// The tool lines of the guidance document, one per tool.
pub open spec fn spec_tools_md(tools: Seq<String>) -> Seq<char>
    decreases tools.len(),
{
    if tools.len() == 0 {
        Seq::<char>::empty()
    } else {
        "- "@ + tools[0]@ + "\n"@ + spec_tools_md(tools.drop_first())
    }
}

/// Appending one tool appends one line.
proof fn lemma_tools_md_snoc(tools: Seq<String>, x: String)
    ensures
        spec_tools_md(tools.push(x)) == spec_tools_md(tools) + ("- "@ + x@ + "\n"@),
    decreases tools.len(),
{
    if tools.len() == 0 {
        assert(tools.push(x)[0] == x);
        assert(tools.push(x).drop_first() =~= tools);
        assert(spec_tools_md(tools.push(x)) =~= spec_tools_md(tools) + ("- "@ + x@ + "\n"@));
    } else {
        assert(tools.push(x).drop_first() =~= tools.drop_first().push(x));
        lemma_tools_md_snoc(tools.drop_first(), x);
        assert(tools.push(x)[0] == tools[0]);
        assert(spec_tools_md(tools.push(x)) == "- "@ + tools[0]@ + "\n"@ + spec_tools_md(
            tools.drop_first().push(x),
        ));
        assert(spec_tools_md(tools.push(x)) =~= spec_tools_md(tools) + ("- "@ + x@ + "\n"@));
    }
}

/// The plugin lines of the guidance document: a check or cross mark, the
/// name and the marketplace.
pub open spec fn spec_plugins_md(plugins: Seq<v0_1::PluginConfig>) -> Seq<char>
    decreases plugins.len(),
{
    if plugins.len() == 0 {
        Seq::<char>::empty()
    } else {
        "- "@ + (if plugins[0].activate {
            "+"@
        } else {
            "-"@
        }) + " "@ + plugins[0].name@ + " (from marketplace: "@ + plugins[0].marketplace@ + ")\n"@
            + spec_plugins_md(plugins.drop_first())
    }
}

/// Appending one plugin appends one line.
proof fn lemma_plugins_md_snoc(plugins: Seq<v0_1::PluginConfig>, p: v0_1::PluginConfig)
    ensures
        spec_plugins_md(plugins.push(p)) == spec_plugins_md(plugins) + ("- "@ + (if p.activate {
            "+"@
        } else {
            "-"@
        }) + " "@ + p.name@ + " (from marketplace: "@ + p.marketplace@ + ")\n"@),
    decreases plugins.len(),
{
    let ghost line = "- "@ + (if p.activate {
        "+"@
    } else {
        "-"@
    }) + " "@ + p.name@ + " (from marketplace: "@ + p.marketplace@ + ")\n"@;
    if plugins.len() == 0 {
        assert(plugins.push(p)[0] == p);
        assert(plugins.push(p).drop_first() =~= plugins);
        assert(spec_plugins_md(plugins.push(p)) =~= spec_plugins_md(plugins) + line);
    } else {
        assert(plugins.push(p).drop_first() =~= plugins.drop_first().push(p));
        lemma_plugins_md_snoc(plugins.drop_first(), p);
        assert(plugins.push(p)[0] == plugins[0]);
        assert(spec_plugins_md(plugins.push(p)) =~= spec_plugins_md(plugins) + line);
    }
}

/// The marketplace lines of the guidance document.
pub open spec fn spec_marketplaces_md(ms: Seq<(String, v0_1::MarketplaceConfig)>) -> Seq<char>
    decreases ms.len(),
{
    if ms.len() == 0 {
        Seq::<char>::empty()
    } else {
        "- "@ + ms[0].0@ + ": "@ + ms[0].1.url@ + "\n"@ + spec_marketplaces_md(ms.drop_first())
    }
}

/// Appending one marketplace appends one line.
proof fn lemma_marketplaces_md_snoc(
    ms: Seq<(String, v0_1::MarketplaceConfig)>,
    m: (String, v0_1::MarketplaceConfig),
)
    ensures
        spec_marketplaces_md(ms.push(m)) == spec_marketplaces_md(ms) + ("- "@ + m.0@ + ": "@
            + m.1.url@ + "\n"@),
    decreases ms.len(),
{
    let ghost line = "- "@ + m.0@ + ": "@ + m.1.url@ + "\n"@;
    if ms.len() == 0 {
        assert(ms.push(m)[0] == m);
        assert(ms.push(m).drop_first() =~= ms);
        assert(spec_marketplaces_md(ms.push(m)) =~= spec_marketplaces_md(ms) + line);
    } else {
        assert(ms.push(m).drop_first() =~= ms.drop_first().push(m));
        lemma_marketplaces_md_snoc(ms.drop_first(), m);
        assert(ms.push(m)[0] == ms[0]);
        assert(spec_marketplaces_md(ms.push(m)) =~= spec_marketplaces_md(ms) + line);
    }
}

/// The runtime section of the guidance document, when a runtime is
/// configured.
pub open spec fn spec_runtime_md(rt: Option<v0_1::RuntimeConfig>) -> Seq<char> {
    match rt {
        Some(rt) => "\n## Runtime Environment\n\n- **Language**: "@ + rt.language@ + " "@
            + rt.version@ + "\n- **Package Manager**: "@ + rt.package_manager@ + "\n"@ + (
        if rt.tools@.len() > 0 {
            "\n### Tools\n"@ + spec_tools_md(rt.tools@)
        } else {
            Seq::<char>::empty()
        }),
        None => Seq::<char>::empty(),
    }
}

/// The proxy section of the guidance document, when a proxy is configured.
pub open spec fn spec_proxy_md(p: Option<v0_1::ProxyConfig>) -> Seq<char> {
    match p {
        Some(p) => "\n## Proxy Configuration\n\nThis project is configured to work with a corporate proxy.\n"@
            + (match p.http {
            Some(h) => "- HTTP Proxy: "@ + h@ + "\n"@,
            None => Seq::<char>::empty(),
        }) + (match p.https {
            Some(h) => "- HTTPS Proxy: "@ + h@ + "\n"@,
            None => Seq::<char>::empty(),
        }) + (match p.no_proxy {
            Some(n) => "- No Proxy: "@ + n@ + "\n"@,
            None => Seq::<char>::empty(),
        }),
        None => Seq::<char>::empty(),
    }
}

/// The fixed workflow tail of the guidance document.
pub const GUIDANCE_MD_TAIL: &'static str =
    "\n\n## Development Workflow\n\n1. **Build the devcontainer**:\n   ```bash\n   docker build -t <image-name> .devcontainer\n   ```\n\n2. **Start development**:\n   - Use VS Code Dev Containers or\n   - Run: `docker run -it --rm -v $(pwd):/workspaces/<project> <image-name>`\n\n3. **Use the assistant**:\n   ```bash\n   assistant \"help me understand this codebase\"\n   ```\n\n## Notes\n\n- Configuration is managed by Isolde\n- Run `isolde sync` to regenerate configuration\n- Do not manually edit generated files in `.devcontainer/`\n";

/// The whole guidance document for a configuration.
pub open spec fn spec_guidance_md(c: v0_1::Config) -> Seq<char> {
    "# Assistant Configuration for "@ + c.name@
        + "\n\nThis file provides guidance to the assistant when working with code in this repository.\n\n## Project Overview\n\n**"@
        + c.name@ + "** - Version "@ + c.version@
        + "\n\nThis is an Isolde-managed isolated development environment.\n\n## Configuration\n\n- **Docker Image**: "@
        + c.docker.image@ + "\n- **Assistant Provider**: "@ + c.assistant.provider@
        + "\n- **Workspace Directory**: "@ + c.workspace.dir@ + "\n"@ + spec_runtime_md(c.runtime)
        + (if c.plugins@.len() > 0 {
        "\n## Assistant Plugins\n"@ + spec_plugins_md(c.plugins@)
    } else {
        Seq::<char>::empty()
    }) + (if c.marketplaces@.len() > 0 {
        "\n## Marketplaces\n"@ + spec_marketplaces_md(c.marketplaces@)
    } else {
        Seq::<char>::empty()
    }) + spec_proxy_md(c.proxy) + GUIDANCE_MD_TAIL@
}

/// Render the assistant guidance document: project overview, configuration,
/// runtime, plugin, marketplace and proxy sections as configured, then the
/// fixed workflow notes.
/// Render the runtime section of the guidance document.
fn guidance_md_runtime(rt: &Option<v0_1::RuntimeConfig>) -> (r: String)
    ensures
        r@ == spec_runtime_md(*rt),
{
    let mut out = String::new();
    match rt {
        Some(rt) => {
            out.append("\n## Runtime Environment\n\n- **Language**: ");
            out.append(rt.language.as_str());
            out.append(" ");
            out.append(rt.version.as_str());
            out.append("\n- **Package Manager**: ");
            out.append(rt.package_manager.as_str());
            out.append("\n");
            if rt.tools.len() > 0 {
                out.append("\n### Tools\n");
                let ghost before = out@;
                let mut i: usize = 0;
                proof {
                    assert(rt.tools@.take(0) =~= Seq::<String>::empty());
                }
                while i < rt.tools.len()
                    invariant
                        i <= rt.tools@.len(),
                        out@ == before + spec_tools_md(rt.tools@.take(i as int)),
                    decreases rt.tools@.len() - i,
                {
                    proof {
                        lemma_tools_md_snoc(rt.tools@.take(i as int), rt.tools@[i as int]);
                        assert(rt.tools@.take(i as int).push(rt.tools@[i as int]) =~= rt.tools@.take(
                            i + 1,
                        ));
                    }
                    out.append("- ");
                    out.append(rt.tools[i].as_str());
                    out.append("\n");
                    i = i + 1;
                }
                proof {
                    assert(rt.tools@.take(rt.tools@.len() as int) =~= rt.tools@);
                }
            }
        },
        None => {},
    }
    out
}

/// Render the plugin section of the guidance document.
#[verifier::rlimit(100)]
#[verifier::spinoff_prover]
fn guidance_md_plugins(plugins: &Vec<v0_1::PluginConfig>) -> (r: String)
    ensures
        r@ == (if plugins@.len() > 0 {
            "\n## Assistant Plugins\n"@ + spec_plugins_md(plugins@)
        } else {
            Seq::<char>::empty()
        }),
{
    let mut out = String::new();
    if plugins.len() > 0 {
        out.append("\n## Assistant Plugins\n");
        let ghost before = out@;
        let mut i: usize = 0;
        proof {
            assert(plugins@.take(0) =~= Seq::<v0_1::PluginConfig>::empty());
        }
        while i < plugins.len()
            invariant
                i <= plugins@.len(),
                out@ == before + spec_plugins_md(plugins@.take(i as int)),
            decreases plugins@.len() - i,
        {
            proof {
                lemma_plugins_md_snoc(plugins@.take(i as int), plugins@[i as int]);
                assert(plugins@.take(i as int).push(plugins@[i as int]) =~= plugins@.take(i + 1));
            }
            out.append("- ");
            if plugins[i].activate {
                out.append("+");
            } else {
                out.append("-");
            }
            out.append(" ");
            out.append(plugins[i].name.as_str());
            out.append(" (from marketplace: ");
            out.append(plugins[i].marketplace.as_str());
            out.append(")\n");
            i = i + 1;
        }
        proof {
            assert(plugins@.take(plugins@.len() as int) =~= plugins@);
        }
    }
    out
}

/// Render the marketplace section of the guidance document.
fn guidance_md_marketplaces(ms: &Vec<(String, v0_1::MarketplaceConfig)>) -> (r: String)
    ensures
        r@ == (if ms@.len() > 0 {
            "\n## Marketplaces\n"@ + spec_marketplaces_md(ms@)
        } else {
            Seq::<char>::empty()
        }),
{
    let mut out = String::new();
    if ms.len() > 0 {
        out.append("\n## Marketplaces\n");
        let ghost before = out@;
        let mut i: usize = 0;
        proof {
            assert(ms@.take(0) =~= Seq::<(String, v0_1::MarketplaceConfig)>::empty());
        }
        while i < ms.len()
            invariant
                i <= ms@.len(),
                out@ == before + spec_marketplaces_md(ms@.take(i as int)),
            decreases ms@.len() - i,
        {
            proof {
                lemma_marketplaces_md_snoc(ms@.take(i as int), ms@[i as int]);
                assert(ms@.take(i as int).push(ms@[i as int]) =~= ms@.take(i + 1));
            }
            out.append("- ");
            out.append(ms[i].0.as_str());
            out.append(": ");
            out.append(ms[i].1.url.as_str());
            out.append("\n");
            i = i + 1;
        }
        proof {
            assert(ms@.take(ms@.len() as int) =~= ms@);
        }
    }
    out
}

/// Render the proxy section of the guidance document.
fn guidance_md_proxy(p: &Option<v0_1::ProxyConfig>) -> (r: String)
    ensures
        r@ == spec_proxy_md(*p),
{
    let mut out = String::new();
    match p {
        Some(p) => {
            out.append(
                "\n## Proxy Configuration\n\nThis project is configured to work with a corporate proxy.\n",
            );
            match &p.http {
                Some(h) => {
                    out.append("- HTTP Proxy: ");
                    out.append(h.as_str());
                    out.append("\n");
                },
                None => {},
            }
            match &p.https {
                Some(h) => {
                    out.append("- HTTPS Proxy: ");
                    out.append(h.as_str());
                    out.append("\n");
                },
                None => {},
            }
            match &p.no_proxy {
                Some(n) => {
                    out.append("- No Proxy: ");
                    out.append(n.as_str());
                    out.append("\n");
                },
                None => {},
            }
        },
        None => {},
    }
    out
}

/// Render the assistant guidance document: project overview, configuration,
/// runtime, plugin, marketplace and proxy sections as configured, then the
/// fixed workflow notes.
#[verifier::rlimit(100)]
#[verifier::spinoff_prover]
pub fn generate_assistant_md(config: &Config) -> (r: Result<String, Error>)
    ensures
        r matches Ok(s) && s@ == spec_guidance_md(config.spec_v0_1()),
{
    let c = match &config.inner {
        ConfigInner::V0_1(c) => c,
    };
    let mut out = "# Assistant Configuration for ".to_owned();
    out.append(c.name.as_str());
    out.append(
        "\n\nThis file provides guidance to the assistant when working with code in this repository.\n\n## Project Overview\n\n**",
    );
    out.append(c.name.as_str());
    out.append("** - Version ");
    out.append(c.version.as_str());
    out.append(
        "\n\nThis is an Isolde-managed isolated development environment.\n\n## Configuration\n\n- **Docker Image**: ",
    );
    out.append(c.docker.image.as_str());
    out.append("\n- **Assistant Provider**: ");
    out.append(c.assistant.provider.as_str());
    out.append("\n- **Workspace Directory**: ");
    out.append(c.workspace.dir.as_str());
    out.append("\n");
    let runtime_md = guidance_md_runtime(&c.runtime);
    out.append(runtime_md.as_str());
    let plugins_md = guidance_md_plugins(&c.plugins);
    out.append(plugins_md.as_str());
    let marketplaces_md = guidance_md_marketplaces(&c.marketplaces);
    out.append(marketplaces_md.as_str());
    let proxy_md = guidance_md_proxy(&c.proxy);
    out.append(proxy_md.as_str());
    out.append(GUIDANCE_MD_TAIL);
    Ok(out)
}

/// The ignore-file content once the generated-file entries are ensured: each
/// entry missing from the content is appended on its own line.
pub open spec fn spec_with_entry(content: Seq<char>, entry: Seq<char>) -> Seq<char> {
    if spec_contains_sub(content, entry) {
        content
    } else {
        content + entry + "\n"@
    }
}

/// Decide the version-control metadata updates for the configured policy.
///
/// For the `Ignored` policy the ignore file gains the generated-directory
/// entries it is missing; for `LinguistGenerated` the attributes file gains
/// the marker entries it is missing; for `Committed` nothing changes. The
/// first result is the new ignore-file content to write, the second the new
/// attributes-file content; absent means the file stays untouched.
pub fn git_policy_file_updates(
    policy: GitGeneratedHandling,
    gitignore: &str,
    gitattributes: &str,
) -> (r: (Option<String>, Option<String>))
    ensures
        policy == GitGeneratedHandling::Ignored ==> (r.0 matches Some(s) && s@ == spec_with_entry(
            spec_with_entry(gitignore@, ".devcontainer/"@),
            ".assistant/"@,
        ) && r.1 is None),
        policy == GitGeneratedHandling::Committed ==> r.0 is None && r.1 is None,
        policy == GitGeneratedHandling::LinguistGenerated ==> (r.1 matches Some(s) && s@
            == spec_with_entry(
            spec_with_entry(gitattributes@, ".devcontainer/ linguist-generated"@),
            ".assistant/ linguist-generated"@,
        ) && r.0 is None),
{
    match policy {
        GitGeneratedHandling::Ignored => {
            let mut content = gitignore.to_owned();
            if !contains_sub(gitignore, ".devcontainer/") {
                content.append(".devcontainer/");
                content.append("\n");
            }
            let snapshot = content.clone();
            if !contains_sub(snapshot.as_str(), ".assistant/") {
                content.append(".assistant/");
                content.append("\n");
            }
            (Some(content), None)
        },
        GitGeneratedHandling::Committed => (None, None),
        GitGeneratedHandling::LinguistGenerated => {
            let mut content = gitattributes.to_owned();
            if !contains_sub(gitattributes, ".devcontainer/ linguist-generated") {
                content.append(".devcontainer/ linguist-generated");
                content.append("\n");
            }
            let snapshot = content.clone();
            if !contains_sub(snapshot.as_str(), ".assistant/ linguist-generated") {
                content.append(".assistant/ linguist-generated");
                content.append("\n");
            }
            (None, Some(content))
        },
    }
}

} // verus!
