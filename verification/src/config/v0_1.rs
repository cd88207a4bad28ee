//! Configuration schema revision 0.1.
//!
//! [`RawConfig`] is the structurally-typed image of a revision-0.1 document
//! before field defaults are applied; [`RawConfig::resolve`] turns it into a
//! fully resolved [`Config`], and [`Config::validate`] checks the cross-field
//! invariants: non-empty required fields, a whitelisted provider, and no
//! plugin referencing an unknown marketplace.

use vstd::prelude::*;
use vstd::string::*;

use crate::error::Error;
use crate::text::str_eq;

verus! {

/// Workspace settings of a project.
#[derive(Debug, Clone)]
pub struct WorkspaceConfig {
    /// Directory of the user's code, relative to the project root.
    pub dir: String,
}

/// Container image settings.
#[derive(Debug, Clone)]
pub struct DockerConfig {
    /// Base container image reference.
    pub image: String,
    /// Extra `KEY=VALUE` build arguments, in document order.
    pub build_args: Vec<String>,
}

/// Assistant integration settings.
#[derive(Debug, Clone)]
pub struct AssistantConfig {
    /// Assistant CLI version to install.
    pub version: String,
    /// API provider; must be one of the whitelisted names.
    pub provider: String,
    /// Model-name mapping, in document order.
    pub models: Vec<(String, String)>,
}

/// Language runtime settings.
#[derive(Debug, Clone)]
pub struct RuntimeConfig {
    /// Programming language name.
    pub language: String,
    /// Language version.
    pub version: String,
    /// Package manager name.
    pub package_manager: String,
    /// Additional tools to install.
    pub tools: Vec<String>,
}

/// Proxy settings for restricted networks.
#[derive(Debug, Clone)]
pub struct ProxyConfig {
    /// HTTP proxy URL.
    pub http: Option<String>,
    /// HTTPS proxy URL.
    pub https: Option<String>,
    /// Hosts excluded from proxying, as one comma-separated string.
    pub no_proxy: Option<String>,
}

/// One marketplace entry: where plugins of that marketplace come from.
#[derive(Debug, Clone)]
pub struct MarketplaceConfig {
    /// Marketplace URL.
    pub url: String,
}

/// One plugin entry, referencing its marketplace by name.
#[derive(Debug, Clone)]
pub struct PluginConfig {
    /// Name of the marketplace the plugin comes from; must be a key of the
    /// document's marketplace mapping.
    pub marketplace: String,
    /// Plugin name.
    pub name: String,
    /// Whether the plugin is activated.
    pub activate: bool,
}

/// How generated files are recorded in the user's version-control metadata.
#[derive(Debug, Clone, Copy, PartialEq, Eq, Structural)]
pub enum GitGeneratedHandling {
    /// Generated files are listed in the ignore file.
    Ignored,
    /// Generated files are committed as ordinary files.
    Committed,
    /// Generated files are marked `linguist-generated` in the attributes file.
    LinguistGenerated,
}

/// Version-control policy settings.
#[derive(Debug, Clone, Copy)]
pub struct GitConfig {
    /// Policy for generated files.
    pub generated: GitGeneratedHandling,
}

/// A fully resolved revision-0.1 configuration: every defaultable field holds
/// its explicit or default value.
#[derive(Debug, Clone)]
pub struct Config {
    /// Schema version string as written in the document.
    pub version: String,
    /// Project name.
    pub name: String,
    /// Workspace settings.
    pub workspace: WorkspaceConfig,
    /// Container image settings.
    pub docker: DockerConfig,
    /// Assistant settings.
    pub assistant: AssistantConfig,
    /// Language runtime settings, when given.
    pub runtime: Option<RuntimeConfig>,
    /// Proxy settings, when given.
    pub proxy: Option<ProxyConfig>,
    /// Marketplace mapping, in document order.
    pub marketplaces: Vec<(String, MarketplaceConfig)>,
    /// Plugin entries, in document order.
    pub plugins: Vec<PluginConfig>,
    /// Version-control policy.
    pub git: GitConfig,
}

/// The structurally-typed image of a document before defaults: required
/// fields are present, defaultable fields remember whether they were given.
#[derive(Debug, Clone)]
pub struct RawConfig {
    /// Schema version string.
    pub version: String,
    /// Project name.
    pub name: String,
    /// Workspace directory, when the document gives one.
    pub workspace_dir: Option<String>,
    /// Base container image reference.
    pub docker_image: String,
    /// Extra build arguments (an absent list reads as empty).
    pub docker_build_args: Vec<String>,
    /// Assistant section, when given.
    pub assistant: Option<RawAssistant>,
    /// Runtime section, when given.
    pub runtime: Option<RuntimeConfig>,
    /// Proxy section, when given.
    pub proxy: Option<ProxyConfig>,
    /// Marketplace mapping (an absent mapping reads as empty).
    pub marketplaces: Vec<(String, MarketplaceConfig)>,
    /// Plugin entries (an absent list reads as empty).
    pub plugins: Vec<RawPlugin>,
    /// Version-control policy for generated files, when given.
    pub git_generated: Option<GitGeneratedHandling>,
}

/// The assistant section before defaults.
#[derive(Debug, Clone)]
pub struct RawAssistant {
    /// Assistant CLI version, when given.
    pub version: Option<String>,
    /// Provider name, when given.
    pub provider: Option<String>,
    /// Model-name mapping (an absent mapping reads as empty).
    pub models: Vec<(String, String)>,
}

/// One plugin entry before defaults.
#[derive(Debug, Clone)]
pub struct RawPlugin {
    /// Marketplace name reference.
    pub marketplace: String,
    /// Plugin name.
    pub name: String,
    /// Activation flag, when given.
    pub activate: Option<bool>,
}

/// Default workspace directory.
pub fn default_workspace_dir() -> (r: String)
    ensures
        r@ == "./project"@,
{
    "./project".to_owned()
}

/// Default workspace settings.
pub fn default_workspace_config() -> (r: WorkspaceConfig)
    ensures
        r.dir@ == "./project"@,
{
    WorkspaceConfig { dir: default_workspace_dir() }
}

/// Default assistant CLI version.
pub fn default_assistant_version() -> (r: String)
    ensures
        r@ == "latest"@,
{
    "latest".to_owned()
}

/// Default assistant provider.
pub fn default_assistant_provider() -> (r: String)
    ensures
        r@ == "anthropic"@,
{
    "anthropic".to_owned()
}

/// Default assistant settings.
pub fn default_assistant_config() -> (r: AssistantConfig)
    ensures
        r.version@ == "latest"@,
        r.provider@ == "anthropic"@,
        r.models@ == Seq::<(String, String)>::empty(),
{
    AssistantConfig {
        version: default_assistant_version(),
        provider: default_assistant_provider(),
        models: Vec::new(),
    }
}

/// Default plugin activation flag.
pub fn default_plugin_activate() -> (r: bool)
    ensures
        r == true,
{
    true
}

/// Default policy for generated files.
pub fn default_git_generated() -> (r: GitGeneratedHandling)
    ensures
        r == GitGeneratedHandling::Ignored,
{
    GitGeneratedHandling::Ignored
}

impl Default for WorkspaceConfig {
    /// The default workspace points at `./project`.
    fn default() -> (r: Self)
        ensures
            r.dir@ == "./project"@,
    {
        default_workspace_config()
    }
}

impl Default for GitGeneratedHandling {
    /// Generated files are ignored by default.
    fn default() -> (r: Self)
        ensures
            r == GitGeneratedHandling::Ignored,
    {
        GitGeneratedHandling::Ignored
    }
}

impl Default for GitConfig {
    /// The default policy ignores generated files.
    fn default() -> (r: Self)
        ensures
            r.generated == GitGeneratedHandling::Ignored,
    {
        GitConfig { generated: default_git_generated() }
    }
}

/// The provider whitelist: exactly these provider names are accepted.
pub open spec fn spec_valid_provider(p: Seq<char>) -> bool {
    ||| p == "anthropic"@
    ||| p == "openai"@
    ||| p == "bedrock"@
    ||| p == "vertex"@
    ||| p == "azure"@
}

/// Whether `name` is a key of the marketplace mapping `ms`.
pub open spec fn spec_has_marketplace(ms: Seq<(String, MarketplaceConfig)>, name: Seq<char>) -> bool {
    exists|j: int| 0 <= j < ms.len() && (#[trigger] ms[j]).0@ == name
}

/// Message rejecting an unknown schema version string inside a document.
pub open spec fn spec_invalid_version_msg(v: Seq<char>) -> Seq<char> {
    "Invalid schema version '"@ + v + "'. Expected '0.1'"@
}

/// Message rejecting a provider outside the whitelist.
pub open spec fn spec_invalid_provider_msg(p: Seq<char>) -> Seq<char> {
    "Invalid assistant provider '"@ + p
        + "'. Must be one of: anthropic, openai, bedrock, vertex, azure"@
}

/// Message rejecting a plugin whose marketplace reference dangles.
pub open spec fn spec_dangling_plugin_msg(plugin: Seq<char>, marketplace: Seq<char>) -> Seq<char> {
    "Plugin '"@ + plugin + "' references unknown marketplace '"@ + marketplace + "'"@
}

/// Whether `c` is the resolution of `raw`: explicit values kept, absent ones
/// replaced by their documented defaults.
pub open spec fn spec_resolved(raw: RawConfig, c: Config) -> bool {
    &&& c.version == raw.version
    &&& c.name == raw.name
    &&& (match raw.workspace_dir {
        Some(d) => c.workspace.dir == d,
        None => c.workspace.dir@ == "./project"@,
    })
    &&& c.docker.image == raw.docker_image
    &&& c.docker.build_args == raw.docker_build_args
    &&& (match raw.assistant {
        Some(cl) => {
            &&& (match cl.version {
                Some(v) => c.assistant.version == v,
                None => c.assistant.version@ == "latest"@,
            })
            &&& (match cl.provider {
                Some(p) => c.assistant.provider == p,
                None => c.assistant.provider@ == "anthropic"@,
            })
            &&& c.assistant.models == cl.models
        },
        None => {
            &&& c.assistant.version@ == "latest"@
            &&& c.assistant.provider@ == "anthropic"@
            &&& c.assistant.models@ == Seq::<(String, String)>::empty()
        },
    })
    &&& c.runtime == raw.runtime
    &&& c.proxy == raw.proxy
    &&& c.marketplaces == raw.marketplaces
    &&& c.plugins@.len() == raw.plugins@.len()
    &&& (forall|i: int|
        0 <= i < raw.plugins@.len() ==> {
            let rp = raw.plugins@[i];
            let p = #[trigger] c.plugins@[i];
            &&& p.marketplace == rp.marketplace
            &&& p.name == rp.name
            &&& p.activate == (match rp.activate {
                Some(b) => b,
                None => true,
            })
        })
    &&& c.git.generated == (match raw.git_generated {
        Some(g) => g,
        None => GitGeneratedHandling::Ignored,
    })
}

impl RawConfig {
    /// Apply field defaults, producing the fully resolved configuration.
    ///
    /// Every explicit value is kept; the workspace directory defaults to
    /// `./project`, the assistant version to `latest`, the provider to
    /// `anthropic`, plugin activation to `true`, and the policy for generated
    /// files to `Ignored`.
    pub fn resolve(self) -> (c: Config)
        ensures
            spec_resolved(self, c),
    {
        let RawConfig {
            version,
            name,
            workspace_dir,
            docker_image,
            docker_build_args,
            assistant,
            runtime,
            proxy,
            marketplaces,
            plugins,
            git_generated,
        } = self;
        let dir = match workspace_dir {
            Some(d) => d,
            None => default_workspace_dir(),
        };
        let assistant_resolved = match assistant {
            Some(rc) => {
                let RawAssistant { version: cv, provider: cp, models } = rc;
                AssistantConfig {
                    version: match cv {
                        Some(v) => v,
                        None => default_assistant_version(),
                    },
                    provider: match cp {
                        Some(p) => p,
                        None => default_assistant_provider(),
                    },
                    models,
                }
            },
            None => default_assistant_config(),
        };
        let ghost raw_plugins = plugins@;
        let mut resolved_plugins: Vec<PluginConfig> = Vec::new();
        let mut i: usize = 0;
        while i < plugins.len()
            invariant
                i <= raw_plugins.len(),
                plugins@ == raw_plugins,
                resolved_plugins@.len() == i,
                forall|k: int|
                    0 <= k < i ==> {
                        let rp = raw_plugins[k];
                        let p = #[trigger] resolved_plugins@[k];
                        &&& p.marketplace == rp.marketplace
                        &&& p.name == rp.name
                        &&& p.activate == (match rp.activate {
                            Some(b) => b,
                            None => true,
                        })
                    },
            decreases raw_plugins.len() - i,
        {
            let rp = &plugins[i];
            let activate = match rp.activate {
                Some(b) => b,
                None => true,
            };
            resolved_plugins.push(
                PluginConfig {
                    marketplace: rp.marketplace.clone(),
                    name: rp.name.clone(),
                    activate,
                },
            );
            i = i + 1;
        }
        let generated = match git_generated {
            Some(g) => g,
            None => default_git_generated(),
        };
        Config {
            version,
            name,
            workspace: WorkspaceConfig { dir },
            docker: DockerConfig { image: docker_image, build_args: docker_build_args },
            assistant: assistant_resolved,
            runtime,
            proxy,
            marketplaces,
            plugins: resolved_plugins,
            git: GitConfig { generated },
        }
    }
}

/// Parse the document form of the generated-files policy: exactly the
/// lowercase variant names are accepted.
pub fn parse_git_generated(s: &str) -> (r: Option<GitGeneratedHandling>)
    ensures
        (r is Some) <==> (s@ == "ignored"@ || s@ == "committed"@ || s@ == "linguistgenerated"@),
        s@ == "ignored"@ ==> r == Some(GitGeneratedHandling::Ignored),
        s@ == "committed"@ ==> r == Some(GitGeneratedHandling::Committed),
        s@ == "linguistgenerated"@ ==> r == Some(GitGeneratedHandling::LinguistGenerated),
{
    proof {
        reveal_strlit("ignored");
        reveal_strlit("committed");
        reveal_strlit("linguistgenerated");
        assert("ignored"@.len() == 7);
        assert("committed"@.len() == 9);
        assert("linguistgenerated"@.len() == 17);
    }
    if str_eq(s, "ignored") {
        Some(GitGeneratedHandling::Ignored)
    } else if str_eq(s, "committed") {
        Some(GitGeneratedHandling::Committed)
    } else if str_eq(s, "linguistgenerated") {
        Some(GitGeneratedHandling::LinguistGenerated)
    } else {
        None
    }
}

impl AssistantConfig {
    /// Check that the provider is on the whitelist.
    ///
    /// Succeeds exactly when the provider is one of `anthropic`, `openai`,
    /// `bedrock`, `vertex`, `azure`; otherwise the error names the offending
    /// value and the whitelist.
    pub fn validate(&self) -> (r: Result<(), Error>)
        ensures
            (r is Ok) <==> spec_valid_provider(self.provider@),
            r matches Err(e) ==> e matches Error::InvalidTemplate(m)
                && m@ == spec_invalid_provider_msg(self.provider@),
    {
        let p = self.provider.as_str();
        if str_eq(p, "anthropic") || str_eq(p, "openai") || str_eq(p, "bedrock")
            || str_eq(p, "vertex") || str_eq(p, "azure") {
            Ok(())
        } else {
            let mut m = "Invalid assistant provider '".to_owned();
            m.append(p);
            m.append("'. Must be one of: anthropic, openai, bedrock, vertex, azure");
            Err(Error::InvalidTemplate(m))
        }
    }
}

/// Whether the marketplace mapping `ms` holds `name` as a key.
pub fn marketplaces_contain(ms: &Vec<(String, MarketplaceConfig)>, name: &str) -> (r: bool)
    ensures
        r == spec_has_marketplace(ms@, name@),
{
    let mut j: usize = 0;
    while j < ms.len()
        invariant
            j <= ms@.len(),
            forall|k: int| 0 <= k < j ==> (#[trigger] ms@[k]).0@ != name@,
        decreases ms@.len() - j,
    {
        if str_eq(ms[j].0.as_str(), name) {
            return true;
        }
        j = j + 1;
    }
    false
}

impl Config {
    /// Whether the version string matches this schema revision.
    pub open spec fn spec_version_ok(&self) -> bool {
        self.version@ == "0.1"@
    }

    /// Whether every plugin references a marketplace that exists.
    pub open spec fn spec_plugins_ok(&self) -> bool {
        forall|i: int|
            0 <= i < self.plugins@.len() ==> spec_has_marketplace(
                self.marketplaces@,
                (#[trigger] self.plugins@[i]).marketplace@,
            )
    }

    /// All invariants of a loadable configuration.
    pub open spec fn spec_valid(&self) -> bool {
        &&& self.spec_version_ok()
        &&& self.name@.len() > 0
        &&& self.workspace.dir@.len() > 0
        &&& self.docker.image@.len() > 0
        &&& spec_valid_provider(self.assistant.provider@)
        &&& self.spec_plugins_ok()
    }

    /// Check every invariant of the configuration.
    ///
    /// Succeeds exactly when all invariants hold. On failure the error is a
    /// validation error whose message names the violated invariant, the
    /// checks running in a fixed order: schema version, project name,
    /// workspace directory, container image, provider whitelist, plugin
    /// references.
    pub fn validate(&self) -> (r: Result<(), Error>)
        ensures
            (r is Ok) <==> self.spec_valid(),
            r matches Err(e) ==> e matches Error::InvalidTemplate(_),
            !self.spec_version_ok() ==> (r matches Err(e) && e matches Error::InvalidTemplate(m)
                && m@ == spec_invalid_version_msg(self.version@)),
            self.spec_version_ok() && self.name@.len() == 0 ==> (r matches Err(e)
                && e matches Error::InvalidTemplate(m) && m@ == "Project name cannot be empty"@),
            self.spec_version_ok() && self.name@.len() > 0 && self.workspace.dir@.len() == 0 ==> (
            r matches Err(e) && e matches Error::InvalidTemplate(m) && m@
                == "Workspace directory cannot be empty"@),
            self.spec_version_ok() && self.name@.len() > 0 && self.workspace.dir@.len() > 0
                && self.docker.image@.len() == 0 ==> (r matches Err(e)
                && e matches Error::InvalidTemplate(m) && m@ == "Docker image cannot be empty"@),
            self.spec_version_ok() && self.name@.len() > 0 && self.workspace.dir@.len() > 0
                && self.docker.image@.len() > 0 && !spec_valid_provider(self.assistant.provider@)
                ==> (r matches Err(e) && e matches Error::InvalidTemplate(m) && m@
                == spec_invalid_provider_msg(self.assistant.provider@)),
            self.spec_version_ok() && self.name@.len() > 0 && self.workspace.dir@.len() > 0
                && self.docker.image@.len() > 0 && spec_valid_provider(self.assistant.provider@)
                && !self.spec_plugins_ok() ==> (r matches Err(e)
                && e matches Error::InvalidTemplate(m) && exists|i: int|
                0 <= i < self.plugins@.len() && !spec_has_marketplace(
                    self.marketplaces@,
                    (#[trigger] self.plugins@[i]).marketplace@,
                ) && m@ == spec_dangling_plugin_msg(
                    self.plugins@[i].name@,
                    self.plugins@[i].marketplace@,
                )),
    {
        if !str_eq(self.version.as_str(), "0.1") {
            let mut m = "Invalid schema version '".to_owned();
            m.append(self.version.as_str());
            m.append("'. Expected '0.1'");
            return Err(Error::InvalidTemplate(m));
        }
        if self.name.as_str().is_empty() {
            return Err(Error::InvalidTemplate("Project name cannot be empty".to_owned()));
        }
        if self.workspace.dir.as_str().is_empty() {
            return Err(Error::InvalidTemplate("Workspace directory cannot be empty".to_owned()));
        }
        if self.docker.image.as_str().is_empty() {
            return Err(Error::InvalidTemplate("Docker image cannot be empty".to_owned()));
        }
        match self.assistant.validate() {
            Ok(()) => {},
            Err(e) => {
                return Err(e);
            },
        }
        let mut i: usize = 0;
        while i < self.plugins.len()
            invariant
                i <= self.plugins@.len(),
                self.spec_version_ok(),
                self.name@.len() > 0,
                self.workspace.dir@.len() > 0,
                self.docker.image@.len() > 0,
                spec_valid_provider(self.assistant.provider@),
                forall|k: int|
                    0 <= k < i ==> spec_has_marketplace(
                        self.marketplaces@,
                        (#[trigger] self.plugins@[k]).marketplace@,
                    ),
            decreases self.plugins@.len() - i,
        {
            if !marketplaces_contain(&self.marketplaces, self.plugins[i].marketplace.as_str()) {
                let mut m = "Plugin '".to_owned();
                m.append(self.plugins[i].name.as_str());
                m.append("' references unknown marketplace '");
                m.append(self.plugins[i].marketplace.as_str());
                m.append("'");
                return Err(Error::InvalidTemplate(m));
            }
            i = i + 1;
        }
        Ok(())
    }
}

/// View-level equivalence of optional strings.
pub open spec fn spec_eqv_opt_string(a: Option<String>, b: Option<String>) -> bool {
    match (a, b) {
        (Option::None, Option::None) => true,
        (Option::Some(x), Option::Some(y)) => x@ == y@,
        _ => false,
    }
}

/// View-level equivalence of optional runtime sections.
pub open spec fn spec_eqv_runtime(a: Option<RuntimeConfig>, b: Option<RuntimeConfig>) -> bool {
    match (a, b) {
        (Option::None, Option::None) => true,
        (Option::Some(x), Option::Some(y)) => {
            &&& x.language@ == y.language@
            &&& x.version@ == y.version@
            &&& x.package_manager@ == y.package_manager@
            &&& x.tools@ == y.tools@
        },
        _ => false,
    }
}

/// View-level equivalence of optional proxy sections.
pub open spec fn spec_eqv_proxy(a: Option<ProxyConfig>, b: Option<ProxyConfig>) -> bool {
    match (a, b) {
        (Option::None, Option::None) => true,
        (Option::Some(x), Option::Some(y)) => {
            &&& spec_eqv_opt_string(x.http, y.http)
            &&& spec_eqv_opt_string(x.https, y.https)
            &&& spec_eqv_opt_string(x.no_proxy, y.no_proxy)
        },
        _ => false,
    }
}

/// View-level equivalence of marketplace mappings.
pub open spec fn spec_eqv_marketplaces(
    a: Seq<(String, MarketplaceConfig)>,
    b: Seq<(String, MarketplaceConfig)>,
) -> bool {
    &&& a.len() == b.len()
    &&& (forall|i: int|
        0 <= i < a.len() ==> (#[trigger] a[i]).0@ == b[i].0@ && a[i].1.url@ == b[i].1.url@)
}

/// Whether `raw` is the explicit serialization image of `c`: the same values,
/// with every defaultable field written out.
pub open spec fn spec_explicit_image(c: Config, raw: RawConfig) -> bool {
    &&& raw.version@ == c.version@
    &&& raw.name@ == c.name@
    &&& (raw.workspace_dir matches Some(d) && d@ == c.workspace.dir@)
    &&& raw.docker_image@ == c.docker.image@
    &&& raw.docker_build_args@ == c.docker.build_args@
    &&& (raw.assistant matches Some(cl) && {
        &&& (cl.version matches Some(v) && v@ == c.assistant.version@)
        &&& (cl.provider matches Some(p) && p@ == c.assistant.provider@)
        &&& cl.models@ == c.assistant.models@
    })
    &&& spec_eqv_runtime(raw.runtime, c.runtime)
    &&& spec_eqv_proxy(raw.proxy, c.proxy)
    &&& spec_eqv_marketplaces(raw.marketplaces@, c.marketplaces@)
    &&& raw.plugins@.len() == c.plugins@.len()
    &&& (forall|i: int|
        0 <= i < c.plugins@.len() ==> {
            let p = c.plugins@[i];
            let rp = #[trigger] raw.plugins@[i];
            &&& rp.marketplace@ == p.marketplace@
            &&& rp.name@ == p.name@
            &&& rp.activate == Some(p.activate)
        })
    &&& raw.git_generated == Some(c.git.generated)
}

impl RuntimeConfig {
    /// Copy the runtime section field for field.
    pub fn duplicate(&self) -> (r: RuntimeConfig)
        ensures
            r.language@ == self.language@,
            r.version@ == self.version@,
            r.package_manager@ == self.package_manager@,
            r.tools@ == self.tools@,
    {
        RuntimeConfig {
            language: self.language.clone(),
            version: self.version.clone(),
            package_manager: self.package_manager.clone(),
            tools: crate::text::clone_string_vec(&self.tools),
        }
    }
}

impl ProxyConfig {
    /// Copy the proxy section field for field.
    pub fn duplicate(&self) -> (r: ProxyConfig)
        ensures
            spec_eqv_opt_string(r.http, self.http),
            spec_eqv_opt_string(r.https, self.https),
            spec_eqv_opt_string(r.no_proxy, self.no_proxy),
    {
        ProxyConfig {
            http: crate::text::clone_opt_string(&self.http),
            https: crate::text::clone_opt_string(&self.https),
            no_proxy: crate::text::clone_opt_string(&self.no_proxy),
        }
    }
}

/// Copy a marketplace mapping entry for entry.
pub fn clone_marketplaces(v: &Vec<(String, MarketplaceConfig)>) -> (r: Vec<
    (String, MarketplaceConfig),
>)
    ensures
        spec_eqv_marketplaces(r@, v@),
{
    let mut r: Vec<(String, MarketplaceConfig)> = Vec::new();
    let mut i: usize = 0;
    while i < v.len()
        invariant
            i <= v@.len(),
            r@.len() == i,
            forall|k: int|
                0 <= k < i ==> (#[trigger] r@[k]).0@ == v@[k].0@ && r@[k].1.url@ == v@[k].1.url@,
        decreases v@.len() - i,
    {
        r.push((v[i].0.clone(), MarketplaceConfig { url: v[i].1.url.clone() }));
        i = i + 1;
    }
    r
}

impl Config {
    /// The explicit serialization image of this configuration: the same
    /// values with every defaultable field written out, so that resolving the
    /// image reproduces the configuration (see [`lemma_round_trip`]).
    pub fn to_raw(&self) -> (r: RawConfig)
        ensures
            spec_explicit_image(*self, r),
    {
        let runtime = match &self.runtime {
            Some(rt) => Some(rt.duplicate()),
            None => None,
        };
        let proxy = match &self.proxy {
            Some(p) => Some(p.duplicate()),
            None => None,
        };
        let mut plugins: Vec<RawPlugin> = Vec::new();
        let mut i: usize = 0;
        while i < self.plugins.len()
            invariant
                i <= self.plugins@.len(),
                plugins@.len() == i,
                forall|k: int|
                    0 <= k < i ==> {
                        let p = self.plugins@[k];
                        let rp = #[trigger] plugins@[k];
                        &&& rp.marketplace@ == p.marketplace@
                        &&& rp.name@ == p.name@
                        &&& rp.activate == Some(p.activate)
                    },
            decreases self.plugins@.len() - i,
        {
            plugins.push(
                RawPlugin {
                    marketplace: self.plugins[i].marketplace.clone(),
                    name: self.plugins[i].name.clone(),
                    activate: Some(self.plugins[i].activate),
                },
            );
            i = i + 1;
        }
        RawConfig {
            version: self.version.clone(),
            name: self.name.clone(),
            workspace_dir: Some(self.workspace.dir.clone()),
            docker_image: self.docker.image.clone(),
            docker_build_args: crate::text::clone_string_vec(&self.docker.build_args),
            assistant: Some(
                RawAssistant {
                    version: Some(self.assistant.version.clone()),
                    provider: Some(self.assistant.provider.clone()),
                    models: crate::text::clone_string_pairs(&self.assistant.models),
                },
            ),
            runtime,
            proxy,
            marketplaces: clone_marketplaces(&self.marketplaces),
            plugins,
            git_generated: Some(self.git.generated),
        }
    }
}

/// Round-trip law: resolving the explicit serialization image of a
/// configuration reproduces every resolved field value, and a valid
/// configuration stays valid. Writing a configuration out field for field and
/// reading it back therefore loses nothing.
pub proof fn lemma_round_trip(c: Config, raw: RawConfig, c2: Config)
    requires
        spec_explicit_image(c, raw),
        spec_resolved(raw, c2),
    ensures
        c2.version@ == c.version@,
        c2.name@ == c.name@,
        c2.workspace.dir@ == c.workspace.dir@,
        c2.docker.image@ == c.docker.image@,
        c2.docker.build_args@ == c.docker.build_args@,
        c2.assistant.version@ == c.assistant.version@,
        c2.assistant.provider@ == c.assistant.provider@,
        c2.assistant.models@ == c.assistant.models@,
        spec_eqv_runtime(c2.runtime, c.runtime),
        spec_eqv_proxy(c2.proxy, c.proxy),
        spec_eqv_marketplaces(c2.marketplaces@, c.marketplaces@),
        c2.plugins@.len() == c.plugins@.len(),
        forall|i: int|
            0 <= i < c.plugins@.len() ==> {
                let p = c.plugins@[i];
                let q = #[trigger] c2.plugins@[i];
                &&& q.marketplace@ == p.marketplace@
                &&& q.name@ == p.name@
                &&& q.activate == p.activate
            },
        c2.git.generated == c.git.generated,
        c.spec_valid() ==> c2.spec_valid(),
{
    assert forall|i: int| 0 <= i < c.plugins@.len() implies {
        let p = c.plugins@[i];
        let q = #[trigger] c2.plugins@[i];
        &&& q.marketplace@ == p.marketplace@
        &&& q.name@ == p.name@
        &&& q.activate == p.activate
    } by {
        assert(raw.plugins@[i].marketplace@ == c.plugins@[i].marketplace@);
    }
    if c.spec_valid() {
        assert forall|i: int| 0 <= i < c2.plugins@.len() implies spec_has_marketplace(
            c2.marketplaces@,
            (#[trigger] c2.plugins@[i]).marketplace@,
        ) by {
            assert(spec_has_marketplace(c.marketplaces@, c.plugins@[i].marketplace@));
            let j = choose|j: int|
                0 <= j < c.marketplaces@.len() && (#[trigger] c.marketplaces@[j]).0@
                    == c.plugins@[i].marketplace@;
            assert((c2.marketplaces@[j]).0@ == c2.plugins@[i].marketplace@);
        }
    }
}

} // verus!
