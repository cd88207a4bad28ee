//! Artifact generator: maps a validated configuration to the full artifact
//! set (container descriptor, build file, assistant configuration, ignore
//! files, README), classifies artifacts for plan mode, and plans the
//! version-control initialization commands.
//!
//! Everything here is a pure function of the configuration and of plain
//! values that the caller gathered (which files exist, which feature
//! directories the installation offers); filesystem writes, directory copies
//! and process invocation belong to the caller.

use vstd::prelude::*;
use vstd::string::*;

use crate::config::{Config, ConfigInner};
use crate::config::v0_1;
use crate::error::Error;
use crate::json::{
    json_of_string_map,
    json_of_string_list,
    json_object_of,
    json_array_of,
    spec_pairs_view,
    spec_strings_view,
};
use crate::template::{spec_filter_names, filter_plugin_names};
use crate::text::{replace_str, spec_replaced, str_eq};

verus! {

/// Ability to run a version-control command in a directory. The library only
/// plans such commands ([`git_init_plan`]); implementations that invoke the
/// real tool, and stubs for tests, live with the caller.
pub trait GitRunner {
    /// Run one command with the given arguments inside `dir`, reporting
    /// failure as an error.
    fn run_git(&self, dir: &str, args: &Vec<String>) -> Result<(), Error>;
}

/// What a plan run would do: artifacts that do not yet exist against
/// artifacts that would be overwritten. Existence alone decides the bucket.
#[derive(Debug, Clone)]
pub struct DryRunReport {
    /// Artifact paths absent from the target, to be created.
    pub would_create: Vec<String>,
    /// Artifact paths already present, to be rewritten.
    pub would_modify: Vec<String>,
}

/// What an apply run did.
#[derive(Debug, Clone)]
pub struct GenerateReport {
    /// Paths written that did not exist before.
    pub files_created: Vec<String>,
    /// Paths rewritten.
    pub files_modified: Vec<String>,
}

/// One version-control command of an initialization plan.
#[derive(Debug, Clone)]
pub struct GitCommand {
    /// Directory to run in.
    pub dir: String,
    /// Arguments handed to the tool.
    pub args: Vec<String>,
}

/// The model of a command: its directory and argument texts.
pub open spec fn spec_cmd_view(c: GitCommand) -> (Seq<char>, Seq<Seq<char>>) {
    (c.dir@, spec_strings_view(c.args@))
}

/// Generator for the artifact set of one configuration.
pub struct Generator {
    /// The validated configuration.
    pub config: Config,
    /// Root of the installation that feature directories are copied from;
    /// located by the caller, empty until then.
    pub isolde_root: String,
}

/// The language-version placeholder key for a language name, when the
/// language is one of the four known ones.
pub open spec fn spec_lang_version_key(lang: Seq<char>) -> Option<Seq<char>> {
    if lang == "python"@ {
        Some("PYTHON_VERSION"@)
    } else if lang == "node"@ || lang == "nodejs"@ || lang == "javascript"@ {
        Some("NODE_VERSION"@)
    } else if lang == "rust"@ {
        Some("RUST_VERSION"@)
    } else if lang == "go"@ || lang == "golang"@ {
        Some("GO_VERSION"@)
    } else {
        None
    }
}

/// The HTTP proxy substitution text: the configured URL, or empty.
pub open spec fn spec_proxy_http_text(p: Option<v0_1::ProxyConfig>) -> Seq<char> {
    match p {
        Some(p) => crate::template::spec_opt_text(p.http),
        None => Seq::<char>::empty(),
    }
}

/// The HTTPS proxy substitution text: the configured URL, or empty.
pub open spec fn spec_proxy_https_text(p: Option<v0_1::ProxyConfig>) -> Seq<char> {
    match p {
        Some(p) => crate::template::spec_opt_text(p.https),
        None => Seq::<char>::empty(),
    }
}

/// The no-proxy substitution text: the configured hosts; the default
/// local-host list when a proxy is configured without one; empty, like the
/// other proxy fields, when no proxy is configured at all.
pub open spec fn spec_no_proxy_text(p: Option<v0_1::ProxyConfig>) -> Seq<char> {
    match p {
        Some(p) => match p.no_proxy {
            Some(n) => n@,
            None => "localhost,127.0.0.1.local"@,
        },
        None => Seq::<char>::empty(),
    }
}

/// Whether `m` is the substitution mapping derived from `c`: thirteen fixed
/// keys in a fixed order, plus the language-version key exactly when the
/// configured runtime language is a known one.
pub open spec fn spec_substitution_map_of(m: Seq<(String, String)>, c: v0_1::Config) -> bool {
    &&& m.len() >= 13
    &&& m[0].0@ == "PROJECT_NAME"@ && m[0].1@ == c.name@
    &&& m[1].0@ == "ASSISTANT_VERSION"@ && m[1].1@ == c.assistant.version@
    &&& m[2].0@ == "ASSISTANT_PROVIDER"@ && m[2].1@ == c.assistant.provider@
    &&& m[3].0@ == "ASSISTANT_MODELS"@ && m[3].1@ == json_object_of(spec_pairs_view(c.assistant.models@))
    &&& m[4].0@ == "PROXY_ENABLED"@ && m[4].1@ == (if c.proxy is Some {
        "true"@
    } else {
        "false"@
    })
    &&& m[5].0@ == "HTTP_PROXY"@ && m[5].1@ == spec_proxy_http_text(c.proxy)
    &&& m[6].0@ == "HTTPS_PROXY"@ && m[6].1@ == spec_proxy_https_text(c.proxy)
    &&& m[7].0@ == "NO_PROXY"@ && m[7].1@ == spec_no_proxy_text(c.proxy)
    &&& m[8].0@ == "FEATURES_ASSISTANT"@ && m[8].1@ == "./features/assistant"@
    &&& m[9].0@ == "FEATURES_PROXY"@ && m[9].1@ == "./features/proxy"@
    &&& m[10].0@ == "FEATURES_PLUGIN_MANAGER"@ && m[10].1@ == "./features/plugin-manager"@
    &&& m[11].0@ == "ASSISTANT_ACTIVATE_PLUGINS"@ && m[11].1@ == json_array_of(
        spec_strings_view(spec_filter_names(c.plugins@, true)),
    )
    &&& m[12].0@ == "ASSISTANT_DEACTIVATE_PLUGINS"@ && m[12].1@ == json_array_of(
        spec_strings_view(spec_filter_names(c.plugins@, false)),
    )
    &&& (match c.runtime {
        Some(rt) => (match spec_lang_version_key(rt.language@) {
            Some(k) => m.len() == 14 && m[13].0@ == k && m[13].1@ == rt.version@,
            None => m.len() == 13,
        }),
        None => m.len() == 13,
    })
}

/// The template text with the whole mapping applied, entry by entry in
/// order: each key `K` is applied as the token `{{K}}`.
pub open spec fn spec_apply_map(t: Seq<char>, m: Seq<(String, String)>) -> Seq<char>
    decreases m.len(),
{
    if m.len() == 0 {
        t
    } else {
        spec_apply_map(spec_replaced(t, "{{"@ + m[0].0@ + "}}"@, m[0].1@), m.drop_first())
    }
}

/// Apply a substitution mapping to template text, entry by entry in order.
pub fn apply_substitutions(template: &str, map: &Vec<(String, String)>) -> (r: String)
    ensures
        r@ == spec_apply_map(template@, map@),
{
    let mut cur: String = template.to_owned();
    let mut i: usize = 0;
    proof {
        assert(map@.skip(0) =~= map@);
    }
    while i < map.len()
        invariant
            i <= map@.len(),
            spec_apply_map(template@, map@) == spec_apply_map(cur@, map@.skip(i as int)),
        decreases map@.len() - i,
    {
        proof {
            assert(map@.skip(i as int)[0] == map@[i as int]);
            assert(map@.skip(i as int).drop_first() =~= map@.skip(i as int + 1));
        }
        let mut pat = "{{".to_owned();
        pat.append(map[i].0.as_str());
        pat.append("}}");
        cur = replace_str(cur.as_str(), pat.as_str(), map[i].1.as_str());
        i = i + 1;
    }
    proof {
        assert(map@.skip(map@.len() as int) =~= Seq::<(String, String)>::empty());
    }
    cur
}

/// The `ARG` lines for the configured extra build arguments, one per line.
pub open spec fn spec_args_text(args: Seq<String>) -> Seq<char>
    decreases args.len(),
{
    if args.len() == 0 {
        Seq::<char>::empty()
    } else {
        "ARG "@ + args[0]@ + "\n"@ + spec_args_text(args.drop_first())
    }
}

/// Appending one argument appends one `ARG` line.
proof fn lemma_args_text_snoc(args: Seq<String>, x: String)
    ensures
        spec_args_text(args.push(x)) == spec_args_text(args) + ("ARG "@ + x@ + "\n"@),
    decreases args.len(),
{
    if args.len() == 0 {
        assert(args.push(x)[0] == x);
        assert(args.push(x).drop_first() =~= args);
        assert(spec_args_text(args.push(x)) =~= spec_args_text(args) + ("ARG "@ + x@ + "\n"@));
    } else {
        assert(args.push(x).drop_first() =~= args.drop_first().push(x));
        lemma_args_text_snoc(args.drop_first(), x);
        assert(args.push(x)[0] == args[0]);
        assert(spec_args_text(args.push(x)) == "ARG "@ + args[0]@ + "\n"@ + spec_args_text(
            args.drop_first().push(x),
        ));
        assert(spec_args_text(args.push(x)) =~= spec_args_text(args) + ("ARG "@ + x@ + "\n"@));
    }
}

/// The language-version `ARG` block of the build file: one line and a blank
/// line for a known language, nothing otherwise.
pub open spec fn spec_lang_arg_text(rt: Option<v0_1::RuntimeConfig>) -> Seq<char> {
    match rt {
        Some(rt) => {
            if rt.language@ == "python"@ {
                "ARG PYTHON_VERSION="@ + rt.version@ + "\n\n"@
            } else if rt.language@ == "node"@ || rt.language@ == "nodejs"@ {
                "ARG NODE_VERSION="@ + rt.version@ + "\n\n"@
            } else if rt.language@ == "rust"@ {
                "ARG RUST_VERSION="@ + rt.version@ + "\n\n"@
            } else if rt.language@ == "go"@ || rt.language@ == "golang"@ {
                "ARG GO_VERSION="@ + rt.version@ + "\n\n"@
            } else {
                Seq::<char>::empty()
            }
        },
        None => Seq::<char>::empty(),
    }
}

/// The fixed tail of the build file: system dependencies, workspace
/// directory and non-root user creation.
pub open spec fn spec_dockerfile_tail() -> Seq<char> {
    "# Install system dependencies\nRUN apt-get update && apt-get install -y \\\n    curl \\\n    git \\\n    wget \\\n    vim \\\n    jq \\\n    build-essential \\\n    ca-certificates \\\n    gosu \\\n    && rm -rf /var/lib/apt/lists/*\n\nWORKDIR /workspaces\n\n# Pre-install sudo\nRUN apt-get update && apt-get install -y sudo && rm -rf /var/lib/apt/lists/*\n\n# Create user with sudo access\nRUN groupadd --gid ${USER_GID} ${USERNAME} \\\n    && useradd --uid ${USER_UID} --gid ${USERNAME} --shell /bin/bash --create-home ${USERNAME} \\\n    && echo \"${USERNAME} ALL=(ALL) NOPASSWD:ALL\" >> /etc/sudoers\n\n# Set ownership for workspace directory\nRUN chown -R ${USERNAME}:${USERNAME} /workspaces\n\nUSER ${USERNAME}\n"@
}

/// The whole build file for a configuration.
pub open spec fn spec_dockerfile(c: v0_1::Config) -> Seq<char> {
    "ARG BASE_IMAGE="@ + c.docker.image@ + "\nFROM ${BASE_IMAGE}\n\n"@
        + "ARG USERNAME=user\nARG USER_UID=1000\nARG USER_GID=1000\n"@ + spec_lang_arg_text(
        c.runtime,
    ) + spec_args_text(c.docker.build_args@) + (if c.docker.build_args@.len() > 0 {
        "\n"@
    } else {
        Seq::<char>::empty()
    }) + "ENV DEBIAN_FRONTEND=noninteractive\n\n"@ + spec_dockerfile_tail()
}

/// The assistant configuration file: the provider, and the model mapping
/// exactly when models are configured.
pub open spec fn spec_assistant_config(c: v0_1::Config) -> Seq<char> {
    "{\n  \"provider\": \""@ + crate::text::spec_json_escaped(c.assistant.provider@) + "\""@ + (
    if c.assistant.models@.len() > 0 {
        ",\n  \"models\": "@ + json_object_of(spec_pairs_view(c.assistant.models@))
    } else {
        Seq::<char>::empty()
    }) + "\n}"@
}

impl Generator {
    /// A generator over a validated configuration. The installation root
    /// starts empty; locating it on disk is the caller's concern.
    pub fn new(config: Config) -> (r: Result<Generator, Error>)
        ensures
            r matches Ok(g) && g.config == config && g.isolde_root@ == Seq::<char>::empty(),
    {
        Ok(Generator { config, isolde_root: String::new() })
    }

    /// The revision-0.1 representation of the held configuration.
    fn inner_v0_1(&self) -> (r: &v0_1::Config)
        ensures
            *r == self.config.spec_v0_1(),
    {
        match &self.config.inner {
            ConfigInner::V0_1(c) => c,
        }
    }

    /// Map a language name to its version placeholder key: `python`, the
    /// `node` family, `rust` and the `go` family have one; any other
    /// language has none.
    pub fn language_to_version_key(language: &str) -> (r: Option<String>)
        ensures
            (r is Some) <==> spec_lang_version_key(language@) is Some,
            r matches Some(k) ==> spec_lang_version_key(language@) == Some(k@),
    {
        if str_eq(language, "python") {
            Some("PYTHON_VERSION".to_owned())
        } else if str_eq(language, "node") || str_eq(language, "nodejs") || str_eq(
            language,
            "javascript",
        ) {
            Some("NODE_VERSION".to_owned())
        } else if str_eq(language, "rust") {
            Some("RUST_VERSION".to_owned())
        } else if str_eq(language, "go") || str_eq(language, "golang") {
            Some("GO_VERSION".to_owned())
        } else {
            None
        }
    }

    /// Build the substitution mapping for the artifact templates.
    ///
    /// Every key the templates reference is present even when the underlying
    /// section is absent (absent proxy fields map to empty text, the absent
    /// no-proxy list to the default local-host list); the language-version
    /// key is added exactly when the runtime language is a known one.
    pub fn build_substitution_map(&self) -> (m: Vec<(String, String)>)
        ensures
            spec_substitution_map_of(m@, self.config.spec_v0_1()),
    {
        let c = self.inner_v0_1();
        let mut m: Vec<(String, String)> = Vec::new();
        m.push(("PROJECT_NAME".to_owned(), c.name.clone()));
        m.push(("ASSISTANT_VERSION".to_owned(), c.assistant.version.clone()));
        m.push(("ASSISTANT_PROVIDER".to_owned(), c.assistant.provider.clone()));
        m.push(("ASSISTANT_MODELS".to_owned(), json_of_string_map(&c.assistant.models)));
        let proxy_enabled = if c.proxy.is_some() {
            "true".to_owned()
        } else {
            "false".to_owned()
        };
        m.push(("PROXY_ENABLED".to_owned(), proxy_enabled));
        let (http, https, no_proxy) = match &c.proxy {
            Some(p) => {
                let http = match &p.http {
                    Some(h) => h.clone(),
                    None => String::new(),
                };
                let https = match &p.https {
                    Some(h) => h.clone(),
                    None => String::new(),
                };
                let no_proxy = match &p.no_proxy {
                    Some(n) => n.clone(),
                    None => "localhost,127.0.0.1.local".to_owned(),
                };
                (http, https, no_proxy)
            },
            None => (String::new(), String::new(), String::new()),
        };
        m.push(("HTTP_PROXY".to_owned(), http));
        m.push(("HTTPS_PROXY".to_owned(), https));
        m.push(("NO_PROXY".to_owned(), no_proxy));
        m.push(("FEATURES_ASSISTANT".to_owned(), "./features/assistant".to_owned()));
        m.push(("FEATURES_PROXY".to_owned(), "./features/proxy".to_owned()));
        m.push(("FEATURES_PLUGIN_MANAGER".to_owned(), "./features/plugin-manager".to_owned()));
        let active = filter_plugin_names(&c.plugins, true);
        let inactive = filter_plugin_names(&c.plugins, false);
        m.push(("ASSISTANT_ACTIVATE_PLUGINS".to_owned(), json_of_string_list(&active)));
        m.push(("ASSISTANT_DEACTIVATE_PLUGINS".to_owned(), json_of_string_list(&inactive)));
        match &c.runtime {
            Some(rt) => {
                match Self::language_to_version_key(rt.language.as_str()) {
                    Some(key) => {
                        m.push((key, rt.version.clone()));
                    },
                    None => {},
                }
            },
            None => {},
        }
        m
    }

    /// The built-in container descriptor template, used when the
    /// installation provides no template file.
    pub fn get_embedded_devcontainer_template(&self) -> (r: &'static str) {
        EMBEDDED_DEVCONTAINER_TEMPLATE
    }

    /// Render the container descriptor by applying the substitution mapping
    /// to the embedded template.
    pub fn render_devcontainer_json(&self) -> (r: Result<String, Error>)
        ensures
            r matches Ok(s) && exists|m: Seq<(String, String)>|
                spec_substitution_map_of(m, self.config.spec_v0_1()) && s@ == spec_apply_map(
                    EMBEDDED_DEVCONTAINER_TEMPLATE@,
                    m,
                ),
    {
        let map = self.build_substitution_map();
        let rendered = apply_substitutions(EMBEDDED_DEVCONTAINER_TEMPLATE, &map);
        proof {
            assert(spec_substitution_map_of(map@, self.config.spec_v0_1()) && rendered@
                == spec_apply_map(EMBEDDED_DEVCONTAINER_TEMPLATE@, map@));
        }
        Ok(rendered)
    }

    /// Render the container build file: the configured base image, the user
    /// arguments, the language-version argument when a runtime is known, the
    /// extra build arguments, then the fixed installation steps.
    pub fn render_dockerfile(&self) -> (r: Result<String, Error>)
        ensures
            r matches Ok(s) && s@ == spec_dockerfile(self.config.spec_v0_1()),
    {
        let c = self.inner_v0_1();
        let mut out = "ARG BASE_IMAGE=".to_owned();
        out.append(c.docker.image.as_str());
        out.append("\nFROM ${BASE_IMAGE}\n\n");
        out.append("ARG USERNAME=user\nARG USER_UID=1000\nARG USER_GID=1000\n");
        match &c.runtime {
            Some(rt) => {
                if str_eq(rt.language.as_str(), "python") {
                    out.append("ARG PYTHON_VERSION=");
                    out.append(rt.version.as_str());
                    out.append("\n\n");
                } else if str_eq(rt.language.as_str(), "node") || str_eq(
                    rt.language.as_str(),
                    "nodejs",
                ) {
                    out.append("ARG NODE_VERSION=");
                    out.append(rt.version.as_str());
                    out.append("\n\n");
                } else if str_eq(rt.language.as_str(), "rust") {
                    out.append("ARG RUST_VERSION=");
                    out.append(rt.version.as_str());
                    out.append("\n\n");
                } else if str_eq(rt.language.as_str(), "go") || str_eq(
                    rt.language.as_str(),
                    "golang",
                ) {
                    out.append("ARG GO_VERSION=");
                    out.append(rt.version.as_str());
                    out.append("\n\n");
                }
            },
            None => {},
        }
        let ghost before_args = out@;
        let mut i: usize = 0;
        proof {
            assert(c.docker.build_args@.take(0) =~= Seq::<String>::empty());
        }
        while i < c.docker.build_args.len()
            invariant
                i <= c.docker.build_args@.len(),
                out@ == before_args + spec_args_text(c.docker.build_args@.take(i as int)),
            decreases c.docker.build_args@.len() - i,
        {
            proof {
                lemma_args_text_snoc(
                    c.docker.build_args@.take(i as int),
                    c.docker.build_args@[i as int],
                );
                assert(c.docker.build_args@.take(i as int).push(c.docker.build_args@[i as int])
                    =~= c.docker.build_args@.take(i + 1));
            }
            out.append("ARG ");
            out.append(c.docker.build_args[i].as_str());
            out.append("\n");
            i = i + 1;
        }
        proof {
            assert(c.docker.build_args@.take(c.docker.build_args@.len() as int)
                =~= c.docker.build_args@);
        }
        if c.docker.build_args.len() > 0 {
            out.append("\n");
        }
        out.append("ENV DEBIAN_FRONTEND=noninteractive\n\n");
        out.append(
            "# Install system dependencies\nRUN apt-get update && apt-get install -y \\\n    curl \\\n    git \\\n    wget \\\n    vim \\\n    jq \\\n    build-essential \\\n    ca-certificates \\\n    gosu \\\n    && rm -rf /var/lib/apt/lists/*\n\nWORKDIR /workspaces\n\n# Pre-install sudo\nRUN apt-get update && apt-get install -y sudo && rm -rf /var/lib/apt/lists/*\n\n# Create user with sudo access\nRUN groupadd --gid ${USER_GID} ${USERNAME} \\\n    && useradd --uid ${USER_UID} --gid ${USERNAME} --shell /bin/bash --create-home ${USERNAME} \\\n    && echo \"${USERNAME} ALL=(ALL) NOPASSWD:ALL\" >> /etc/sudoers\n\n# Set ownership for workspace directory\nRUN chown -R ${USERNAME}:${USERNAME} /workspaces\n\nUSER ${USERNAME}\n",
        );
        Ok(out)
    }

    /// Render the assistant configuration file.
    pub fn render_assistant_config(&self) -> (r: Result<String, Error>)
        ensures
            r matches Ok(s) && s@ == spec_assistant_config(self.config.spec_v0_1()),
    {
        let c = self.inner_v0_1();
        let mut out = "{\n  \"provider\": \"".to_owned();
        let escaped = crate::text::json_escape(c.assistant.provider.as_str());
        out.append(escaped.as_str());
        out.append("\"");
        if c.assistant.models.len() > 0 {
            out.append(",\n  \"models\": ");
            let models_json = json_of_string_map(&c.assistant.models);
            out.append(models_json.as_str());
        }
        out.append("\n}");
        Ok(out)
    }

    /// Render the ignore file of the workspace repository.
    pub fn render_project_gitignore(&self) -> (r: Result<String, Error>)
        ensures
            r matches Ok(s) && s@ == PROJECT_GITIGNORE@,
    {
        Ok(PROJECT_GITIGNORE.to_owned())
    }

    /// Render the ignore file of the generated container-configuration
    /// repository.
    pub fn render_devcontainer_gitignore(&self) -> (r: Result<String, Error>)
        ensures
            r matches Ok(s) && s@ == DEVCONTAINER_GITIGNORE@,
    {
        Ok(DEVCONTAINER_GITIGNORE.to_owned())
    }

    /// Render the workspace README: a title naming the project, then the
    /// fixed usage notes.
    pub fn render_project_readme(&self) -> (r: Result<String, Error>)
        ensures
            r matches Ok(s) && s@ == "# "@ + self.config.spec_v0_1().name@ + README_TAIL@,
    {
        let c = self.inner_v0_1();
        let mut out = "# ".to_owned();
        out.append(c.name.as_str());
        out.append(README_TAIL);
        Ok(out)
    }
}

/// The relative paths of the artifacts a run produces, in generation order:
/// the container descriptor and build file, one directory per feature, the
/// assistant configuration, both ignore files and the README.
pub open spec fn spec_artifact_paths(ws: Seq<char>, features: Seq<String>) -> Seq<Seq<char>> {
    seq![".devcontainer/devcontainer.json"@, ".devcontainer/Dockerfile"@] + features.map_values(
        |f: String| ".devcontainer/features/"@ + f@,
    ) + seq![
        ws + "/.assistant/config.json"@,
        ws + "/.gitignore"@,
        ".devcontainer/.gitignore"@,
        ws + "/README.md"@,
    ]
}

/// The paths among `paths` whose presence among `existing` equals `present`,
/// in order, compared as text.
pub open spec fn spec_classified(
    paths: Seq<String>,
    existing: Seq<String>,
    present: bool,
) -> Seq<String>
    decreases paths.len(),
{
    if paths.len() == 0 {
        Seq::<String>::empty()
    } else {
        let rest = spec_classified(paths.drop_first(), existing, present);
        if crate::text::spec_contains_text(existing, paths[0]@) == present {
            seq![paths[0]] + rest
        } else {
            rest
        }
    }
}

/// Appending one path extends one of the two buckets.
proof fn lemma_classified_snoc(paths: Seq<String>, x: String, existing: Seq<String>, present: bool)
    ensures
        spec_classified(paths.push(x), existing, present) == spec_classified(
            paths,
            existing,
            present,
        ) + (if crate::text::spec_contains_text(existing, x@) == present {
            seq![x]
        } else {
            Seq::<String>::empty()
        }),
    decreases paths.len(),
{
    let ghost tail = if crate::text::spec_contains_text(existing, x@) == present {
        seq![x]
    } else {
        Seq::<String>::empty()
    };
    if paths.len() == 0 {
        assert(paths.push(x)[0] == x);
        assert(paths.push(x).drop_first() =~= paths);
        assert(spec_classified(paths, existing, present) == Seq::<String>::empty());
        assert(spec_classified(paths.push(x), existing, present) =~= spec_classified(
            paths,
            existing,
            present,
        ) + tail);
    } else {
        assert(paths.push(x).drop_first() =~= paths.drop_first().push(x));
        lemma_classified_snoc(paths.drop_first(), x, existing, present);
        assert(paths.push(x)[0] == paths[0]);
        assert(spec_classified(paths.push(x), existing, present) =~= spec_classified(
            paths,
            existing,
            present,
        ) + tail);
    }
}

impl Generator {
    /// The relative paths of the artifacts a run produces, given the feature
    /// directory names the installation offers.
    pub fn artifact_paths(&self, feature_names: &Vec<String>) -> (r: Vec<String>)
        ensures
            spec_strings_view(r@) == spec_artifact_paths(
                self.config.spec_v0_1().workspace.dir@,
                feature_names@,
            ),
    {
        let c = self.inner_v0_1();
        let ws = c.workspace.dir.as_str();
        let mut r: Vec<String> = Vec::new();
        r.push(".devcontainer/devcontainer.json".to_owned());
        r.push(".devcontainer/Dockerfile".to_owned());
        let mut i: usize = 0;
        while i < feature_names.len()
            invariant
                i <= feature_names@.len(),
                r@.len() == 2 + i,
                r@[0]@ == ".devcontainer/devcontainer.json"@,
                r@[1]@ == ".devcontainer/Dockerfile"@,
                forall|k: int|
                    0 <= k < i ==> (#[trigger] r@[2 + k])@ == ".devcontainer/features/"@
                        + feature_names@[k]@,
            decreases feature_names@.len() - i,
        {
            let mut p = ".devcontainer/features/".to_owned();
            p.append(feature_names[i].as_str());
            r.push(p);
            i = i + 1;
        }
        let mut assistant_path = ws.to_owned();
        assistant_path.append("/.assistant/config.json");
        r.push(assistant_path);
        let mut ws_gitignore = ws.to_owned();
        ws_gitignore.append("/.gitignore");
        r.push(ws_gitignore);
        r.push(".devcontainer/.gitignore".to_owned());
        let mut readme = ws.to_owned();
        readme.append("/README.md");
        r.push(readme);
        proof {
            let ghost goal = spec_artifact_paths(
                self.config.spec_v0_1().workspace.dir@,
                feature_names@,
            );
            let ghost fcount = feature_names@.len() as int;
            assert(spec_strings_view(r@).len() == goal.len());
            assert forall|i: int| 0 <= i < goal.len() implies spec_strings_view(r@)[i]
                == goal[i] by {
                if 2 <= i < 2 + fcount {
                    let k = i - 2;
                    assert((r@[2 + k])@ == ".devcontainer/features/"@ + feature_names@[k]@);
                    assert(goal[i] == feature_names@.map_values(
                        |f: String| ".devcontainer/features/"@ + f@,
                    )[k]);
                }
            }
            assert(spec_strings_view(r@) =~= goal);
        }
        r
    }

    /// Classify the artifact set for plan mode: existence alone decides the
    /// bucket. `feature_names` are the feature directories the installation
    /// offers; `existing` the artifact paths already present in the target.
    /// Nothing is written.
    pub fn dry_run(&self, feature_names: &Vec<String>, existing: &Vec<String>) -> (r: DryRunReport)
        ensures
            exists|paths: Seq<String>|
                {
                    &&& spec_strings_view(paths) == spec_artifact_paths(
                        self.config.spec_v0_1().workspace.dir@,
                        feature_names@,
                    )
                    &&& r.would_create@ == spec_classified(paths, existing@, false)
                    &&& r.would_modify@ == spec_classified(paths, existing@, true)
                },
    {
        let paths = self.artifact_paths(feature_names);
        let mut would_create: Vec<String> = Vec::new();
        let mut would_modify: Vec<String> = Vec::new();
        let mut i: usize = 0;
        proof {
            assert(paths@.take(0) =~= Seq::<String>::empty());
        }
        while i < paths.len()
            invariant
                i <= paths@.len(),
                would_create@ == spec_classified(paths@.take(i as int), existing@, false),
                would_modify@ == spec_classified(paths@.take(i as int), existing@, true),
            decreases paths@.len() - i,
        {
            proof {
                lemma_classified_snoc(paths@.take(i as int), paths@[i as int], existing@, false);
                lemma_classified_snoc(paths@.take(i as int), paths@[i as int], existing@, true);
                assert(paths@.take(i as int).push(paths@[i as int]) =~= paths@.take(i + 1));
            }
            if crate::text::contains_text(existing, paths[i].as_str()) {
                would_modify.push(paths[i].clone());
                proof {
                    assert(would_modify@ =~= spec_classified(
                        paths@.take(i as int),
                        existing@,
                        true,
                    ) + seq![paths@[i as int]]);
                    assert(would_create@ =~= spec_classified(
                        paths@.take(i as int),
                        existing@,
                        false,
                    ) + Seq::<String>::empty());
                }
            } else {
                would_create.push(paths[i].clone());
                proof {
                    assert(would_create@ =~= spec_classified(
                        paths@.take(i as int),
                        existing@,
                        false,
                    ) + seq![paths@[i as int]]);
                    assert(would_modify@ =~= spec_classified(
                        paths@.take(i as int),
                        existing@,
                        true,
                    ) + Seq::<String>::empty());
                }
            }
            i = i + 1;
        }
        proof {
            assert(paths@.take(paths@.len() as int) =~= paths@);
        }
        DryRunReport { would_create, would_modify }
    }
}

/// The sequence of version-control commands that initializes the two
/// repositories: in the workspace an `init`, an `add` for each of the
/// starter files that exists, and a commit, when no repository is there yet;
/// in the container-configuration directory an `init`, `add -A` and a
/// commit, when no repository is there yet.
pub open spec fn spec_git_plan(
    ws: Seq<char>,
    ws_has_repo: bool,
    ws_has_readme: bool,
    ws_has_gitignore: bool,
    dev_has_repo: bool,
) -> Seq<(Seq<char>, Seq<Seq<char>>)> {
    (if ws_has_repo {
        Seq::<(Seq<char>, Seq<Seq<char>>)>::empty()
    } else {
        seq![(ws, seq!["init"@, "-q"@])] + (if ws_has_readme {
            seq![(ws, seq!["add"@, "README.md"@])]
        } else {
            Seq::<(Seq<char>, Seq<Seq<char>>)>::empty()
        }) + (if ws_has_gitignore {
            seq![(ws, seq!["add"@, ".gitignore"@])]
        } else {
            Seq::<(Seq<char>, Seq<Seq<char>>)>::empty()
        }) + seq![(ws, seq!["commit"@, "-m"@, "Initial commit"@, "-q"@])]
    }) + (if dev_has_repo {
        Seq::<(Seq<char>, Seq<Seq<char>>)>::empty()
    } else {
        seq![
            (".devcontainer"@, seq!["init"@, "-q"@]),
            (".devcontainer"@, seq!["add"@, "-A"@]),
            (".devcontainer"@, seq!["commit"@, "-m"@, "Initial devcontainer setup"@, "-q"@]),
        ]
    })
}

/// Build one command.
fn cmd1(dir: &str, a0: &str, a1: &str) -> (r: GitCommand)
    ensures
        spec_cmd_view(r) == (dir@, seq![a0@, a1@]),
{
    let mut args: Vec<String> = Vec::new();
    args.push(a0.to_owned());
    args.push(a1.to_owned());
    proof {
        assert(spec_strings_view(args@) =~= seq![a0@, a1@]);
    }
    GitCommand { dir: dir.to_owned(), args }
}

/// Build one four-argument command.
fn cmd3(dir: &str, a0: &str, a1: &str, a2: &str, a3: &str) -> (r: GitCommand)
    ensures
        spec_cmd_view(r) == (dir@, seq![a0@, a1@, a2@, a3@]),
{
    let mut args: Vec<String> = Vec::new();
    args.push(a0.to_owned());
    args.push(a1.to_owned());
    args.push(a2.to_owned());
    args.push(a3.to_owned());
    proof {
        assert(spec_strings_view(args@) =~= seq![a0@, a1@, a2@, a3@]);
    }
    GitCommand { dir: dir.to_owned(), args }
}

/// Plan the repository initialization for a run.
///
/// `ws` is the workspace directory; the flags say which repositories already
/// exist and which starter files were written. The returned commands, run in
/// order, initialize exactly the missing repositories as
/// [`spec_git_plan`] states.
pub fn git_init_plan(
    ws: &str,
    ws_has_repo: bool,
    ws_has_readme: bool,
    ws_has_gitignore: bool,
    dev_has_repo: bool,
) -> (r: Vec<GitCommand>)
    ensures
        r@.map_values(|c: GitCommand| spec_cmd_view(c)) == spec_git_plan(
            ws@,
            ws_has_repo,
            ws_has_readme,
            ws_has_gitignore,
            dev_has_repo,
        ),
{
    let mut r: Vec<GitCommand> = Vec::new();
    if !ws_has_repo {
        r.push(cmd1(ws, "init", "-q"));
        if ws_has_readme {
            r.push(cmd1(ws, "add", "README.md"));
        }
        if ws_has_gitignore {
            r.push(cmd1(ws, "add", ".gitignore"));
        }
        r.push(cmd3(ws, "commit", "-m", "Initial commit", "-q"));
    }
    if !dev_has_repo {
        r.push(cmd1(".devcontainer", "init", "-q"));
        r.push(cmd1(".devcontainer", "add", "-A"));
        r.push(cmd3(".devcontainer", "commit", "-m", "Initial devcontainer setup", "-q"));
    }
    proof {
        assert(r@.map_values(|c: GitCommand| spec_cmd_view(c)) =~= spec_git_plan(
            ws@,
            ws_has_repo,
            ws_has_readme,
            ws_has_gitignore,
            dev_has_repo,
        ));
    }
    r
}

/// Substitution completeness law: for a configured `python` runtime the
/// mapping carries a `PYTHON_VERSION` entry holding the runtime version, and
/// for an unrecognized language, or no runtime at all, the mapping carries
/// no language-version key.
pub proof fn lemma_substitution_completeness(m: Seq<(String, String)>, c: v0_1::Config)
    requires
        spec_substitution_map_of(m, c),
    ensures
        (c.runtime matches Some(rt) && rt.language@ == "python"@) ==> exists|i: int|
            0 <= i < m.len() && (#[trigger] m[i]).0@ == "PYTHON_VERSION"@ && m[i].1@
                == c.runtime->Some_0.version@,
        (match c.runtime {
            Some(rt) => spec_lang_version_key(rt.language@) is None,
            None => true,
        }) ==> forall|i: int|
            0 <= i < m.len() ==> !((#[trigger] m[i]).0@ == "PYTHON_VERSION"@ || m[i].0@
                == "NODE_VERSION"@ || m[i].0@ == "RUST_VERSION"@ || m[i].0@ == "GO_VERSION"@),
{
    reveal_strlit("PROJECT_NAME");
    reveal_strlit("ASSISTANT_VERSION");
    reveal_strlit("ASSISTANT_PROVIDER");
    reveal_strlit("ASSISTANT_MODELS");
    reveal_strlit("PROXY_ENABLED");
    reveal_strlit("HTTP_PROXY");
    reveal_strlit("HTTPS_PROXY");
    reveal_strlit("NO_PROXY");
    reveal_strlit("FEATURES_ASSISTANT");
    reveal_strlit("FEATURES_PROXY");
    reveal_strlit("FEATURES_PLUGIN_MANAGER");
    reveal_strlit("ASSISTANT_ACTIVATE_PLUGINS");
    reveal_strlit("ASSISTANT_DEACTIVATE_PLUGINS");
    reveal_strlit("PYTHON_VERSION");
    reveal_strlit("NODE_VERSION");
    reveal_strlit("RUST_VERSION");
    reveal_strlit("GO_VERSION");
    reveal_strlit("python");
    reveal_strlit("node");
    reveal_strlit("nodejs");
    reveal_strlit("javascript");
    reveal_strlit("rust");
    reveal_strlit("go");
    reveal_strlit("golang");
    assert("PYTHON_VERSION"@.len() == 14);
    assert("NODE_VERSION"@.len() == 12);
    assert("RUST_VERSION"@.len() == 12);
    assert("GO_VERSION"@.len() == 10);
    assert("PROJECT_NAME"@.len() == 12);
    assert("ASSISTANT_VERSION"@.len() == 17);
    assert("ASSISTANT_PROVIDER"@.len() == 18);
    assert("ASSISTANT_MODELS"@.len() == 16);
    assert("PROXY_ENABLED"@.len() == 13);
    assert("HTTP_PROXY"@.len() == 10);
    assert("HTTPS_PROXY"@.len() == 11);
    assert("NO_PROXY"@.len() == 8);
    assert("FEATURES_ASSISTANT"@.len() == 18);
    assert("FEATURES_PROXY"@.len() == 14);
    assert("FEATURES_PLUGIN_MANAGER"@.len() == 23);
    assert("ASSISTANT_ACTIVATE_PLUGINS"@.len() == 26);
    assert("ASSISTANT_DEACTIVATE_PLUGINS"@.len() == 28);
    assert("python"@.len() == 6);
    match c.runtime {
        Some(rt) => {
            if rt.language@ == "python"@ {
                assert(spec_lang_version_key(rt.language@) == Some("PYTHON_VERSION"@));
                assert(m[13].0@ == "PYTHON_VERSION"@ && m[13].1@ == rt.version@);
            }
        },
        None => {},
    }
    let ghost no_key = match c.runtime {
        Some(rt) => spec_lang_version_key(rt.language@) is None,
        None => true,
    };
    if no_key {
        assert(m.len() == 13);
        assert("ASSISTANT_VERSION"@[0] != "PYTHON_VERSION"@[0]);
        assert("FEATURES_PROXY"@[0] != "PYTHON_VERSION"@[0]);
        assert("PROJECT_NAME"@[0] != "NODE_VERSION"@[0]);
        assert("PROJECT_NAME"@[0] != "RUST_VERSION"@[0]);
        assert("HTTP_PROXY"@[0] != "GO_VERSION"@[0]);
        assert forall|i: int| 0 <= i < m.len() implies !((#[trigger] m[i]).0@
            == "PYTHON_VERSION"@ || m[i].0@ == "NODE_VERSION"@ || m[i].0@ == "RUST_VERSION"@
            || m[i].0@ == "GO_VERSION"@) by {
                if i == 0 {
                    assert(m[0].0@ == "PROJECT_NAME"@);
                } else if i == 1 {
                    assert(m[1].0@ == "ASSISTANT_VERSION"@);
                } else if i == 2 {
                    assert(m[2].0@ == "ASSISTANT_PROVIDER"@);
                } else if i == 3 {
                    assert(m[3].0@ == "ASSISTANT_MODELS"@);
                } else if i == 4 {
                    assert(m[4].0@ == "PROXY_ENABLED"@);
                } else if i == 5 {
                    assert(m[5].0@ == "HTTP_PROXY"@);
                } else if i == 6 {
                    assert(m[6].0@ == "HTTPS_PROXY"@);
                } else if i == 7 {
                    assert(m[7].0@ == "NO_PROXY"@);
                } else if i == 8 {
                    assert(m[8].0@ == "FEATURES_ASSISTANT"@);
                } else if i == 9 {
                    assert(m[9].0@ == "FEATURES_PROXY"@);
                } else if i == 10 {
                    assert(m[10].0@ == "FEATURES_PLUGIN_MANAGER"@);
                } else if i == 11 {
                    assert(m[11].0@ == "ASSISTANT_ACTIVATE_PLUGINS"@);
                } else if i == 12 {
                    assert(m[12].0@ == "ASSISTANT_DEACTIVATE_PLUGINS"@);
                }
        }
    }
}

/// The embedded container descriptor template.
pub const EMBEDDED_DEVCONTAINER_TEMPLATE: &'static str = "{\n  \"name\": \"{{PROJECT_NAME}} - Isolde Environment\",\n  \"build\": {\n    \"dockerfile\": \"Dockerfile\",\n    \"context\": \"..\",\n    \"args\": {\n      \"USERNAME\": \"${localEnv:USER}\"\n    }\n  },\n  \"features\": {\n    \"ghcr.io/devcontainers/features/common-utils:2\": {\n      \"installZsh\": false,\n      \"installOhMyZsh\": false,\n      \"upgradePackages\": false\n    },\n    \"{{FEATURES_PROXY}}\": {\n      \"http_proxy\": \"{{HTTP_PROXY}}\",\n      \"https_proxy\": \"{{HTTPS_PROXY}}\",\n      \"no_proxy\": \"{{NO_PROXY}}\",\n      \"enabled\": {{PROXY_ENABLED}}\n    },\n    \"{{FEATURES_ASSISTANT}}\": {\n      \"version\": \"{{ASSISTANT_VERSION}}\",\n      \"provider\": \"{{ASSISTANT_PROVIDER}}\",\n      \"models\": {{ASSISTANT_MODELS}},\n      \"http_proxy\": \"{{HTTP_PROXY}}\",\n      \"https_proxy\": \"{{HTTPS_PROXY}}\"\n    },\n    \"{{FEATURES_PLUGIN_MANAGER}}\": {\n      \"activate_plugins\": {{ASSISTANT_ACTIVATE_PLUGINS}},\n      \"deactivate_plugins\": {{ASSISTANT_DEACTIVATE_PLUGINS}}\n    }\n  },\n  \"overrideFeatureInstallOrder\": [\n    \"./features/proxy\",\n    \"./features/assistant\",\n    \"./features/plugin-manager\"\n  ],\n  \"customizations\": {\n    \"vscode\": {\n      \"extensions\": [\n        \"assistant-tools\"\n      ],\n      \"settings\": {\n        \"terminal.integrated.defaultProfile.linux\": \"bash\"\n      }\n    }\n  },\n  \"mounts\": [\n    \"source=${localEnv:HOME}/.assistant,target=/home/${localEnv:USER}/.assistant,type=bind,consistency=cached\",\n    \"source=${localEnv:HOME}/.assistant.json,target=/home/${localEnv:USER}/.assistant.json,type=bind,consistency=cached\",\n    \"source=${localEnv:HOME}/.config/devcontainer/machine-id,target=/etc/machine-id,type=bind,consistency=cached\"\n  ],\n  \"remoteUser\": \"${localEnv:USER}\",\n  \"workspaceFolder\": \"/workspaces/{{PROJECT_NAME}}\"\n}\n";

/// The ignore file body of the workspace repository.
pub const PROJECT_GITIGNORE: &'static str = "# Assistant local files\n.assistant/\n\n# IDE\n.vscode/\n.idea/\n\n# OS\n.DS_Store\nThumbs.db\n\n# Python\n__pycache__/\n*.py[cod]\n*$py.class\n*.so\n.Python\nvenv/\nenv/\n.venv/\n\n# Node\nnode_modules/\nnpm-debug.log*\nyarn-debug.log*\nyarn-error.log*\n\n# Rust\ntarget/\nCargo.lock\n\n# Go\n*.sum\n*.test\n*.prof\n";

/// The ignore file body of the container-configuration repository.
pub const DEVCONTAINER_GITIGNORE: &'static str = "# Assistant local files (not in git)\n.assistant/\nsettings.json\n\n# Plugin-manager state files (not in git)\n.omc/\n\n# IDE files\n.vscode/\n.idea/\n";

/// The fixed tail of the workspace README, after the project title.
pub const README_TAIL: &'static str = "\n\nThis project was created using the Isolde devcontainer template system.\n\n## Getting Started\n\n1. Open this project in VS Code\n2. Reopen in Container when prompted\n3. Start coding!\n\n## Project Structure\n\n- `project/` - Your main project code (this directory)\n- `.devcontainer/` - Devcontainer configuration (separate git repository)\n- `.assistant/` - assistant configuration (not in git)\n\n## DevContainer\n\nThis project uses a devcontainer for development. The configuration is in the\n`.devcontainer/` directory (a separate git repository).\n\nTo rebuild the container:\n1. Press F1 in VS Code\n2. Select \"Dev Containers: Rebuild Container\"\n";

} // verus!
