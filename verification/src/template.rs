//! Template engine: named text templates with flat `{{key}}` placeholder
//! substitution.
//!
//! Rendering is a fixed left-to-right sequence of replacements over the
//! template text, stated exactly by [`spec_render`]. A token whose key the
//! engine does not substitute is left verbatim in the output; it is not an
//! error.

use vstd::prelude::*;
use vstd::string::*;

use crate::config::Config;
use crate::error::Error;
use crate::json::{json_of_string_map, json_object_of, spec_pairs_view};
use crate::text::{replace_str, spec_replaced, str_eq};

verus! {

/// A named collection of templates.
pub struct TemplateEngine {
    /// Template text by name, in registration order.
    pub templates: Vec<(String, String)>,
}

/// Variables available to a template, resolved to plain text.
#[derive(Debug, Clone)]
pub struct TemplateContext {
    /// Project name.
    pub project_name: String,
    /// Base container image reference.
    pub docker_image: String,
    /// Language version, when a runtime is configured.
    pub lang_version: Option<String>,
    /// Assistant CLI version.
    pub assistant_version: String,
    /// Assistant provider.
    pub assistant_provider: String,
    /// Assistant model mapping, as a JSON object fragment.
    pub assistant_models_json: String,
    /// HTTP proxy URL, when configured.
    pub proxy_http: Option<String>,
    /// HTTPS proxy URL, when configured.
    pub proxy_https: Option<String>,
    /// Hosts excluded from proxying, when configured.
    pub proxy_no_proxy: Option<String>,
    /// Whether a proxy section is configured.
    pub proxy_enabled: bool,
    /// Names of plugins to activate, in document order.
    pub assistant_activate_plugins: Vec<String>,
    /// Names of plugins to deactivate, in document order.
    pub assistant_deactivate_plugins: Vec<String>,
}

/// The text of an optional variable: absent reads as empty.
pub open spec fn spec_opt_text(o: Option<String>) -> Seq<char> {
    match o {
        Some(s) => s@,
        None => Seq::<char>::empty(),
    }
}

/// A plugin list rendered as a comma-joined sequence of double-quoted names
/// (a JSON-array fragment without the brackets).
pub open spec fn spec_plugin_list(items: Seq<String>) -> Seq<char>
    decreases items.len(),
{
    if items.len() == 0 {
        Seq::<char>::empty()
    } else {
        let rest = spec_plugin_list(items.drop_first());
        if items.len() == 1 {
            "\""@ + items[0]@ + "\""@
        } else {
            "\""@ + items[0]@ + "\""@ + ", "@ + rest
        }
    }
}

/// Appending one item to a plugin list appends one quoted name, with a
/// separator exactly when the list was non-empty.
proof fn lemma_plugin_list_snoc(items: Seq<String>, x: String)
    ensures
        spec_plugin_list(items.push(x)) == if items.len() == 0 {
            "\""@ + x@ + "\""@
        } else {
            spec_plugin_list(items) + ", "@ + ("\""@ + x@ + "\""@)
        },
    decreases items.len(),
{
    if items.len() == 0 {
        assert(items.push(x).len() == 1);
        assert(items.push(x)[0] == x);
    } else {
        assert(items.push(x).drop_first() =~= items.drop_first().push(x));
        lemma_plugin_list_snoc(items.drop_first(), x);
        assert(items.push(x)[0] == items[0]);
        assert(spec_plugin_list(items.push(x)) == "\""@ + items[0]@ + "\""@ + ", "@
            + spec_plugin_list(items.drop_first().push(x)));
        if items.len() == 1 {
            assert(spec_plugin_list(items) == "\""@ + items[0]@ + "\""@);
            assert(spec_plugin_list(items.drop_first().push(x)) == "\""@ + x@ + "\""@);
            assert(spec_plugin_list(items.push(x)) =~= spec_plugin_list(items) + ", "@ + ("\""@
                + x@ + "\""@));
        } else {
            assert(spec_plugin_list(items) == "\""@ + items[0]@ + "\""@ + ", "@ + spec_plugin_list(
                items.drop_first(),
            ));
            assert(spec_plugin_list(items.push(x)) =~= spec_plugin_list(items) + ", "@ + ("\""@
                + x@ + "\""@));
        }
    }
}

/// Render a list of plugin names as a comma-joined, double-quoted token
/// sequence.
pub fn format_plugin_list(plugins: &Vec<String>) -> (r: String)
    ensures
        r@ == spec_plugin_list(plugins@),
{
    let mut out = String::new();
    let mut i: usize = 0;
    proof {
        assert(plugins@.take(0) =~= Seq::<String>::empty());
    }
    while i < plugins.len()
        invariant
            i <= plugins@.len(),
            out@ == spec_plugin_list(plugins@.take(i as int)),
        decreases plugins@.len() - i,
    {
        proof {
            lemma_plugin_list_snoc(plugins@.take(i as int), plugins@[i as int]);
            assert(plugins@.take(i as int).push(plugins@[i as int]) =~= plugins@.take(i + 1));
        }
        if i > 0 {
            out.append(", ");
        }
        out.append("\"");
        out.append(plugins[i].as_str());
        out.append("\"");
        i = i + 1;
    }
    proof {
        assert(plugins@.take(plugins@.len() as int) =~= plugins@);
    }
    out
}

/// The rendering of template text `t` under context `ctx`: the fixed
/// left-to-right sequence of replacements the engine performs.
pub open spec fn spec_render(t: Seq<char>, ctx: TemplateContext) -> Seq<char> {
    let s1 = spec_replaced(t, "{{project_name}}"@, ctx.project_name@);
    let s2 = spec_replaced(s1, "{{docker_image}}"@, ctx.docker_image@);
    let s3 = spec_replaced(s2, "{{assistant_version}}"@, ctx.assistant_version@);
    let s4 = spec_replaced(s3, "{{assistant_provider}}"@, ctx.assistant_provider@);
    let s5 = spec_replaced(s4, "{{assistant_models_json}}"@, ctx.assistant_models_json@);
    let s6 = spec_replaced(s5, "{{lang_version}}"@, spec_opt_text(ctx.lang_version));
    let s7 = spec_replaced(s6, "{{features_assistant}}"@, "./features/assistant"@);
    let s8 = spec_replaced(s7, "{{features_proxy}}"@, "./features/proxy"@);
    let s9 = spec_replaced(s8, "{{features_plugin_manager}}"@, "./features/plugin-manager"@);
    let s10 = spec_replaced(s9, "{{proxy_http}}"@, spec_opt_text(ctx.proxy_http));
    let s11 = spec_replaced(s10, "{{proxy_https}}"@, spec_opt_text(ctx.proxy_https));
    let s12 = spec_replaced(s11, "{{proxy_no_proxy}}"@, spec_opt_text(ctx.proxy_no_proxy));
    let s13 = spec_replaced(
        s12,
        "{{assistant_activate_plugins}}"@,
        spec_plugin_list(ctx.assistant_activate_plugins@),
    );
    spec_replaced(
        s13,
        "{{assistant_deactivate_plugins}}"@,
        spec_plugin_list(ctx.assistant_deactivate_plugins@),
    )
}

/// Render template text under a context by flat placeholder replacement.
pub fn render_template_simple(template: &str, context: &TemplateContext) -> (r: String)
    ensures
        r@ == spec_render(template@, *context),
{
    let empty = String::new();
    let lang_version = match &context.lang_version {
        Some(s) => s.as_str(),
        None => empty.as_str(),
    };
    let proxy_http = match &context.proxy_http {
        Some(s) => s.as_str(),
        None => empty.as_str(),
    };
    let proxy_https = match &context.proxy_https {
        Some(s) => s.as_str(),
        None => empty.as_str(),
    };
    let proxy_no_proxy = match &context.proxy_no_proxy {
        Some(s) => s.as_str(),
        None => empty.as_str(),
    };
    let activate_list = format_plugin_list(&context.assistant_activate_plugins);
    let deactivate_list = format_plugin_list(&context.assistant_deactivate_plugins);
    let s1 = replace_str(template, "{{project_name}}", context.project_name.as_str());
    let s2 = replace_str(s1.as_str(), "{{docker_image}}", context.docker_image.as_str());
    let s3 = replace_str(s2.as_str(), "{{assistant_version}}", context.assistant_version.as_str());
    let s4 = replace_str(s3.as_str(), "{{assistant_provider}}", context.assistant_provider.as_str());
    let s5 = replace_str(
        s4.as_str(),
        "{{assistant_models_json}}",
        context.assistant_models_json.as_str(),
    );
    let s6 = replace_str(s5.as_str(), "{{lang_version}}", lang_version);
    let s7 = replace_str(s6.as_str(), "{{features_assistant}}", "./features/assistant");
    let s8 = replace_str(s7.as_str(), "{{features_proxy}}", "./features/proxy");
    let s9 = replace_str(s8.as_str(), "{{features_plugin_manager}}", "./features/plugin-manager");
    let s10 = replace_str(s9.as_str(), "{{proxy_http}}", proxy_http);
    let s11 = replace_str(s10.as_str(), "{{proxy_https}}", proxy_https);
    let s12 = replace_str(s11.as_str(), "{{proxy_no_proxy}}", proxy_no_proxy);
    let s13 = replace_str(s12.as_str(), "{{assistant_activate_plugins}}", activate_list.as_str());
    replace_str(s13.as_str(), "{{assistant_deactivate_plugins}}", deactivate_list.as_str())
}

/// The template content registered under `name`, searching in registration
/// order.
pub open spec fn spec_lookup(ts: Seq<(String, String)>, name: Seq<char>) -> Option<Seq<char>>
    decreases ts.len(),
{
    if ts.len() == 0 {
        None
    } else if ts[0].0@ == name {
        Some(ts[0].1@)
    } else {
        spec_lookup(ts.drop_first(), name)
    }
}

/// The registered template names, comma-joined in registration order.
pub open spec fn spec_template_names(ts: Seq<(String, String)>) -> Seq<char>
    decreases ts.len(),
{
    if ts.len() == 0 {
        Seq::<char>::empty()
    } else if ts.len() == 1 {
        ts[0].0@
    } else {
        spec_template_names(ts.drop_last()) + ", "@ + ts.last().0@
    }
}

impl TemplateContext {
    /// A context with only the required fields set; everything else at its
    /// default: assistant version `latest`, provider `anthropic`, no models,
    /// no proxy, no plugins.
    pub fn new(project_name: String, docker_image: String) -> (r: TemplateContext)
        ensures
            r.project_name == project_name,
            r.docker_image == docker_image,
            r.lang_version is None,
            r.assistant_version@ == "latest"@,
            r.assistant_provider@ == "anthropic"@,
            r.assistant_models_json@ == "{}"@,
            r.proxy_http is None,
            r.proxy_https is None,
            r.proxy_no_proxy is None,
            r.proxy_enabled == false,
            r.assistant_activate_plugins@.len() == 0,
            r.assistant_deactivate_plugins@.len() == 0,
    {
        TemplateContext {
            project_name,
            docker_image,
            lang_version: None,
            assistant_version: "latest".to_owned(),
            assistant_provider: "anthropic".to_owned(),
            assistant_models_json: "{}".to_owned(),
            proxy_http: None,
            proxy_https: None,
            proxy_no_proxy: None,
            proxy_enabled: false,
            assistant_activate_plugins: Vec::new(),
            assistant_deactivate_plugins: Vec::new(),
        }
    }
}

/// The names of the plugins in `plugins` whose activation flag equals `act`,
/// in order.
pub open spec fn spec_filter_names(
    plugins: Seq<crate::config::v0_1::PluginConfig>,
    act: bool,
) -> Seq<String>
    decreases plugins.len(),
{
    if plugins.len() == 0 {
        Seq::<String>::empty()
    } else {
        let rest = spec_filter_names(plugins.drop_first(), act);
        if plugins[0].activate == act {
            seq![plugins[0].name] + rest
        } else {
            rest
        }
    }
}

/// Filtering distributes over appending one plugin at the end.
proof fn lemma_filter_names_snoc(
    plugins: Seq<crate::config::v0_1::PluginConfig>,
    p: crate::config::v0_1::PluginConfig,
    act: bool,
)
    ensures
        spec_filter_names(plugins.push(p), act) == spec_filter_names(plugins, act) + (
        if p.activate == act {
            seq![p.name]
        } else {
            Seq::<String>::empty()
        }),
    decreases plugins.len(),
{
    let ghost tail = if p.activate == act {
        seq![p.name]
    } else {
        Seq::<String>::empty()
    };
    if plugins.len() == 0 {
        assert(plugins.push(p)[0] == p);
        assert(plugins.push(p).drop_first() =~= plugins);
        assert(spec_filter_names(plugins, act) == Seq::<String>::empty());
        assert(spec_filter_names(plugins.push(p), act) == if p.activate == act {
            seq![p.name] + spec_filter_names(plugins, act)
        } else {
            spec_filter_names(plugins, act)
        });
        assert(spec_filter_names(plugins.push(p), act) =~= spec_filter_names(plugins, act) + tail);
    } else {
        assert(plugins.push(p).drop_first() =~= plugins.drop_first().push(p));
        lemma_filter_names_snoc(plugins.drop_first(), p, act);
        assert(plugins.push(p)[0] == plugins[0]);
        assert(spec_filter_names(plugins.drop_first().push(p), act) == spec_filter_names(
            plugins.drop_first(),
            act,
        ) + tail);
        assert(spec_filter_names(plugins, act) == if plugins[0].activate == act {
            seq![plugins[0].name] + spec_filter_names(plugins.drop_first(), act)
        } else {
            spec_filter_names(plugins.drop_first(), act)
        });
        assert(spec_filter_names(plugins.push(p), act) == if plugins[0].activate == act {
            seq![plugins[0].name] + spec_filter_names(plugins.drop_first().push(p), act)
        } else {
            spec_filter_names(plugins.drop_first().push(p), act)
        });
        assert(spec_filter_names(plugins.push(p), act) =~= spec_filter_names(plugins, act) + tail);
    }
}

/// The names of the plugins whose activation flag equals `act`, in order.
pub fn filter_plugin_names(
    plugins: &Vec<crate::config::v0_1::PluginConfig>,
    act: bool,
) -> (r: Vec<String>)
    ensures
        r@ == spec_filter_names(plugins@, act),
{
    let mut out: Vec<String> = Vec::new();
    let mut i: usize = 0;
    proof {
        assert(plugins@.take(0) =~= Seq::<crate::config::v0_1::PluginConfig>::empty());
    }
    while i < plugins.len()
        invariant
            i <= plugins@.len(),
            out@ == spec_filter_names(plugins@.take(i as int), act),
        decreases plugins@.len() - i,
    {
        proof {
            lemma_filter_names_snoc(plugins@.take(i as int), plugins@[i as int], act);
            assert(plugins@.take(i as int).push(plugins@[i as int]) =~= plugins@.take(i + 1));
        }
        if plugins[i].activate == act {
            out.push(plugins[i].name.clone());
            proof {
                assert(out@ =~= spec_filter_names(plugins@.take(i as int), act) + seq![
                    plugins@[i as int].name,
                ]);
            }
        } else {
            proof {
                assert(out@ =~= spec_filter_names(plugins@.take(i as int), act)
                    + Seq::<String>::empty());
            }
        }
        i = i + 1;
    }
    proof {
        assert(plugins@.take(plugins@.len() as int) =~= plugins@);
    }
    out
}

/// Whether `ctx` is the context that [`TemplateEngine::build_context`]
/// derives from `c`.
pub open spec fn spec_context_of(ctx: TemplateContext, c: Config) -> bool {
    &&& ctx.project_name@ == c.name@
    &&& ctx.docker_image@ == c.spec_v0_1().docker.image@
    &&& (match (ctx.lang_version, c.spec_v0_1().runtime) {
        (Option::None, Option::None) => true,
        (Option::Some(v), Option::Some(rt)) => v@ == rt.version@,
        _ => false,
    })
    &&& ctx.assistant_version@ == c.spec_v0_1().assistant.version@
    &&& ctx.assistant_provider@ == c.spec_v0_1().assistant.provider@
    &&& ctx.assistant_models_json@ == json_object_of(spec_pairs_view(c.spec_v0_1().assistant.models@))
    &&& crate::config::v0_1::spec_eqv_opt_string(
        ctx.proxy_http,
        match c.spec_v0_1().proxy {
            Some(p) => p.http,
            None => Option::None,
        },
    )
    &&& crate::config::v0_1::spec_eqv_opt_string(
        ctx.proxy_https,
        match c.spec_v0_1().proxy {
            Some(p) => p.https,
            None => Option::None,
        },
    )
    &&& crate::config::v0_1::spec_eqv_opt_string(
        ctx.proxy_no_proxy,
        match c.spec_v0_1().proxy {
            Some(p) => p.no_proxy,
            None => Option::None,
        },
    )
    &&& ctx.proxy_enabled == (c.spec_v0_1().proxy is Some)
    &&& ctx.assistant_activate_plugins@ == spec_filter_names(c.spec_v0_1().plugins@, true)
    &&& ctx.assistant_deactivate_plugins@ == spec_filter_names(c.spec_v0_1().plugins@, false)
}

impl TemplateEngine {
    /// A new engine holding the built-in templates: the container descriptor,
    /// the container build file, and the assistant configuration.
    pub fn new() -> (r: Result<TemplateEngine, Error>)
        ensures
            r matches Ok(e) && e.templates@.len() == 3,
            r matches Ok(e) && spec_lookup(e.templates@, "devcontainer.json"@) == Some(
                BUILTIN_DEVCONTAINER_TEMPLATE@,
            ),
            r matches Ok(e) && spec_lookup(e.templates@, "Dockerfile"@) == Some(
                BUILTIN_DOCKERFILE_TEMPLATE@,
            ),
            r matches Ok(e) && spec_lookup(e.templates@, "assistant-config.json"@) == Some(
                BUILTIN_ASSISTANT_CONFIG_TEMPLATE@,
            ),
    {
        let mut templates: Vec<(String, String)> = Vec::new();
        templates.push(
            ("devcontainer.json".to_owned(), BUILTIN_DEVCONTAINER_TEMPLATE.to_owned()),
        );
        templates.push(("Dockerfile".to_owned(), BUILTIN_DOCKERFILE_TEMPLATE.to_owned()));
        templates.push(
            ("assistant-config.json".to_owned(), BUILTIN_ASSISTANT_CONFIG_TEMPLATE.to_owned()),
        );
        proof {
            reveal_strlit("devcontainer.json");
            reveal_strlit("Dockerfile");
            reveal_strlit("assistant-config.json");
            assert("devcontainer.json"@.len() == 17);
            assert("Dockerfile"@.len() == 10);
            assert("assistant-config.json"@.len() == 21);
            assert(templates@[0].0@ == "devcontainer.json"@);
            assert(templates@.drop_first()[0].0@ == "Dockerfile"@);
            assert(templates@.drop_first().drop_first()[0].0@ == "assistant-config.json"@);
            assert(spec_lookup(templates@, "Dockerfile"@) == spec_lookup(
                templates@.drop_first(),
                "Dockerfile"@,
            ));
            assert(spec_lookup(templates@.drop_first(), "Dockerfile"@) is Some);
            assert(spec_lookup(templates@, "assistant-config.json"@) == spec_lookup(
                templates@.drop_first(),
                "assistant-config.json"@,
            ));
            assert(spec_lookup(templates@.drop_first(), "assistant-config.json"@) == spec_lookup(
                templates@.drop_first().drop_first(),
                "assistant-config.json"@,
            ));
            assert(spec_lookup(templates@.drop_first().drop_first(), "assistant-config.json"@)
                is Some);
        }
        Ok(TemplateEngine { templates })
    }

    /// Render the template registered under `name` with the given context.
    ///
    /// Succeeds exactly when a template of that name is registered; the
    /// output is the rendering stated by [`spec_render`].
    pub fn render_template(&self, name: &str, context: &TemplateContext) -> (r: Result<
        String,
        Error,
    >)
        ensures
            (r is Ok) <==> spec_lookup(self.templates@, name@) is Some,
            r matches Ok(s) ==> s@ == spec_render(
                spec_lookup(self.templates@, name@)->Some_0,
                *context,
            ),
            r matches Err(e) ==> e matches Error::InvalidTemplate(m) && m@ == "Template '"@
                + name@ + "' not found. Available: "@ + spec_template_names(self.templates@),
    {
        let mut i: usize = 0;
        proof {
            assert(self.templates@.skip(0) =~= self.templates@);
        }
        while i < self.templates.len()
            invariant
                i <= self.templates@.len(),
                spec_lookup(self.templates@, name@) == spec_lookup(
                    self.templates@.skip(i as int),
                    name@,
                ),
            decreases self.templates@.len() - i,
        {
            proof {
                assert(self.templates@.skip(i as int)[0] == self.templates@[i as int]);
                assert(self.templates@.skip(i as int).drop_first() =~= self.templates@.skip(
                    i as int + 1,
                ));
            }
            if str_eq(self.templates[i].0.as_str(), name) {
                return Ok(render_template_simple(self.templates[i].1.as_str(), context));
            }
            i = i + 1;
        }
        proof {
            assert(self.templates@.skip(self.templates@.len() as int) =~= Seq::<
                (String, String),
            >::empty());
        }
        let mut m = "Template '".to_owned();
        m.append(name);
        m.append("' not found. Available: ");
        let names = self.template_names_joined();
        m.append(names.as_str());
        Err(Error::InvalidTemplate(m))
    }

    /// The registered template names, comma-joined in registration order.
    pub fn template_names_joined(&self) -> (r: String)
        ensures
            r@ == spec_template_names(self.templates@),
    {
        let mut out = String::new();
        let mut i: usize = 0;
        proof {
            assert(self.templates@.take(0) =~= Seq::<(String, String)>::empty());
        }
        while i < self.templates.len()
            invariant
                i <= self.templates@.len(),
                out@ == spec_template_names(self.templates@.take(i as int)),
            decreases self.templates@.len() - i,
        {
            proof {
                assert(self.templates@.take(i + 1).drop_last() =~= self.templates@.take(i as int));
                assert(self.templates@.take(i + 1).last() == self.templates@[i as int]);
                assert(self.templates@.take(i + 1)[0] == self.templates@[0]);
            }
            if i > 0 {
                out.append(", ");
            }
            out.append(self.templates[i].0.as_str());
            i = i + 1;
        }
        proof {
            assert(self.templates@.take(self.templates@.len() as int) =~= self.templates@);
        }
        out
    }

    /// Derive the template context from a configuration.
    ///
    /// Every key the templates can reference is populated even when the
    /// underlying section is absent: missing proxy fields read as absent
    /// values (rendered empty), the model mapping renders as a JSON object,
    /// and the plugin lists carry the names of the plugins with the matching
    /// activation flag, in document order. The language version is populated
    /// exactly when a runtime section is configured.
    pub fn build_context(config: &Config) -> (ctx: TemplateContext)
        ensures
            spec_context_of(ctx, *config),
    {
        let models_json = json_of_string_map(config.assistant_models());
        let plugins = config.plugins_vec();
        let ghost cplugins = config.spec_v0_1().plugins@;
        let mut active: Vec<String> = Vec::new();
        let mut inactive: Vec<String> = Vec::new();
        let mut i: usize = 0;
        proof {
            assert(cplugins.take(0) =~= Seq::<crate::config::v0_1::PluginConfig>::empty());
        }
        while i < plugins.len()
            invariant
                i <= plugins@.len(),
                plugins@.len() == cplugins.len(),
                forall|k: int|
                    0 <= k < cplugins.len() ==> {
                        let v = #[trigger] plugins@[k];
                        &&& v.name == cplugins[k].name
                        &&& v.activate == cplugins[k].activate
                    },
                active@ == spec_filter_names(cplugins.take(i as int), true),
                inactive@ == spec_filter_names(cplugins.take(i as int), false),
            decreases plugins@.len() - i,
        {
            proof {
                lemma_filter_names_snoc(cplugins.take(i as int), cplugins[i as int], true);
                lemma_filter_names_snoc(cplugins.take(i as int), cplugins[i as int], false);
                assert(cplugins.take(i as int).push(cplugins[i as int]) =~= cplugins.take(i + 1));
            }
            if plugins[i].activate {
                active.push(plugins[i].name.clone());
                proof {
                    assert(active@ =~= spec_filter_names(cplugins.take(i as int), true) + seq![
                        cplugins[i as int].name,
                    ]);
                    assert(inactive@ =~= spec_filter_names(cplugins.take(i as int), false)
                        + Seq::<String>::empty());
                }
            } else {
                inactive.push(plugins[i].name.clone());
                proof {
                    assert(inactive@ =~= spec_filter_names(cplugins.take(i as int), false) + seq![
                        cplugins[i as int].name,
                    ]);
                    assert(active@ =~= spec_filter_names(cplugins.take(i as int), true)
                        + Seq::<String>::empty());
                }
            }
            i = i + 1;
        }
        proof {
            assert(cplugins.take(cplugins.len() as int) =~= cplugins);
        }
        let runtime = config.runtime();
        let proxy = config.proxy();
        let (proxy_http, proxy_https, proxy_no_proxy, proxy_enabled) = match proxy {
            Some(p) => (p.http, p.https, p.no_proxy, true),
            None => (None, None, None, false),
        };
        TemplateContext {
            project_name: config.name.clone(),
            docker_image: config.docker_image().to_owned(),
            lang_version: match runtime {
                Some(rt) => Some(rt.version),
                None => None,
            },
            assistant_version: config.assistant_version().to_owned(),
            assistant_provider: config.assistant_provider().to_owned(),
            assistant_models_json: models_json,
            proxy_http,
            proxy_https,
            proxy_no_proxy,
            proxy_enabled,
            assistant_activate_plugins: active,
            assistant_deactivate_plugins: inactive,
        }
    }

    /// Build the context from the configuration, then render the named
    /// template with it.
    pub fn render_with_config(&self, name: &str, config: &Config) -> (r: Result<String, Error>)
        ensures
            (r is Ok) <==> spec_lookup(self.templates@, name@) is Some,
            r matches Ok(s) ==> exists|ctx: TemplateContext|
                spec_context_of(ctx, *config) && s@ == spec_render(
                    spec_lookup(self.templates@, name@)->Some_0,
                    ctx,
                ),
            r matches Err(e) ==> e matches Error::InvalidTemplate(_),
    {
        let context = Self::build_context(config);
        let r = self.render_template(name, &context);
        proof {
            if r is Ok {
                assert(spec_context_of(context, *config) && r->Ok_0@ == spec_render(
                    spec_lookup(self.templates@, name@)->Some_0,
                    context,
                ));
            }
        }
        r
    }
}

impl Default for TemplateEngine {
    /// The engine with the built-in templates.
    fn default() -> (r: Self)
        ensures
            r.templates@.len() == 3,
    {
        match Self::new() {
            Ok(e) => e,
            Err(_) => TemplateEngine { templates: Vec::new() },
        }
    }
}

/// Built-in container descriptor template.
pub const BUILTIN_DEVCONTAINER_TEMPLATE: &'static str =
    "{\n  \"name\": \"{{project_name}} - Isolde Environment\",\n  \"build\": {\n    \"dockerfile\": \"Dockerfile\",\n    \"context\": \"..\"\n  },\n  \"features\": {\n    \"{{features_proxy}}\": {\n      \"http_proxy\": \"{{proxy_http}}\",\n      \"https_proxy\": \"{{proxy_https}}\",\n      \"no_proxy\": \"{{proxy_no_proxy}}\"\n    },\n    \"{{features_assistant}}\": {\n      \"version\": \"{{assistant_version}}\",\n      \"provider\": \"{{assistant_provider}}\",\n      \"models\": {{assistant_models_json}}\n    },\n    \"{{features_plugin_manager}}\": {\n      \"activate_plugins\": [{{assistant_activate_plugins}}],\n      \"deactivate_plugins\": [{{assistant_deactivate_plugins}}]\n    }\n  },\n  \"workspaceFolder\": \"/workspaces/{{project_name}}\"\n}\n";

/// Built-in container build file template.
pub const BUILTIN_DOCKERFILE_TEMPLATE: &'static str =
    "ARG BASE_IMAGE={{docker_image}}\nFROM ${BASE_IMAGE}\n\nARG USERNAME=user\nARG LANG_VERSION={{lang_version}}\n\nWORKDIR /workspaces\n\nUSER ${USERNAME}\n";

/// Built-in assistant configuration template.
pub const BUILTIN_ASSISTANT_CONFIG_TEMPLATE: &'static str =
    "{\n  \"provider\": \"{{assistant_provider}}\",\n  \"models\": {{assistant_models_json}}\n}\n";

} // verus!
