//! Rendering posts through Jinja templates with minijinja: the library builds
//! the template context and renders blocks for the template's `render_block`
//! function; minijinja runs the template.
use vstd::prelude::*;

use crate::context::{render_context, render_context_value};
use crate::post::Post;
use crate::template::DEFAULT_TEMPLATE;
use crate::value::{render_block_from_value, TemplateValue};
use crate::opt_view;
use minijinja::value::ValueKind;
use minijinja::Value;

verus! {

#[verifier::external_type_specification]
#[verifier::external_body]
pub struct ExEngineValue(Value);

/// What minijinja makes of the template `source`, added under the name `name`
/// and rendered with `context`, with the `render_block` function available:
/// the page, or the text of the engine's error.
pub uninterp spec fn rendered(name: Seq<char>, source: Seq<char>, context: TemplateValue) -> Result<Seq<char>, Seq<char>>;

/// The text of the error minijinja reports when it adds the template `source`
/// under the name `name`, if it reports one.
pub uninterp spec fn template_error(name: Seq<char>, source: Seq<char>) -> Option<Seq<char>>;

/// The engine's value for a template value, built with minijinja's
/// `Value` constructors, one for one. Trusted for nothing.
#[verifier::external_body]
fn engine_value(v: &TemplateValue) -> Value {
    match v {
        TemplateValue::Undefined => Value::UNDEFINED,
        TemplateValue::Null => Value::from(()),
        TemplateValue::Bool(b) => Value::from(*b),
        TemplateValue::Int(n) => Value::from(*n),
        TemplateValue::UInt(n) => Value::from(*n),
        TemplateValue::Str(s) => Value::from(s.as_str()),
        TemplateValue::List(items) => items.iter().map(engine_value).collect(),
        TemplateValue::Dict(e) => Value::from_pairs(e.iter().map(|(k, x)| (k.as_str(), engine_value(x)))),
        TemplateValue::Other { number: Some(n), .. } => Value::from(*n),
        TemplateValue::Other { truthy, .. } => Value::from(*truthy),
    }
}

/// The template value that an engine value reads as, by its kind: a number is
/// read through `Value::as_i64` and `Value::is_true`. Trusted for nothing.
#[verifier::external_body]
fn template_value(v: &Value) -> TemplateValue {
    match v.kind() {
        ValueKind::Undefined => TemplateValue::Undefined,
        ValueKind::None => TemplateValue::Null,
        ValueKind::Bool => TemplateValue::Bool(v.is_true()),
        ValueKind::String => TemplateValue::Str(v.to_string()),
        ValueKind::Seq => TemplateValue::List(v.try_iter().into_iter().flatten().map(|x| template_value(&x)).collect()),
        ValueKind::Map => TemplateValue::Dict(v.try_iter().into_iter().flatten().map(|k| (k.to_string(), template_value(&v.get_item(&k).unwrap_or_default()))).collect()),
        _ => TemplateValue::Other { number: v.as_i64(), truthy: v.is_true() },
    }
}

/// The HTML that the template function `render_block` gives for a block value.
fn render_engine_block(block: &Value) -> (res: String) {
    render_block_from_value(&template_value(block))
}

/// Adds a template to a minijinja `Environment` to see whether it parses.
/// Trusted: the result is the text of the error named `template_error` of the
/// name and the source.
#[verifier::external_body]
fn check_template(name: &str, source: &str) -> (res: Option<String>)
    ensures
        opt_view(res) == template_error(name@, source@),
{
    minijinja::Environment::new().add_template(name, source).err().map(|e| e.to_string())
}

/// Renders a template with minijinja: adds `render_block`, then the template
/// under `name`, and renders it with the context. Trusted: the page, or the text
/// of the error, is the value named `rendered` of the name, the source and the
/// context.
#[verifier::external_body]
fn render_template(name: &str, source: &str, context: &TemplateValue) -> (res: Result<String, String>)
    ensures
        match res {
            Ok(s) => rendered(name@, source@, *context) == Ok::<Seq<char>, Seq<char>>(s@),
            Err(m) => rendered(name@, source@, *context) == Err::<Seq<char>, Seq<char>>(m@),
        },
{
    let mut env = minijinja::Environment::new();
    env.add_function("render_block", |block: Value| render_engine_block(&block));
    let added = env.add_template(name, source);
    let page = added.and_then(|()| env.get_template(name)).and_then(|t| t.render(engine_value(context)));
    page.map_err(|e| e.to_string())
}

/// An optional link by its characters.
pub open spec fn href_view(o: Option<&str>) -> Option<Seq<char>> {
    match o {
        Some(h) => Some(h@),
        None => None,
    }
}

/// Template renderer for Tumblr posts: a template source and the name it is
/// registered under.
#[derive(Debug)]
pub struct PostRenderer {
    pub source: String,
    pub template_name: String,
}

impl PostRenderer {
    /// Creates a new renderer with the default template
    pub fn new() -> (res: PostRenderer)
        ensures
            res.source@ == DEFAULT_TEMPLATE@,
            res.template_name@ == "post"@,
    {
        PostRenderer { source: String::from_str(DEFAULT_TEMPLATE), template_name: String::from_str("post") }
    }

    /// Creates a new renderer with a custom template string, or the template
    /// engine's error when the template does not parse.
    pub fn with_template(template_source: &str) -> (res: Result<PostRenderer, String>)
        ensures
            match res {
                Ok(r) => template_error("post"@, template_source@) is None && r.source@ == template_source@
                    && r.template_name@ == "post"@,
                Err(m) => template_error("post"@, template_source@) == Some(m@),
            },
    {
        match check_template("post", template_source) {
            Some(m) => Err(m),
            None => Ok(PostRenderer { source: String::from_str(template_source), template_name: String::from_str("post") }),
        }
    }

    /// Renders a post to HTML
    ///
    /// `newer_href` is an optional relative link to the next-newer post for navigation.
    pub fn render(&self, post: &Post, newer_href: Option<&str>) -> (res: Result<String, String>)
        ensures
            exists|ctx: TemplateValue|
                #[trigger] render_context_value(*post, href_view(newer_href), ctx) && match res {
                    Ok(s) => rendered(self.template_name@, self.source@, ctx) == Ok::<Seq<char>, Seq<char>>(s@),
                    Err(m) => rendered(self.template_name@, self.source@, ctx) == Err::<Seq<char>, Seq<char>>(m@),
                },
    {
        let ctx = render_context(post, newer_href);
        render_template(self.template_name.as_str(), self.source.as_str(), &ctx)
    }
}

impl Default for PostRenderer {
    fn default() -> (res: PostRenderer)
        ensures
            res.source@ == DEFAULT_TEMPLATE@,
            res.template_name@ == "post"@,
    {
        PostRenderer::new()
    }
}

} // verus!
