//! Rendering of text templates by the `handlebars` crate.
//!
//! The registry of the crate is used as it comes: a template and, where the
//! template includes one, a partial are registered under their names, and the
//! template is rendered with a list of named text fields. What the crate makes
//! of a template is not described here; it is given a name, and the contracts
//! of this module say which template, which names and which fields reach it.
//!
//! Only the templates that this crate holds itself are handed to the
//! registry, each with the partial that belongs to it: of a template from
//! elsewhere nothing is known, not even that its rendering comes to an end.

use vstd::prelude::*;
use crate::strings::str_eq;
use crate::texts::bsd::{
    ATTRIBUTION_FOURTH, BSD_NAME, EMPTY, FOURTH_NAME, MODIFICATION_FOURTH, TEXT,
};
use crate::texts::gnu::{DISCLAIMER, DISCLAIMER_NAME, NOTICE, NOTICE_NAME};
use crate::texts::mit::{MIT, MIT_NAME};

verus! {

/// The registry of `handlebars`, `handlebars::Handlebars`. Nothing is known
/// of what it holds but what `registered` names.
#[verifier::external_type_specification]
#[verifier::external_body]
pub struct ExRegistry<'reg>(handlebars::Handlebars<'reg>);

/// The error with which `handlebars` refuses a template,
/// `handlebars::TemplateError`. It is carried to the caller unread.
#[verifier::external_type_specification]
#[verifier::external_body]
pub struct ExTemplateError(handlebars::TemplateError);

/// The error with which `handlebars` fails to render,
/// `handlebars::RenderError`. It is carried to the caller unread.
#[verifier::external_type_specification]
#[verifier::external_body]
pub struct ExRenderError(handlebars::RenderError);

/// The templates that a registry holds: the source text of each, by the
/// name under which it was registered.
pub uninterp spec fn registered(registry: handlebars::Handlebars<'static>) -> Map<
    Seq<char>,
    Seq<char>,
>;

/// Whether `Handlebars::register_template_string` accepts `template`.
pub uninterp spec fn compiles(template: Seq<char>) -> bool;

/// Whether `Handlebars::register_partial` accepts `partial`.
pub uninterp spec fn partial_compiles(partial: Seq<char>) -> bool;

/// What `Handlebars::render` makes of the template `name` among `templates`
/// when it is given `fields` as data, or nothing where it fails. The registry
/// is one that `Handlebars::new` made and that nothing but a registration
/// has changed since.
pub uninterp spec fn rendering(
    templates: Map<Seq<char>, Seq<char>>,
    name: Seq<char>,
    fields: Seq<(Seq<char>, Seq<char>)>,
) -> Option<Seq<char>>;

/// The names and values of a list of fields.
pub open spec fn pairs(fields: Seq<(String, String)>) -> Seq<(Seq<char>, Seq<char>)> {
    fields.map_values(|f: (String, String)| (f.0@, f.1@))
}

/// One field where `value` is present, none where it is absent.
pub open spec fn optional_field(name: Seq<char>, value: Option<Seq<char>>) -> Seq<
    (Seq<char>, Seq<char>),
> {
    match value {
        Some(v) => seq![(name, v)],
        None => Seq::empty(),
    }
}

/// Whether `template` is one of the templates of this crate.
pub open spec fn built_in_template(template: Seq<char>) -> bool {
    template == MIT@ || template == TEXT@ || template == DISCLAIMER@ || template == NOTICE@
}

/// Whether `partial` is one of the fourth clauses of the BSD license.
pub open spec fn built_in_partial(partial: Seq<char>) -> bool {
    partial == EMPTY@ || partial == ATTRIBUTION_FOURTH@ || partial == MODIFICATION_FOURTH@
}

/// Whether `template` under `name`, with `partial` beside it, is a template
/// of this crate with what belongs to it: the MIT license, the disclaimer or
/// the notice of the GNU licenses, each alone, or the BSD license with one of
/// its fourth clauses.
pub open spec fn built_in(
    name: Seq<char>,
    template: Seq<char>,
    partial: Option<(Seq<char>, Seq<char>)>,
) -> bool {
    ||| name == MIT_NAME@ && template == MIT@ && partial is None
    ||| name == DISCLAIMER_NAME@ && template == DISCLAIMER@ && partial is None
    ||| name == NOTICE_NAME@ && template == NOTICE@ && partial is None
    ||| name == BSD_NAME@ && template == TEXT@ && match partial {
        Some(p) => p.0 == FOURTH_NAME@ && built_in_partial(p.1),
        None => false,
    }
}

/// The templates that are registered when `template` is rendered under `name`.
pub open spec fn templates_for(
    name: Seq<char>,
    template: Seq<char>,
    partial: Option<(Seq<char>, Seq<char>)>,
) -> Map<Seq<char>, Seq<char>> {
    match partial {
        Some(p) => Map::empty().insert(name, template).insert(p.0, p.1),
        None => Map::empty().insert(name, template),
    }
}

/// Whether `templates` are a template of this crate under `name`, with what
/// belongs to it, and nothing else.
pub open spec fn stocked(templates: Map<Seq<char>, Seq<char>>, name: Seq<char>) -> bool {
    exists|template: Seq<char>, partial: Option<(Seq<char>, Seq<char>)>|
        built_in(name, template, partial) && templates == #[trigger] templates_for(
            name,
            template,
            partial,
        )
}

/// Whether no two of `fields` have the same name.
pub open spec fn distinct_names(fields: Seq<(Seq<char>, Seq<char>)>) -> bool {
    forall|i: int, j: int| 0 <= i < j < fields.len() ==> fields[i].0 != fields[j].0
}

/// Calls `Handlebars::new`. Taken on trust: the new registry holds no template.
#[verifier::external_body]
fn new_registry() -> (registry: handlebars::Handlebars<'static>)
    ensures
        registered(registry) =~= Map::empty(),
{
    handlebars::Handlebars::new()
}

/// Calls `Handlebars::register_template_string` with a template of this
/// crate. Taken on trust: whether the call succeeds depends on the template's
/// text alone; where it does, the text is kept under `name`, in place of what
/// the name held before, and where it fails the registry is left as it was.
#[verifier::external_body]
fn register_template_string(
    registry: &mut handlebars::Handlebars<'static>,
    name: &str,
    template: &str,
) -> (r: Result<(), handlebars::TemplateError>)
    requires
        built_in_template(template@),
    ensures
        r is Ok <==> compiles(template@),
        r is Ok ==> registered(*final(registry)) == registered(*old(registry)).insert(
            name@,
            template@,
        ),
        r is Err ==> registered(*final(registry)) == registered(*old(registry)),
{
    registry.register_template_string(name, template)
}

/// Calls `Handlebars::register_partial`, which keeps a partial as it keeps
/// any template, with a fourth clause of this crate. Taken on trust: the same
/// as for a template.
#[verifier::external_body]
fn register_partial(registry: &mut handlebars::Handlebars<'static>, name: &str, partial: &str) -> (r:
    Result<(), handlebars::TemplateError>)
    requires
        built_in_partial(partial@),
    ensures
        r is Ok <==> partial_compiles(partial@),
        r is Ok ==> registered(*final(registry)) == registered(*old(registry)).insert(
            name@,
            partial@,
        ),
        r is Err ==> registered(*final(registry)) == registered(*old(registry)),
{
    registry.register_partial(name, partial)
}

/// Calls `Handlebars::render` with the fields as a map from name to text;
/// no two fields have the same name, so the map holds each of them. The
/// registry holds a template of this crate under `name`, with what belongs
/// to it, and none of these templates includes a template that includes it
/// in turn. Taken on trust: the call gives a text or fails, and which of the
/// two, and which text, depends on the registered templates, the name and
/// the fields alone.
#[verifier::external_body]
fn render(registry: &handlebars::Handlebars<'static>, name: &str, fields: &Vec<(String, String)>) -> (r:
    Result<String, handlebars::RenderError>)
    requires
        stocked(registered(*registry), name@),
        distinct_names(pairs(fields@)),
    ensures
        match r {
            Ok(text) => rendering(registered(*registry), name@, pairs(fields@)) == Some(text@),
            Err(_) => rendering(registered(*registry), name@, pairs(fields@)) is None,
        },
{
    let data: std::collections::BTreeMap<&str, &str> =
        fields.iter().map(|f| (f.0.as_str(), f.1.as_str())).collect();
    registry.render(name, &data)
}

/// Why a template gave no text.
#[derive(Debug)]
pub enum TemplateFault {
    /// The template was not accepted.
    Template(handlebars::TemplateError),
    /// The partial was not accepted.
    Partial(handlebars::TemplateError),
    /// The template was accepted and could not be rendered.
    Render(handlebars::RenderError),
}

/// A partial: its name and its text.
#[derive(Debug, Clone, Copy)]
pub struct Partial<'a> {
    pub name: &'a str,
    pub text: &'a str,
}

/// Whether the template and its partial are both accepted.
pub open spec fn accepted(template: Seq<char>, partial: Option<(Seq<char>, Seq<char>)>) -> bool {
    compiles(template) && (partial matches Some(p) ==> partial_compiles(p.1))
}

/// The text that `template`, registered as `name` beside `partial`, yields
/// for `fields`; nothing where the template or the partial is not accepted
/// or the rendering fails.
pub open spec fn rendered(
    name: Seq<char>,
    template: Seq<char>,
    partial: Option<(Seq<char>, Seq<char>)>,
    fields: Seq<(Seq<char>, Seq<char>)>,
) -> Option<Seq<char>> {
    if accepted(template, partial) {
        rendering(templates_for(name, template, partial), name, fields)
    } else {
        None
    }
}

/// The name and text of an optional partial.
pub open spec fn partial_view(partial: Option<Partial<'_>>) -> Option<(Seq<char>, Seq<char>)> {
    match partial {
        Some(p) => Some((p.name@, p.text@)),
        None => None,
    }
}

/// Whether `fault` is the one that stands for what went wrong: the first of
/// the template not being accepted, the partial not being accepted, and the
/// rendering failing.
pub open spec fn explains(
    fault: TemplateFault,
    name: Seq<char>,
    template: Seq<char>,
    partial: Option<(Seq<char>, Seq<char>)>,
    fields: Seq<(Seq<char>, Seq<char>)>,
) -> bool {
    match fault {
        TemplateFault::Template(_) => !compiles(template),
        TemplateFault::Partial(_) => compiles(template) && !accepted(template, partial),
        TemplateFault::Render(_) => accepted(template, partial) && rendered(
            name,
            template,
            partial,
            fields,
        ) is None,
    }
}

/// What rendering returns: the text, or the fault that stands for what
/// went wrong.
pub open spec fn render_outcome(
    r: Result<String, TemplateFault>,
    name: Seq<char>,
    template: Seq<char>,
    partial: Option<(Seq<char>, Seq<char>)>,
    fields: Seq<(Seq<char>, Seq<char>)>,
) -> bool {
    match r {
        Ok(text) => rendered(name, template, partial, fields) == Some(text@),
        Err(fault) => explains(fault, name, template, partial, fields),
    }
}

/// Registers `template` under `name` in a fresh registry, then `partial`
/// where there is one, and renders the template with `fields`. The template
/// is one of this crate, with the partial that belongs to it, and no two
/// fields have the same name.
pub fn render_template(
    name: &str,
    template: &str,
    partial: Option<Partial<'_>>,
    fields: &Vec<(String, String)>,
) -> (r: Result<String, TemplateFault>)
    requires
        built_in(name@, template@, partial_view(partial)),
        distinct_names(pairs(fields@)),
    ensures
        render_outcome(r, name@, template@, partial_view(partial), pairs(fields@)),
{
    let mut registry = new_registry();
    match register_template_string(&mut registry, name, template) {
        Ok(_) => {},
        Err(e) => {
            return Err(TemplateFault::Template(e));
        },
    }
    match partial {
        Some(p) => {
            match register_partial(&mut registry, p.name, p.text) {
                Ok(_) => {},
                Err(e) => {
                    return Err(TemplateFault::Partial(e));
                },
            }
        },
        None => {},
    }
    assert(registered(registry) == templates_for(name@, template@, partial_view(partial)));
    match render(&registry, name, fields) {
        Ok(text) => Ok(text),
        Err(e) => Err(TemplateFault::Render(e)),
    }
}

/// Whether `template` under `name`, with `partial` beside it, is a template
/// of this crate with what belongs to it.
pub fn is_built_in(name: &str, template: &str, partial: Option<Partial<'_>>) -> (known: bool)
    ensures
        known == built_in(name@, template@, partial_view(partial)),
{
    match partial {
        None => {
            (str_eq(name, MIT_NAME) && str_eq(template, MIT)) || (str_eq(name, DISCLAIMER_NAME)
                && str_eq(template, DISCLAIMER)) || (str_eq(name, NOTICE_NAME) && str_eq(
                template,
                NOTICE,
            ))
        },
        Some(p) => {
            str_eq(name, BSD_NAME) && str_eq(template, TEXT) && str_eq(p.name, FOURTH_NAME) && (
            str_eq(p.text, EMPTY) || str_eq(p.text, ATTRIBUTION_FOURTH) || str_eq(
                p.text,
                MODIFICATION_FOURTH,
            ))
        },
    }
}

/// Whether no two of `fields` have the same name.
pub fn names_are_distinct(fields: &Vec<(String, String)>) -> (distinct: bool)
    ensures
        distinct == distinct_names(pairs(fields@)),
{
    let n = fields.len();
    let ghost named = pairs(fields@);
    let mut j: usize = 0;
    while j < n
        invariant
            j <= n,
            n == fields@.len(),
            named == pairs(fields@),
            forall|a: int, b: int| 0 <= a < b < j ==> named[a].0 != named[b].0,
        decreases n - j,
    {
        let mut i: usize = 0;
        while i < j
            invariant
                i <= j < n,
                n == fields@.len(),
                named == pairs(fields@),
                forall|a: int| 0 <= a < i ==> named[a].0 != named[j as int].0,
            decreases j - i,
        {
            if fields[i].0 == fields[j].0 {
                assert(named[i as int].0 == named[j as int].0);
                return false;
            }
            i = i + 1;
        }
        j = j + 1;
    }
    true
}

/// Renders `template` as `render_template` does where it is one of this
/// crate, with the partial that belongs to it, and no two fields have the
/// same name; renders nothing otherwise.
pub fn try_render_template(
    name: &str,
    template: &str,
    partial: Option<Partial<'_>>,
    fields: &Vec<(String, String)>,
) -> (r: Option<Result<String, TemplateFault>>)
    ensures
        r is Some <==> built_in(name@, template@, partial_view(partial)) && distinct_names(
            pairs(fields@),
        ),
        r matches Some(outcome) ==> render_outcome(
            outcome,
            name@,
            template@,
            partial_view(partial),
            pairs(fields@),
        ),
{
    if is_built_in(name, template, partial) && names_are_distinct(fields) {
        Some(render_template(name, template, partial, fields))
    } else {
        None
    }
}

} // verus!
