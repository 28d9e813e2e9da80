use vstd::prelude::*;

use crate::matching::name_set;

verus! {

#[verifier::external_type_specification]
#[verifier::external_body]
pub struct ExTera(tera::Tera);

#[verifier::external_type_specification]
#[verifier::external_body]
pub struct ExTeraError(tera::Error);

/// The names under which a template engine holds its templates.
pub uninterp spec fn template_set(t: tera::Tera) -> Set<Seq<char>>;

/// Relies on `tera::Tera::get_template_names`: it walks the keys of the
/// engine's template map, so it yields each registered name.
#[verifier::external_body]
pub(crate) fn template_names(t: &tera::Tera) -> (r: Vec<String>)
    ensures
        name_set(r.deep_view()) == template_set(*t),
{
    t.get_template_names().map(|s| s.to_string()).collect()
}

/// The status of a page that rendered.
pub const STATUS_OK: u16 = 200;

/// The status of a page whose template failed to render.
pub const STATUS_RENDER_FAILED: u16 = 500;

/// A response produced by the middleware itself.
pub struct Page {
    pub status: u16,
    pub body: String,
}

/// The response for the outcome of a render: the rendered text with status
/// 200, or an empty body with status 500 when rendering failed.
pub fn page_from_render(rendered: Result<String, tera::Error>) -> (p: Page)
    ensures
        match rendered {
            Ok(text) => p.status == STATUS_OK && p.body@ == text@,
            Err(_) => p.status == STATUS_RENDER_FAILED && p.body@.len() == 0,
        },
{
    match rendered {
        Ok(text) => Page { status: STATUS_OK, body: text },
        Err(_) => Page { status: STATUS_RENDER_FAILED, body: String::new() },
    }
}

} // verus!
