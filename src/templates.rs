use vstd::prelude::*;

verus! {

/// A page template wrapped so that it can be turned into an HTML response.
pub struct HtmlTemplate<T>(pub T);

/// The greeting page: it greets `name`.
pub struct Hello<'a> {
    pub name: &'a str,
}

/// Builds the greeting page for `name`, ready to be rendered as HTML.
pub fn hello<'a>(name: &'a str) -> (r: HtmlTemplate<Hello<'a>>)
    ensures
        r.0.name@ == name@,
{
    let hello_template = Hello { name };
    HtmlTemplate(hello_template)
}

} // verus!
