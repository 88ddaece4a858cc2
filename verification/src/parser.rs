//! The document query layer: fixed selectors over a real HTML parser.
//!
//! The extraction policy itself lives in `model` and is verified over the
//! plain document model; this module only reduces a parsed page to that
//! model.  The HTML parser and selector engine are an outside crate,
//! reached through the trusted declarations below; a parsed tree is opaque
//! here, so nothing is claimed about what these calls return — the exact
//! contracts sit on the model.

use vstd::prelude::*;

use crate::error::DatapassError;
use crate::model;
use crate::model::DocModel;
use crate::model::SectionModel;
use crate::types::DataUsage;

verus! {

#[verifier::external_type_specification]
#[verifier::external_body]
pub struct ExHtml(scraper::Html);

#[verifier::external_type_specification]
#[verifier::external_body]
pub struct ExSelector(scraper::Selector);

#[verifier::external_type_specification]
#[verifier::external_body]
pub struct ExElementRef<'a>(scraper::ElementRef<'a>);

/// Relies on `scraper::Html::parse_document`: parses HTML text into a
/// tree.  Parsing does not fail hard; a malformed page still yields a
/// tree.
#[verifier::external_body]
fn parse_document(html: &str) -> scraper::Html {
    scraper::Html::parse_document(html)
}

/// Relies on `scraper::Selector::parse`: compiles a CSS selector group,
/// or describes why the selector text is invalid.
#[verifier::external_body]
fn parse_selector(src: &str) -> Result<scraper::Selector, String> {
    scraper::Selector::parse(src).map_err(|e| format!("{e}"))
}

/// Relies on `scraper::Html::select`: the elements matching the selector,
/// in document order.
#[verifier::external_body]
fn select_all<'a>(doc: &'a scraper::Html, sel: &scraper::Selector) -> Vec<
    scraper::ElementRef<'a>,
> {
    doc.select(sel).collect()
}

/// Relies on `scraper::ElementRef::select`: the matching descendant
/// elements, in document order.
#[verifier::external_body]
fn select_in<'a>(el: &scraper::ElementRef<'a>, sel: &scraper::Selector) -> Vec<
    scraper::ElementRef<'a>,
> {
    el.select(sel).collect()
}

/// Relies on `scraper::ElementRef::text`: the element's descendant text
/// nodes, concatenated here in order.
#[verifier::external_body]
fn element_text<'a>(el: &scraper::ElementRef<'a>) -> String {
    el.text().collect()
}

/// Relies on `scraper::ElementRef::attr`: the value of the named
/// attribute, when the element has it.
#[verifier::external_body]
fn element_attr<'a>(el: &scraper::ElementRef<'a>, name: &str) -> Option<String> {
    el.attr(name).map(str::to_string)
}

/// The text of the first element matching `sel`, when one exists.
fn first_text(doc: &scraper::Html, sel: &scraper::Selector) -> Option<String> {
    let els = select_all(doc, sel);
    if els.len() > 0 {
        Some(element_text(&els[0]))
    } else {
        None
    }
}

/// The text of the first descendant of `el` matching `sel`, when one
/// exists.
fn first_text_in<'a>(el: &scraper::ElementRef<'a>, sel: &scraper::Selector) -> Option<String> {
    let cells = select_in(el, sel);
    if cells.len() > 0 {
        Some(element_text(&cells[0]))
    } else {
        None
    }
}

/// Reduces a parsed page to the document model, with the four fixed
/// selector families: the document title, the usage sections, the value
/// cells within a section, and the informational rows.  The only failure
/// is a rejected selector, surfaced instead of a panic.
fn build_doc_model(doc: &scraper::Html) -> (r: Result<DocModel, DatapassError>)
    ensures
        r matches Err(e) ==> e matches DatapassError::MalformedMarkup(_),
{
    let title_sel = match parse_selector("title") {
        Ok(s) => s,
        Err(m) => {
            return Err(DatapassError::MalformedMarkup(m));
        },
    };
    let section_sel = match parse_selector("section.data-pass-instance") {
        Ok(s) => s,
        Err(m) => {
            return Err(DatapassError::MalformedMarkup(m));
        },
    };
    let remaining_sel = match parse_selector("div.remaining-volume-value") {
        Ok(s) => s,
        Err(m) => {
            return Err(DatapassError::MalformedMarkup(m));
        },
    };
    let total_sel = match parse_selector("div.start-volume") {
        Ok(s) => s,
        Err(m) => {
            return Err(DatapassError::MalformedMarkup(m));
        },
    };
    let info_sel = match parse_selector("div.info-row") {
        Ok(s) => s,
        Err(m) => {
            return Err(DatapassError::MalformedMarkup(m));
        },
    };
    let unlimited_sel = match parse_selector("div.unlimited-indicator") {
        Ok(s) => s,
        Err(m) => {
            return Err(DatapassError::MalformedMarkup(m));
        },
    };
    let root_sel = match parse_selector("html") {
        Ok(s) => s,
        Err(m) => {
            return Err(DatapassError::MalformedMarkup(m));
        },
    };

    let title = first_text(doc, &title_sel);
    let body_text = match first_text(doc, &root_sel) {
        Some(t) => t,
        None => String::new(),
    };

    let els = select_all(doc, &section_sel);
    let mut sections: Vec<SectionModel> = Vec::new();
    let mut i: usize = 0;
    while i < els.len()
        invariant
            0 <= i <= els@.len(),
        decreases els@.len() - i,
    {
        let el = &els[i];
        let id = element_attr(el, "id");
        let remaining = first_text_in(el, &remaining_sel);
        let total = first_text_in(el, &total_sel);
        let unlimited = select_in(el, &unlimited_sel).len() > 0;
        sections.push(SectionModel { id, remaining, total, unlimited });
        i = i + 1;
    }

    let row_els = select_all(doc, &info_sel);
    let mut info_rows: Vec<String> = Vec::new();
    let mut i: usize = 0;
    while i < row_els.len()
        invariant
            0 <= i <= row_els@.len(),
        decreases row_els@.len() - i,
    {
        info_rows.push(element_text(&row_els[i]));
        i = i + 1;
    }

    Ok(DocModel { title, sections, info_rows, body_text })
}

/// Parses a complete HTML document and runs one extraction pass over it:
/// the parsed tree is reduced to the document model by the verified
/// `build_doc_model`, then `model::extract_usage` does the verified work
/// and answers exactly per `model::usage_result_matches` for that model.
/// The parse result itself is opaque here, so this contract says only
/// what survives the boundary: a success is a well-formed record.
pub fn parse_html(html: &str) -> (r: Result<DataUsage, DatapassError>)
    ensures
        r matches Ok(u) ==> u.wf(),
{
    let doc = parse_document(html);
    match build_doc_model(&doc) {
        Ok(m) => model::extract_usage(&m),
        Err(e) => Err(e),
    }
}

} // verus!
