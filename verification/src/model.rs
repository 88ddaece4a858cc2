//! The document model and the extraction policy over it.
//!
//! The query layer reduces a parsed page to this plain model: the title
//! text, the usage sections in document order (each with its identifier,
//! its raw value-cell texts and its unlimited indicator), the info-row
//! texts, and the full body text.  Everything here is specified and
//! verified over that model, independent of any real markup parser.

use vstd::prelude::*;

use crate::error::DatapassError;
use crate::num;
use crate::text;
use crate::types::DataUsage;
use crate::types::GbQuantity;

verus! {

/// One usage section of the page: a structural block representing one
/// active data-pass instance.
#[derive(Debug, Clone)]
pub struct SectionModel {
    /// The section's identifier attribute, when present.
    pub id: Option<String>,
    /// Raw text of the section's remaining-volume cell, when present.
    pub remaining: Option<String>,
    /// Raw text of the section's start-volume (total) cell, when present.
    pub total: Option<String>,
    /// Whether the section carries an explicit unlimited-plan indicator.
    pub unlimited: bool,
}

/// Everything the extraction policy reads from a parsed page.
#[derive(Debug, Clone)]
pub struct DocModel {
    /// Text of the document title element, when present.
    pub title: Option<String>,
    /// The usage sections, in document order.
    pub sections: Vec<SectionModel>,
    /// Texts of the informational rows, in document order.
    pub info_rows: Vec<String>,
    /// The full visible text of the document.
    pub body_text: String,
}

/// The reserved identifier of the summation section: it aggregates several
/// underlying passes and is never the authoritative single-plan source.
pub open spec fn summation_id() -> Seq<char> {
    "summationPass"@
}

/// Whether a section is the summation section.
pub open spec fn is_summation(s: SectionModel) -> bool {
    match s.id {
        Some(id) => id@ == summation_id(),
        None => false,
    }
}

/// Whether a section offers both volume values.
pub open spec fn has_volumes(s: SectionModel) -> bool {
    s.remaining is Some && s.total is Some
}

/// What the first qualifying section offers: its two trimmed value texts,
/// or an unlimited plan.
pub enum CandidateView {
    Metered(Seq<char>, Seq<char>),
    Unlimited,
}

/// Scans the sections in document order, skipping the summation section;
/// the first section that offers both values (or, failing that, an
/// unlimited indicator) wins.
pub open spec fn candidate_of(ss: Seq<SectionModel>) -> Option<CandidateView>
    decreases ss.len(),
{
    if ss.len() == 0 {
        None
    } else {
        let s0 = ss[0];
        if is_summation(s0) {
            candidate_of(ss.drop_first())
        } else if has_volumes(s0) {
            Some(
                CandidateView::Metered(
                    text::trim_spec(s0.remaining->0@),
                    text::trim_spec(s0.total->0@),
                ),
            )
        } else if s0.unlimited {
            Some(CandidateView::Unlimited)
        } else {
            candidate_of(ss.drop_first())
        }
    }
}

/// The volumes extracted from the qualifying section.
#[derive(Debug, Clone, Copy, PartialEq, Eq, Structural)]
pub enum Volumes {
    Metered { remaining: GbQuantity, total: GbQuantity },
    Unlimited,
}

/// Whether the lowercased body text reads as an authentication or
/// redirect wall rather than a usage page.
pub open spec fn is_auth_wall(lower_body: Seq<char>) -> bool {
    text::contains_seq(lower_body, "direkter zugriff"@) || text::contains_seq(
        lower_body,
        "direct access to the page not possible"@,
    ) || (text::contains_seq(lower_body, "weiterleitung"@) && text::contains_seq(
        lower_body,
        "nicht m\u{f6}glich"@,
    ))
}

/// The plan name carried by a title text: everything after the first
/// hyphen, with non-breaking spaces normalized and whitespace trimmed;
/// nothing when the title has no hyphen.
pub open spec fn plan_name_of(title: Seq<char>) -> Option<Seq<char>> {
    match text::after_first(title, '-') {
        Some(rest) => Some(text::trim_spec(text::nbsp_normalized(rest))),
        None => None,
    }
}

/// Whether an info row announces a validity date, in English or German.
pub open spec fn row_has_validity(row: Seq<char>) -> bool {
    text::contains_seq(row, "Valid until:"@) || text::contains_seq(row, "G\u{fc}ltig bis:"@)
}

/// The date carried by an info row: everything after the first colon,
/// trimmed.
pub open spec fn validity_of_row(row: Seq<char>) -> Option<Seq<char>> {
    match text::after_first(row, ':') {
        Some(rest) => Some(text::trim_spec(rest)),
        None => None,
    }
}

/// The validity date of the first info row that announces one, if any.
pub open spec fn valid_until_of(rows: Seq<String>) -> Option<Seq<char>>
    decreases rows.len(),
{
    if rows.len() == 0 {
        None
    } else if row_has_validity(rows[0]@) {
        validity_of_row(rows[0]@)
    } else {
        valid_until_of(rows.drop_first())
    }
}

/// Detects an authentication / redirect wall: a case-insensitive substring
/// match of known phrases over the full visible text.  The source site
/// answers unauthenticated requests with such a page and status 200, so
/// content, not transport status, must be inspected.  On ASCII text the
/// lowercasing is the ASCII one, so the second clause pins the answer for
/// concrete ASCII documents without appeal to the lowercasing name.
pub fn classify(body_text: &str) -> (r: bool)
    ensures
        r == is_auth_wall(text::lower_of(body_text@)),
        text::is_ascii_seq(body_text@) ==> r == is_auth_wall(text::ascii_lower(body_text@)),
{
    let lower = text::lowercase(body_text);
    let chars = text::chars_of(lower.as_str());
    if text::contains_chars(&chars, "direkter zugriff") {
        return true;
    }
    if text::contains_chars(&chars, "direct access to the page not possible") {
        return true;
    }
    text::contains_chars(&chars, "weiterleitung") && text::contains_chars(
        &chars,
        "nicht m\u{f6}glich",
    )
}

/// Reads the plan name off the title text: the part after the first
/// hyphen, with non-breaking spaces turned into ordinary spaces, trimmed.
pub fn extract_plan_name(title: &Option<String>) -> (r: Result<String, DatapassError>)
    ensures
        match r {
            Ok(p) => title matches Some(t) && plan_name_of(t@) == Some(p@),
            Err(e) => match title {
                Some(t) => plan_name_of(t@) is None && (e matches DatapassError::StructureNotFound(
                    m,
                ) && m@ == "Could not extract plan name from title"@),
                None => e matches DatapassError::StructureNotFound(m) && m@
                    == "Title not found"@,
            },
        },
{
    match title {
        None => Err(DatapassError::StructureNotFound(String::from_str("Title not found"))),
        Some(t) => {
            let chars = text::chars_of(t.as_str());
            match text::find_char(&chars, '-') {
                None => {
                    proof {
                        text::lemma_after_first_none(t@, '-');
                    }
                    Err(
                        DatapassError::StructureNotFound(
                            String::from_str("Could not extract plan name from title"),
                        ),
                    )
                },
                Some(i) => {
                    proof {
                        text::lemma_after_first_at(t@, '-', i as int);
                    }
                    let rest = text::sub_chars(&chars, i + 1, chars.len());
                    let norm = text::map_nbsp(&rest);
                    let trimmed = text::trim_chars(&norm);
                    Ok(text::string_from_chars(&trimmed))
                },
            }
        },
    }
}

/// Scans the usage sections in document order for the first
/// non-summation section with both volume values (or an unlimited
/// indicator), and reads the two values through the numeric normalizer.
pub fn extract_quantities(sections: &Vec<SectionModel>) -> (r: Result<Volumes, DatapassError>)
    ensures
        match candidate_of(sections@) {
            None => r matches Err(DatapassError::StructureNotFound(m)) && m@
                == "Could not find data usage information"@,
            Some(CandidateView::Unlimited) => r matches Ok(Volumes::Unlimited),
            Some(CandidateView::Metered(rt, tt)) => match r {
                Ok(v) => v matches Volumes::Metered { remaining, total }
                    && num::quantity_nanos(rt) == Some(remaining.nanos as int)
                    && num::quantity_nanos(tt) == Some(total.nanos as int) && remaining.wf()
                    && total.wf(),
                Err(e) => if num::quantity_nanos(rt) is None {
                    e matches DatapassError::NumberFormat { text: et, fault } && et@ == rt
                        && fault == num::quantity_fault(rt)
                } else {
                    num::quantity_nanos(tt) is None && (e matches DatapassError::NumberFormat {
                        text: et,
                        fault,
                    } && et@ == tt && fault == num::quantity_fault(tt))
                },
            },
        },
{
    let n = sections.len();
    proof {
        assert(sections@.subrange(0, n as int) =~= sections@);
    }
    let mut i: usize = 0;
    while i < n
        invariant
            n == sections@.len(),
            0 <= i <= n,
            candidate_of(sections@) == candidate_of(sections@.subrange(i as int, n as int)),
        decreases n - i,
    {
        let ghost pre = sections@.subrange(i as int, n as int);
        proof {
            assert(pre[0] == sections@[i as int]);
            assert(pre.drop_first() =~= sections@.subrange(i + 1 as int, n as int));
        }
        let sec = &sections[i];
        let mut skip = false;
        match &sec.id {
            Some(id) => {
                if text::str_eq(id.as_str(), "summationPass") {
                    skip = true;
                }
            },
            None => {},
        }
        proof {
            assert(skip == is_summation(sections@[i as int]));
        }
        if !skip {
            match (&sec.remaining, &sec.total) {
                (Some(rem_raw), Some(tot_raw)) => {
                    let rem_chars = text::chars_of(rem_raw.as_str());
                    let rem_trim = text::trim_chars(&rem_chars);
                    let rem_text = text::string_from_chars(&rem_trim);
                    let tot_chars = text::chars_of(tot_raw.as_str());
                    let tot_trim = text::trim_chars(&tot_chars);
                    let tot_text = text::string_from_chars(&tot_trim);
                    let remaining = match num::parse_quantity(rem_text.as_str()) {
                        Ok(q) => q,
                        Err(e) => {
                            return Err(e);
                        },
                    };
                    let total = match num::parse_quantity(tot_text.as_str()) {
                        Ok(q) => q,
                        Err(e) => {
                            return Err(e);
                        },
                    };
                    return Ok(Volumes::Metered { remaining, total });
                },
                _ => {},
            }
            if sec.unlimited {
                return Ok(Volumes::Unlimited);
            }
        }
        i = i + 1;
    }
    proof {
        assert(sections@.subrange(i as int, n as int) =~= Seq::<SectionModel>::empty());
    }
    Err(DatapassError::StructureNotFound(String::from_str("Could not find data usage information")))
}

/// Scans the info rows for a validity announcement and reads the date
/// after the first colon.  Absence is not an error: the field is simply
/// unset.
pub fn extract_valid_until(rows: &Vec<String>) -> (r: Option<String>)
    ensures
        match r {
            Some(v) => valid_until_of(rows@) == Some(v@),
            None => valid_until_of(rows@) is None,
        },
{
    let n = rows.len();
    proof {
        assert(rows@.subrange(0, n as int) =~= rows@);
    }
    let mut i: usize = 0;
    while i < n
        invariant
            n == rows@.len(),
            0 <= i <= n,
            valid_until_of(rows@) == valid_until_of(rows@.subrange(i as int, n as int)),
        decreases n - i,
    {
        let ghost pre = rows@.subrange(i as int, n as int);
        proof {
            assert(pre[0] == rows@[i as int]);
            assert(pre.drop_first() =~= rows@.subrange(i + 1 as int, n as int));
        }
        let row = &rows[i];
        let chars = text::chars_of(row.as_str());
        let en = text::contains_chars(&chars, "Valid until:");
        let de = text::contains_chars(&chars, "G\u{fc}ltig bis:");
        if en || de {
            let colon = match text::find_char(&chars, ':') {
                Some(c) => c,
                None => {
                    proof {
                        lemma_validity_row_has_colon(row@, en, de);
                        assert(false);
                    }
                    0
                },
            };
            proof {
                assert(colon < chars@.len());
                text::lemma_after_first_at(row@, ':', colon as int);
            }
            let rest = text::sub_chars(&chars, colon + 1, chars.len());
            let trimmed = text::trim_chars(&rest);
            return Some(text::string_from_chars(&trimmed));
        }
        i = i + 1;
    }
    proof {
        assert(rows@.subrange(i as int, n as int) =~= Seq::<String>::empty());
    }
    None
}

/// A row that announces a validity date holds a colon: the announcing
/// phrase itself ends with one.
proof fn lemma_validity_row_has_colon(row: Seq<char>, en: bool, de: bool)
    requires
        en ==> text::contains_seq(row, "Valid until:"@),
        de ==> text::contains_seq(row, "G\u{fc}ltig bis:"@),
        en || de,
    ensures
        exists|j: int| 0 <= j < row.len() && #[trigger] row[j] == ':',
{
    reveal_strlit("Valid until:");
    reveal_strlit("G\u{fc}ltig bis:");
    if en {
        let ph = "Valid until:"@;
        let w = choose|i: int|
            0 <= i && i + ph.len() <= row.len() && #[trigger] row.subrange(i, i + ph.len()) == ph;
        assert(row.subrange(w, w + ph.len())[11] == row[w + 11]);
        assert(row[w + 11] == ':');
    } else {
        let ph = "G\u{fc}ltig bis:"@;
        let w = choose|i: int|
            0 <= i && i + ph.len() <= row.len() && #[trigger] row.subrange(i, i + ph.len()) == ph;
        assert(row.subrange(w, w + ph.len())[10] == row[w + 10]);
        assert(row[w + 10] == ':');
    }
}

/// Exactly how one extraction pass answers for a given document model:
/// the authentication gate first, then each extractor's success and
/// failure condition, down to the fields of the built record.  This is
/// the contract of `extract_usage`, and — through the named reduction of
/// a document text to its model — of the top-level parse as well.
pub open spec fn usage_result_matches(r: Result<DataUsage, DatapassError>, doc: DocModel) -> bool {
    &&& ((r matches Err(DatapassError::AuthenticationRequired)) <==> is_auth_wall(
        text::lower_of(doc.body_text@),
    ))
    &&& (!is_auth_wall(text::lower_of(doc.body_text@)) ==> match doc.title {
        None => r matches Err(DatapassError::StructureNotFound(m)) && m@ == "Title not found"@,
        Some(t) => match plan_name_of(t@) {
            None => r matches Err(DatapassError::StructureNotFound(m)) && m@
                == "Could not extract plan name from title"@,
            Some(plan) => match candidate_of(doc.sections@) {
                None => r matches Err(DatapassError::StructureNotFound(m)) && m@
                    == "Could not find data usage information"@,
                Some(CandidateView::Unlimited) => r matches Ok(u) && u.is_unlimited && u.wf() && (
                u.plan_name matches Some(p) && p@ == plan) && valid_until_view(u.valid_until)
                    == valid_until_of(doc.info_rows@),
                Some(CandidateView::Metered(rt, tt)) => match (
                    num::quantity_nanos(rt),
                    num::quantity_nanos(tt),
                ) {
                    (Some(rn), Some(tn)) => r matches Ok(u) && !u.is_unlimited && u.wf()
                        && u.remaining.nanos == rn && u.total.nanos == tn && (
                    u.plan_name matches Some(p) && p@ == plan) && valid_until_view(u.valid_until)
                        == valid_until_of(doc.info_rows@),
                    (None, _) => r matches Err(DatapassError::NumberFormat { text: et, fault })
                        && et@ == rt && fault == num::quantity_fault(rt),
                    (Some(_), None) => r matches Err(
                        DatapassError::NumberFormat { text: et, fault },
                    ) && et@ == tt && fault == num::quantity_fault(tt),
                },
            },
        },
    })
}

/// One full extraction pass over the document model: the
/// authentication-wall check gates everything; then the plan name, the
/// volumes and the optional validity date are extracted and the record is
/// built.  Every failure aborts the pass; no partial record is ever
/// returned.
pub fn extract_usage(doc: &DocModel) -> (r: Result<DataUsage, DatapassError>)
    ensures
        usage_result_matches(r, *doc),
{
    if classify(doc.body_text.as_str()) {
        return Err(DatapassError::AuthenticationRequired);
    }
    let plan_name = match extract_plan_name(&doc.title) {
        Ok(p) => p,
        Err(e) => {
            return Err(e);
        },
    };
    let volumes = match extract_quantities(&doc.sections) {
        Ok(v) => v,
        Err(e) => {
            return Err(e);
        },
    };
    let valid_until = extract_valid_until(&doc.info_rows);
    match volumes {
        Volumes::Metered { remaining, total } => Ok(
            DataUsage::new(remaining, total, Some(plan_name), valid_until),
        ),
        Volumes::Unlimited => Ok(DataUsage::unlimited(Some(plan_name), valid_until)),
    }
}

/// The character view of an optional string.
pub open spec fn valid_until_view(v: Option<String>) -> Option<Seq<char>> {
    match v {
        Some(s) => Some(s@),
        None => None,
    }
}

/// Law: an extraction pass over a document that carries a usable title
/// but no qualifying usage section answers with the missing-structure
/// error — never a partial record, and (being a verified total function)
/// never a panic.
pub proof fn lemma_missing_section_fails(r: Result<DataUsage, DatapassError>, doc: DocModel)
    requires
        usage_result_matches(r, doc),
        !is_auth_wall(text::lower_of(doc.body_text@)),
        doc.title matches Some(t) && plan_name_of(t@) is Some,
        candidate_of(doc.sections@) is None,
    ensures
        r matches Err(DatapassError::StructureNotFound(m)) && m@
            == "Could not find data usage information"@,
{
}

} // verus!
