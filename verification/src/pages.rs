//! Page assembly: the substitution point that turns a template and a loaded
//! registry into the dashboard page, and the uniform error page carrying a
//! context string and the underlying cause.
//!
//! Substitution replaces the first occurrence of a marker in the template.
//! The templates themselves are plain text handed in by the caller.

use vstd::prelude::*;

use crate::record::ServiceView;
use crate::record::Services;
use crate::record::services_html;
use crate::registry::DirScan;
use crate::registry::LoadWarning;
use crate::registry::directory_warning;
use crate::registry::load_registry;
use crate::registry::records_of;
use crate::registry::warnings_correspond;

verus! {

/// The position of the first occurrence of `pat` in `t` at or after `from`.
pub open spec fn first_match(t: Seq<char>, pat: Seq<char>, from: int) -> Option<int>
    decreases t.len() + 1 - from,
{
    if from < 0 || from + pat.len() > t.len() {
        None
    } else if t.subrange(from, from + pat.len() as int) == pat {
        Some(from)
    } else {
        first_match(t, pat, from + 1)
    }
}

/// `t` with the first occurrence of `pat`, if any, replaced by `val`.
pub open spec fn spec_replace_first(t: Seq<char>, pat: Seq<char>, val: Seq<char>) -> Seq<char> {
    match first_match(t, pat, 0) {
        Some(i) => t.take(i) + val + t.skip(i + pat.len() as int),
        None => t,
    }
}

/// Whether `pat` occurs in `text` starting at position `i`.
fn match_at(text: &str, pat: &str, i: usize, t_len: usize, p_len: usize) -> (r: bool)
    requires
        t_len == text@.len(),
        p_len == pat@.len(),
        i + p_len <= t_len,
    ensures
        r == (text@.subrange(i as int, i + pat@.len()) == pat@),
{
    let mut j: usize = 0;
    while j < p_len
        invariant
            t_len == text@.len(),
            p_len == pat@.len(),
            i + p_len <= t_len,
            j <= p_len,
            forall|q: int| 0 <= q < j ==> text@[i + q] == pat@[q],
        decreases p_len - j,
    {
        if text.get_char(i + j) != pat.get_char(j) {
            proof {
                assert(text@.subrange(i as int, i + pat@.len())[j as int] == text@[i + j]);
            }
            return false;
        }
        j += 1;
    }
    proof {
        assert(text@.subrange(i as int, i + pat@.len()) =~= pat@);
    }
    true
}

/// Replaces the first occurrence of the non-empty marker `pat` in `text` by
/// `val`; text without the marker comes back unchanged.
pub fn replace_first(text: &str, pat: &str, val: &str) -> (r: String)
    requires
        pat@.len() >= 1,
    ensures
        r@ == spec_replace_first(text@, pat@, val@),
{
    let t_len = text.unicode_len();
    let p_len = pat.unicode_len();
    if p_len > t_len {
        return text.to_owned();
    }
    let last = t_len - p_len;
    let mut i: usize = 0;
    while i <= last
        invariant
            t_len == text@.len(),
            p_len == pat@.len(),
            p_len >= 1,
            p_len <= t_len,
            last == t_len - p_len,
            i <= last + 1,
            first_match(text@, pat@, 0) == first_match(text@, pat@, i as int),
        decreases last + 1 - i,
    {
        if match_at(text, pat, i, t_len, p_len) {
            let head = text.substring_char(0, i);
            let tail = text.substring_char(i + p_len, t_len);
            let mut r = head.to_owned();
            r.append(val);
            r.append(tail);
            proof {
                assert(first_match(text@, pat@, i as int) == Some(i as int));
                assert(text@.take(i as int) =~= text@.subrange(0, i as int));
                assert(text@.skip(i + pat@.len()) =~= text@.subrange(
                    i + p_len as int,
                    t_len as int,
                ));
            }
            return r;
        }
        i += 1;
    }
    proof {
        assert(first_match(text@, pat@, i as int) is None);
    }
    text.to_owned()
}

/// The dashboard page: the index template with the list marker replaced by
/// the rendered registry.
pub open spec fn spec_index_page(template: Seq<char>, records: Seq<ServiceView>) -> Seq<char> {
    spec_replace_first(template, "{{services-list}}"@, services_html(records))
}

/// The uniform error page: the error template with its two markers replaced
/// by the context string and the underlying cause's text.
pub open spec fn spec_error_page(template: Seq<char>, context: Seq<char>, cause: Seq<char>) -> Seq<
    char,
> {
    spec_replace_first(spec_replace_first(template, "{{context}}"@, context), "{{e}}"@, cause)
}

pub fn render_index_page(template: &str, services: &Services) -> (r: String)
    ensures
        r@ == spec_index_page(template@, services@),
{
    proof {
        reveal_strlit("{{services-list}}");
    }
    let list = services.as_html();
    replace_first(template, "{{services-list}}", list.as_str())
}

pub fn render_error_page(template: &str, context: &str, cause: &str) -> (r: String)
    ensures
        r@ == spec_error_page(template@, context@, cause@),
{
    proof {
        reveal_strlit("{{context}}");
        reveal_strlit("{{e}}");
    }
    let partial = replace_first(template, "{{context}}", context);
    replace_first(partial.as_str(), "{{e}}", cause)
}

/// An HTTP-like response: a status code and an HTML body.
pub struct PageResponse {
    pub status: u16,
    pub body: String,
}

/// The records a scan yields: those of its entries, none for a directory
/// that was just created, could not be read, or could not be created.
pub open spec fn scan_records(scan: DirScan) -> Seq<ServiceView> {
    match scan {
        DirScan::Entries { entries } => records_of(entries@),
        _ => Seq::<ServiceView>::empty(),
    }
}

/// The synchronous page render for one request: a 200 dashboard page built
/// from whatever the scan yielded, except that a directory that could not be
/// created is a 500 error page with context and cause. Returns the response
/// together with the warnings recorded while loading.
pub fn index_response(index_template: &str, error_template: &str, scan: DirScan) -> (r: (
    PageResponse,
    Vec<LoadWarning>,
))
    ensures
        scan matches DirScan::CreateFailed { cause } ==> r.0.status == 500 && r.0.body@
            == spec_error_page(
            error_template@,
            "reading cfg"@,
            "Error creating cfg dir: "@ + cause@,
        ) && r.1@.len() == 0,
        !(scan matches DirScan::CreateFailed { .. }) ==> r.0.status == 200 && r.0.body@
            == spec_index_page(index_template@, scan_records(scan)),
        scan matches DirScan::CreatedEmpty ==> r.1@.len() == 0,
        scan matches DirScan::OpenFailed { cause } ==> r.1@.len() == 1 && directory_warning(
            r.1@[0],
            cause@,
        ),
        scan matches DirScan::Entries { entries } ==> warnings_correspond(entries@, r.1@),
{
    match load_registry(scan) {
        Ok(rep) => {
            let body = render_index_page(index_template, &rep.services);
            (PageResponse { status: 200, body }, rep.warnings)
        },
        Err(cause) => {
            let body = render_error_page(error_template, "reading cfg", cause.as_str());
            (PageResponse { status: 500, body }, Vec::new())
        },
    }
}

} // verus!
